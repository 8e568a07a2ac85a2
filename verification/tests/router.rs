use ws_gateway::bus::redis::Message;
use ws_gateway::error::Failure;
use ws_gateway::gateway::logger::{on_arrival, Event};
use ws_gateway::gateway::messages::WsMessage;
use ws_gateway::gateway::router::{broadcast, pause_after, route, Delivery, RETRY_AFTER_SECS};
use ws_gateway::gateway::sessions::SessionTable;

fn two_sessions() -> SessionTable {
    let mut t = SessionTable::new();
    t.insert("c1".to_string(), "/public".to_string());
    t.insert("c2".to_string(), "/admin".to_string());
    t
}

fn text(connection: &str, endpoint: &str, message: &str) -> Delivery {
    Delivery {
        connection: connection.to_string(),
        message: WsMessage::Message {
            endpoint: endpoint.to_string(),
            message: message.to_string(),
        },
    }
}

#[test]
fn new_table_is_empty() {
    let t = SessionTable::new();
    assert_eq!(t.len(), 0);
    assert_eq!(t.find(&"c1".to_string()), None);
}

#[test]
fn insert_registers_in_order() {
    let t = two_sessions();
    assert_eq!(t.len(), 2);
    assert_eq!(t.get(0).connection, "c1");
    assert_eq!(t.get(1).connection, "c2");
    assert_eq!(t.find(&"c2".to_string()), Some(1));
    assert_eq!(t.endpoint_of(&"c1".to_string()), Some(&"/public".to_string()));
    assert_eq!(t.endpoint_of(&"c9".to_string()), None);
}

#[test]
fn insert_of_known_connection_replaces_in_place() {
    let mut t = two_sessions();
    t.insert("c1".to_string(), "/other".to_string());
    assert_eq!(t.len(), 2);
    assert_eq!(t.get(0).connection, "c1");
    assert_eq!(t.get(0).endpoint, "/other");
    assert_eq!(t.get(1).connection, "c2");
}

#[test]
fn remove_forgets_one_session_and_keeps_order() {
    let mut t = two_sessions();
    t.insert("c3".to_string(), "/public".to_string());
    assert!(t.remove(&"c2".to_string()));
    assert_eq!(t.len(), 2);
    assert_eq!(t.get(0).connection, "c1");
    assert_eq!(t.get(1).connection, "c3");
    assert!(!t.remove(&"c2".to_string()));
    assert_eq!(t.len(), 2);
}

#[test]
fn message_for_local_session_is_delivered_once() {
    let t = two_sessions();
    let m = Message::S2CMessage {
        connection: "c1".to_string(),
        time: "t".to_string(),
        message: "hello".to_string(),
    };
    assert_eq!(route(&t, &m), Ok(vec![text("c1", "/public", "hello")]));
}

#[test]
fn message_for_unknown_connection_is_not_found() {
    let t = two_sessions();
    let m = Message::S2CMessage {
        connection: "c9".to_string(),
        time: "t".to_string(),
        message: "hello".to_string(),
    };
    assert_eq!(route(&t, &m), Err(Failure::ConnectionNotFound("c9".to_string())));
}

#[test]
fn disconnect_for_local_session_carries_the_reason() {
    let t = two_sessions();
    let m = Message::SDisconnect {
        connection: "c2".to_string(),
        time: "t".to_string(),
        reason: "bye".to_string(),
    };
    assert_eq!(
        route(&t, &m),
        Ok(vec![
            Delivery {
                connection: "c2".to_string(),
                message: WsMessage::Disconnect("bye".to_string()),
            },
        ])
    );
}

#[test]
fn disconnect_for_unknown_connection_is_not_found() {
    let t = SessionTable::new();
    let m = Message::SDisconnect {
        connection: "c2".to_string(),
        time: "t".to_string(),
        reason: "bye".to_string(),
    };
    assert_eq!(route(&t, &m), Err(Failure::ConnectionNotFound("c2".to_string())));
}

#[test]
fn broadcast_reaches_every_session_once() {
    let t = two_sessions();
    let m = Message::SBroadcast {
        endpoint: None,
        time: "t".to_string(),
        message: "hi".to_string(),
    };
    assert_eq!(route(&t, &m), Ok(vec![text("c1", "/public", "hi"), text("c2", "/admin", "hi")]));
}

#[test]
fn broadcast_with_filter_reaches_only_that_endpoint() {
    let t = two_sessions();
    let m = Message::SBroadcast {
        endpoint: Some("/public".to_string()),
        time: "t".to_string(),
        message: "hi".to_string(),
    };
    assert_eq!(route(&t, &m), Ok(vec![text("c1", "/public", "hi")]));
}

#[test]
fn broadcast_with_unknown_endpoint_reaches_nobody() {
    let t = two_sessions();
    let out = broadcast(&t, &Some("/nowhere".to_string()), &"hi".to_string());
    assert!(out.is_empty());
}

#[test]
fn broadcast_on_empty_table_reaches_nobody() {
    let t = SessionTable::new();
    let out = broadcast(&t, &None, &"hi".to_string());
    assert!(out.is_empty());
}

#[test]
fn router_backs_off_five_seconds() {
    assert_eq!(RETRY_AFTER_SECS, 5);
    assert_eq!(pause_after(&Failure::Bus("connection lost".to_string())), 5);
}

#[test]
fn router_goes_on_at_once_after_an_unknown_connection() {
    assert_eq!(pause_after(&Failure::ConnectionNotFound("c9".to_string())), 0);
}

#[test]
fn arrivals_are_recorded_by_kind() {
    let b = Message::SBroadcast { endpoint: None, time: "t".to_string(), message: "m".to_string() };
    assert_eq!(on_arrival(&b), Event::ServerBroadcastMessagePost);
    let s = Message::S2CMessage {
        connection: "c1".to_string(),
        time: "t".to_string(),
        message: "m".to_string(),
    };
    assert_eq!(on_arrival(&s), Event::ServerMessagePost { connection: "c1".to_string() });
    let d = Message::SDisconnect {
        connection: "c1".to_string(),
        time: "t".to_string(),
        reason: "bye".to_string(),
    };
    assert_eq!(
        on_arrival(&d),
        Event::ServerDisconnect { connection: "c1".to_string(), reason: "bye".to_string() }
    );
}
