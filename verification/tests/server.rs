use ws_gateway::bus::redis::Message;
use ws_gateway::context::ConnectionContext;
use ws_gateway::error::Failure;
use ws_gateway::gateway::config::{
    CommsMode, Config, ConnectRoute, DisconnectRoute, Redis, Routes, Server as ServerConfig, Stream,
};
use ws_gateway::gateway::directory::KvCommand;
use ws_gateway::gateway::messages::{
    BroadcastServerMessage, ClientMessage, Connect, Disconnect, Heartbeat, ServerDisconnect,
    ServerMessage,
};
use ws_gateway::gateway::routes::{ConnectRequest, DisconnectRequest};
use ws_gateway::gateway::server::{reply_for, Server, STATUS_FAILED};
use ws_gateway::http::HttpOutcome;

fn config(connect: bool, disconnect: bool, bidi: bool) -> Config {
    Config {
        version: "1".to_string(),
        group_id: "g1".to_string(),
        server: ServerConfig {
            address: "0.0.0.0:8080".to_string(),
            heartbeat_interval_sec: 5,
            stats_interval_sec: None,
            connection_timeout_sec: 10,
            max_out_message_size: 1024,
            comms: if bidi {
                CommsMode::Bidi {
                    stream: Stream {
                        endpoint: "nats://queue:4222".to_string(),
                        name: "payloads".to_string(),
                    },
                }
            } else {
                CommsMode::UniServerToClient
            },
        },
        redis: Redis { endpoint: "redis://kv:6379".to_string() },
        routes: Routes {
            endpoints: vec!["/public".to_string(), "/admin".to_string()],
            authorizer: None,
            connect: if connect {
                Some(ConnectRoute {
                    endpoint: "http://hooks/connect".to_string(),
                    headers: vec![("x-key".to_string(), "k".to_string())],
                })
            } else {
                None
            },
            disconnect: if disconnect {
                Some(DisconnectRoute {
                    endpoint: "http://hooks/disconnect".to_string(),
                    headers: vec![],
                })
            } else {
                None
            },
        },
    }
}

fn connect(connection: &str) -> Connect {
    Connect {
        connection: connection.to_string(),
        endpoint: "/public".to_string(),
        time: "2024-01-01T00:00:00+00:00".to_string(),
    }
}

fn release_of(connection: &str) -> Vec<KvCommand> {
    vec![
        KvCommand::Delete { key: format!("gw:g1:i2c:A:{}", connection) },
        KvCommand::Delete { key: format!("gw:g1:c2i:{}", connection) },
    ]
}

#[test]
fn new_server_has_no_sessions() {
    let s = Server::new(config(false, false, false), "A".to_string());
    assert_eq!(s.session_table().len(), 0);
    assert_eq!(s.instance_id(), "A");
    assert_eq!(s.configuration().group_id, "g1");
    let stats = s.stats();
    assert_eq!(stats.count, 0);
    assert!(stats.connections.is_empty());
}

#[test]
fn server_keys_use_group_and_instance() {
    let s = Server::new(config(false, false, false), "A".to_string());
    assert_eq!(s.make_key("c1"), "gw:g1:i2c:A:c1");
    assert_eq!(s.make_reverse_key("c1"), "gw:g1:c2i:c1");
}

#[test]
fn server_subscribes_to_its_own_topic_and_to_broadcast() {
    let s = Server::new(config(false, false, false), "A".to_string());
    assert_eq!(s.subscriptions(), ("gw:g1:A".to_string(), "gw:g1:broadcast".to_string()));
}

#[test]
fn connect_registers_session_and_claims_ownership() {
    let mut s = Server::new(config(false, false, false), "A".to_string());
    let plan = s.handle_connect(&connect("c1"));
    assert_eq!(s.session_table().len(), 1);
    assert_eq!(s.session_table().get(0).connection, "c1");
    assert_eq!(s.session_table().get(0).endpoint, "/public");
    assert_eq!(
        plan.claim,
        vec![
            KvCommand::Write { key: "gw:g1:i2c:A:c1".to_string(), value: "1".to_string() },
            KvCommand::Expire { key: "gw:g1:i2c:A:c1".to_string(), seconds: 30 },
            KvCommand::Write { key: "gw:g1:c2i:c1".to_string(), value: "A".to_string() },
            KvCommand::Expire { key: "gw:g1:c2i:c1".to_string(), seconds: 30 },
        ]
    );
    assert_eq!(plan.hook, None);
    let stats = s.stats();
    assert_eq!(stats.count, 1);
    assert_eq!(stats.connections, vec!["c1".to_string()]);
}

#[test]
fn connect_hook_gets_instance_group_endpoint_connection_and_time() {
    let mut s = Server::new(config(true, false, false), "A".to_string());
    let plan = s.handle_connect(&connect("c1"));
    let hook = plan.hook.expect("a connect hook is configured");
    assert_eq!(hook.endpoint, "http://hooks/connect");
    assert_eq!(hook.headers, vec![("x-key".to_string(), "k".to_string())]);
    assert_eq!(
        hook.body,
        ConnectRequest {
            instance_id: "A".to_string(),
            group_id: "g1".to_string(),
            endpoint: "/public".to_string(),
            connection_id: "c1".to_string(),
            time: "2024-01-01T00:00:00+00:00".to_string(),
        }
    );
}

#[test]
fn connect_without_hook_is_accepted_after_the_claim() {
    let mut s = Server::new(config(false, false, false), "A".to_string());
    let msg = connect("c1");
    s.handle_connect(&msg);
    let v = s.settle_connect(&msg, true, None);
    assert_eq!(v.reply, Ok(()));
    assert!(v.rollback.is_empty());
    assert_eq!(v.error, None);
    assert_eq!(s.session_table().len(), 1);
}

#[test]
fn connect_with_hook_200_is_accepted() {
    let mut s = Server::new(config(true, false, false), "A".to_string());
    let msg = connect("c1");
    s.handle_connect(&msg);
    let v = s.settle_connect(&msg, true, Some(HttpOutcome::Status(200)));
    assert_eq!(v.reply, Ok(()));
    assert!(v.rollback.is_empty());
    assert_eq!(s.session_table().len(), 1);
}

#[test]
fn connect_with_failed_claim_is_rejected() {
    let mut s = Server::new(config(false, false, false), "A".to_string());
    let msg = connect("c1");
    s.handle_connect(&msg);
    let v = s.settle_connect(&msg, false, None);
    assert_eq!(v.reply, Err(500));
    assert!(v.rollback.is_empty());
    assert_eq!(v.error, None);
    assert_eq!(s.session_table().len(), 0);
}

#[test]
fn connect_refused_by_hook_is_rolled_back() {
    let mut s = Server::new(config(true, false, false), "A".to_string());
    s.handle_connect(&connect("c0"));
    let msg = connect("c1");
    s.handle_connect(&msg);
    let v = s.settle_connect(&msg, true, Some(HttpOutcome::Status(403)));
    assert_eq!(v.reply, Err(STATUS_FAILED));
    assert_eq!(v.rollback, release_of("c1"));
    assert_eq!(v.error, Some(Failure::ConnectRoute("connect route error code 403".to_string())));
    assert_eq!(s.session_table().len(), 1);
    assert_eq!(s.session_table().get(0).connection, "c0");
}

#[test]
fn connect_with_unreachable_hook_is_rolled_back() {
    let mut s = Server::new(config(true, false, false), "A".to_string());
    let msg = connect("c1");
    s.handle_connect(&msg);
    let v = s.settle_connect(&msg, true, Some(HttpOutcome::Failed("timed out".to_string())));
    assert_eq!(v.reply, Err(500));
    assert_eq!(v.rollback, release_of("c1"));
    assert_eq!(v.error, Some(Failure::ConnectRoute("timed out".to_string())));
    assert_eq!(s.session_table().len(), 0);
}

#[test]
fn connect_with_hook_that_was_not_called_is_rejected() {
    let mut s = Server::new(config(true, false, false), "A".to_string());
    let msg = connect("c1");
    s.handle_connect(&msg);
    let v = s.settle_connect(&msg, true, None);
    assert_eq!(v.reply, Err(500));
    assert_eq!(v.rollback, release_of("c1"));
    assert_eq!(v.error, None);
}

#[test]
fn disconnect_forgets_session_and_releases_ownership() {
    let mut s = Server::new(config(false, true, false), "A".to_string());
    s.handle_connect(&connect("c1"));
    let plan = s.handle_disconnect(&Disconnect {
        connection: "c1".to_string(),
        endpoint: "/public".to_string(),
        time: "t2".to_string(),
    });
    assert_eq!(s.session_table().len(), 0);
    assert_eq!(plan.release, release_of("c1"));
    let hook = plan.hook.expect("a disconnect hook is configured");
    assert_eq!(hook.endpoint, "http://hooks/disconnect");
    assert_eq!(
        hook.body,
        DisconnectRequest {
            instance_id: "A".to_string(),
            group_id: "g1".to_string(),
            endpoint: "/public".to_string(),
            connection_id: "c1".to_string(),
            time: "t2".to_string(),
        }
    );
}

#[test]
fn disconnect_of_unknown_session_still_releases() {
    let mut s = Server::new(config(false, false, false), "A".to_string());
    let plan = s.handle_disconnect(&Disconnect {
        connection: "c1".to_string(),
        endpoint: "/public".to_string(),
        time: "t2".to_string(),
    });
    assert_eq!(plan.release, release_of("c1"));
    assert_eq!(plan.hook, None);
}

#[test]
fn disconnect_is_best_effort() {
    let s = Server::new(config(false, true, false), "A".to_string());
    let v = s.settle_disconnect(Some(HttpOutcome::Status(200)));
    assert_eq!(v.reply, Ok(()));
    assert_eq!(v.error, None);
    let v = s.settle_disconnect(None);
    assert_eq!(v.reply, Ok(()));
    assert_eq!(v.error, None);
    let v = s.settle_disconnect(Some(HttpOutcome::Status(500)));
    assert_eq!(v.reply, Ok(()));
    assert_eq!(
        v.error,
        Some(Failure::DisconnectRoute("disconnect route error code 500".to_string()))
    );
}

#[test]
fn heartbeat_renews_both_entries() {
    let s = Server::new(config(false, false, false), "A".to_string());
    let batch =
        s.handle_heartbeat(&Heartbeat { connection: "c1".to_string(), time: "t".to_string() });
    assert_eq!(
        batch,
        vec![
            KvCommand::Expire { key: "gw:g1:i2c:A:c1".to_string(), seconds: 30 },
            KvCommand::Expire { key: "gw:g1:c2i:c1".to_string(), seconds: 30 },
        ]
    );
}

#[test]
fn replies_are_ok_or_500() {
    assert_eq!(reply_for(true), Ok(()));
    assert_eq!(reply_for(false), Err(500));
}

fn client_message() -> ClientMessage {
    ClientMessage {
        connection: "c1".to_string(),
        endpoint: "/public".to_string(),
        time: "t".to_string(),
        context: ConnectionContext::empty(),
        message: "ping".to_string(),
    }
}

#[test]
fn client_message_goes_to_the_queue_in_an_envelope() {
    let s = Server::new(config(false, false, true), "A".to_string());
    let p = s
        .queue_publication(client_message(), "id-1".to_string(), "ts-1".to_string())
        .expect("the gateway forwards client payloads");
    assert_eq!(p.subject, "gw.g1.core.v1.$client");
    assert_eq!(p.expected_stream, "payloads");
    assert_eq!(p.envelope.meta.id, "id-1");
    assert_eq!(p.envelope.meta.timestamp, "ts-1");
    assert_eq!(p.envelope.data.instance_id, "A");
    assert_eq!(p.envelope.data.connection_id, "c1");
    assert_eq!(p.envelope.data.endpoint, "/public");
    assert_eq!(p.envelope.data.context, ConnectionContext::empty());
    assert_eq!(p.envelope.data.message, "ping");
}

#[test]
fn client_message_gets_a_fresh_id_each_time() {
    let s = Server::new(config(false, false, true), "A".to_string());
    let a = s.handle_client_message(client_message()).expect("forwarded");
    let b = s.handle_client_message(client_message()).expect("forwarded");
    assert_eq!(a.envelope.meta.id.len(), 36);
    assert_ne!(a.envelope.meta.id, b.envelope.meta.id);
    assert_eq!(a.envelope.data.message, "ping");
    assert!(!a.envelope.meta.timestamp.is_empty());
}

#[test]
fn client_message_is_not_forwarded_in_one_way_mode() {
    let s = Server::new(config(false, false, false), "A".to_string());
    assert_eq!(s.queue_publication(client_message(), "id".to_string(), "ts".to_string()), None);
    assert_eq!(s.handle_client_message(client_message()), None);
}

#[test]
fn server_message_asks_for_the_owner() {
    let s = Server::new(config(false, false, false), "A".to_string());
    let l = s.handle_server_message(ServerMessage {
        connection: "c1".to_string(),
        time: "t".to_string(),
        message: "hello".to_string(),
    });
    assert_eq!(l.query, KvCommand::Read { key: "gw:g1:c2i:c1".to_string() });
    assert_eq!(
        l.envelope,
        Message::S2CMessage {
            connection: "c1".to_string(),
            time: "t".to_string(),
            message: "hello".to_string(),
        }
    );
}

#[test]
fn server_message_goes_to_the_owner_s_topic() {
    let s = Server::new(config(false, false, false), "A".to_string());
    let l = s.handle_server_message(ServerMessage {
        connection: "c1".to_string(),
        time: "t".to_string(),
        message: "hello".to_string(),
    });
    let p = s.address_to_owner(Some("B".to_string()), l.envelope.clone()).expect("owner known");
    assert_eq!(p.channel, "gw:g1:B");
    assert_eq!(p.message, l.envelope);
}

#[test]
fn server_message_without_owner_is_dropped() {
    let s = Server::new(config(false, false, false), "A".to_string());
    let l = s.handle_server_message(ServerMessage {
        connection: "c1".to_string(),
        time: "t".to_string(),
        message: "hello".to_string(),
    });
    assert_eq!(
        s.address_to_owner(None, l.envelope),
        Err(Failure::ConnectionNotFound("c1".to_string()))
    );
}

#[test]
fn server_disconnect_asks_for_the_owner() {
    let s = Server::new(config(false, false, false), "A".to_string());
    let l = s.handle_server_disconnect(ServerDisconnect {
        connection: "c1".to_string(),
        time: "t".to_string(),
        reason: "bye".to_string(),
    });
    assert_eq!(l.query, KvCommand::Read { key: "gw:g1:c2i:c1".to_string() });
    assert_eq!(
        l.envelope,
        Message::SDisconnect {
            connection: "c1".to_string(),
            time: "t".to_string(),
            reason: "bye".to_string(),
        }
    );
    assert_eq!(
        s.address_to_owner(None, l.envelope),
        Err(Failure::ConnectionNotFound("c1".to_string()))
    );
}

#[test]
fn broadcast_goes_to_the_group_topic() {
    let s = Server::new(config(false, false, false), "A".to_string());
    let p = s.handle_broadcast(BroadcastServerMessage {
        endpoint: Some("/public".to_string()),
        time: "t".to_string(),
        message: "hi".to_string(),
    });
    assert_eq!(p.channel, "gw:g1:broadcast");
    assert_eq!(
        p.message,
        Message::SBroadcast {
            endpoint: Some("/public".to_string()),
            time: "t".to_string(),
            message: "hi".to_string(),
        }
    );
}

#[test]
fn messages_turn_into_their_envelopes() {
    assert_eq!(
        ServerMessage { connection: "c".to_string(), time: "t".to_string(), message: "m".to_string() }
            .into(),
        Message::S2CMessage {
            connection: "c".to_string(),
            time: "t".to_string(),
            message: "m".to_string(),
        }
    );
    assert_eq!(
        ServerDisconnect {
            connection: "c".to_string(),
            time: "t".to_string(),
            reason: "r".to_string(),
        }
        .into(),
        Message::SDisconnect {
            connection: "c".to_string(),
            time: "t".to_string(),
            reason: "r".to_string(),
        }
    );
    assert_eq!(
        BroadcastServerMessage { endpoint: None, time: "t".to_string(), message: "m".to_string() }
            .into(),
        Message::SBroadcast { endpoint: None, time: "t".to_string(), message: "m".to_string() }
    );
}

#[test]
fn message_texts_of_failures() {
    assert_eq!(Failure::ConnectionNotFound("c1".to_string()).message(), "c1");
    assert_eq!(Failure::Overflow("overflow".to_string()).message(), "overflow");
    assert_eq!(Failure::Startup("no store".to_string()).message(), "no store");
}

#[test]
fn connect_hook_is_called_only_after_a_claim_that_went_through() {
    let mut s = Server::new(config(true, false, false), "A".to_string());
    let plan = s.handle_connect(&connect("c1"));
    let hook = plan.hook.clone();
    assert!(hook.is_some());
    assert_eq!(plan.clone().hook_after(true), hook);
    assert_eq!(plan.hook_after(false), None);
}
