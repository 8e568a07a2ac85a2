use ws_gateway::context::ConnectionContext;
use ws_gateway::gateway::messages::{ClientMessage, Connect, Disconnect, Heartbeat, WsMessage};
use ws_gateway::gateway::ws::{
    Action, CloseReason, Frame, Outbound, Phase, Stamp, WsConn, CLOSE_POLICY, CLOSE_UNAUTHORIZED,
};

fn at(now_ms: u64) -> Stamp {
    Stamp { now_ms, time: format!("t{}", now_ms) }
}

fn session() -> WsConn {
    WsConn::new(
        "c1".to_string(),
        "g1".to_string(),
        "/public".to_string(),
        ConnectionContext::empty(),
        5_000,
        10_000,
        0,
    )
}

fn live() -> WsConn {
    let mut s = session();
    s.started(&at(0));
    s.acknowledged(Ok(()), &at(1));
    s
}

fn disconnect(time: &str) -> Action {
    Action::Emit(Outbound::Disconnect(Disconnect {
        connection: "c1".to_string(),
        endpoint: "/public".to_string(),
        time: time.to_string(),
    }))
}

#[test]
fn claimed_ids_are_hyphenated_uuids() {
    let id = WsConn::claim_id();
    assert_eq!(id.len(), 36);
    for (i, c) in id.chars().enumerate() {
        if i == 8 || i == 13 || i == 18 || i == 23 {
            assert_eq!(c, '-');
        } else {
            assert!(c.is_ascii_digit() || ('a'..='f').contains(&c));
        }
    }
    assert_ne!(id, WsConn::claim_id());
}

#[test]
fn stamp_keeps_the_monotonic_reading() {
    let s = Stamp::at(42);
    assert_eq!(s.now_ms, 42);
    assert!(s.time.contains('T'));
}

#[test]
fn new_session_is_created_with_its_settings() {
    let s = session();
    assert_eq!(s.phase(), Phase::Created);
    assert!(!s.is_closing());
    assert_eq!(s.heartbeat_interval(), 5_000);
    assert_eq!(s.connection, "c1");
    assert_eq!(s.group, "g1");
    assert_eq!(s.endpoint, "/public");
}

#[test]
fn started_session_announces_itself_once() {
    let mut s = session();
    let actions = s.started(&at(0));
    assert_eq!(
        actions,
        vec![
            Action::Emit(Outbound::Connect(Connect {
                connection: "c1".to_string(),
                endpoint: "/public".to_string(),
                time: "t0".to_string(),
            })),
        ]
    );
    assert_eq!(s.phase(), Phase::Opening);
    assert!(s.started(&at(1)).is_empty());
    assert_eq!(s.phase(), Phase::Opening);
}

#[test]
fn acknowledged_session_goes_live() {
    let mut s = session();
    s.started(&at(0));
    assert!(s.acknowledged(Ok(()), &at(1)).is_empty());
    assert_eq!(s.phase(), Phase::Live);
}

#[test]
fn refused_session_closes_as_unauthorized() {
    let mut s = session();
    s.started(&at(0));
    let actions = s.acknowledged(Err(500), &at(1));
    assert_eq!(
        actions,
        vec![Action::Close(Some(CloseReason { code: CLOSE_UNAUTHORIZED, description: None }))]
    );
    assert!(s.is_closing());
}

#[test]
fn frames_before_the_acknowledgement_are_ignored() {
    let mut s = session();
    s.started(&at(0));
    assert!(s.handle_frame(Frame::Text("early".to_string()), &at(1)).is_empty());
    assert!(s.tick(&at(20_000)).is_empty());
    assert_eq!(s.phase(), Phase::Opening);
}

#[test]
fn ping_is_a_heartbeat_and_gets_a_pong() {
    let mut s = live();
    let actions = s.handle_frame(Frame::Ping(vec![1, 2, 3]), &at(100));
    assert_eq!(
        actions,
        vec![
            Action::Emit(Outbound::Heartbeat(Heartbeat {
                connection: "c1".to_string(),
                time: "t100".to_string(),
            })),
            Action::Pong(vec![1, 2, 3]),
        ]
    );
    assert_eq!(s.phase(), Phase::Live);
}

#[test]
fn pong_is_a_heartbeat() {
    let mut s = live();
    let actions = s.handle_frame(Frame::Pong(vec![46]), &at(100));
    assert_eq!(
        actions,
        vec![
            Action::Emit(Outbound::Heartbeat(Heartbeat {
                connection: "c1".to_string(),
                time: "t100".to_string(),
            })),
        ]
    );
}

#[test]
fn text_becomes_a_client_message() {
    let mut s = live();
    let actions = s.handle_frame(Frame::Text("ping".to_string()), &at(100));
    assert_eq!(
        actions,
        vec![
            Action::Emit(Outbound::ClientMessage(ClientMessage {
                connection: "c1".to_string(),
                endpoint: "/public".to_string(),
                time: "t100".to_string(),
                context: ConnectionContext::empty(),
                message: "ping".to_string(),
            })),
        ]
    );
}

#[test]
fn text_carries_the_authorizer_context() {
    let mut map = std::collections::HashMap::new();
    map.insert("user".to_string(), serde_json::Value::String("u1".to_string()));
    let context = ConnectionContext { authorizer: Some(map) };
    let mut s = WsConn::new(
        "c1".to_string(),
        "g1".to_string(),
        "/public".to_string(),
        context.clone(),
        5_000,
        10_000,
        0,
    );
    s.started(&at(0));
    s.acknowledged(Ok(()), &at(0));
    let actions = s.handle_frame(Frame::Text("a".to_string()), &at(1));
    match &actions[0] {
        Action::Emit(Outbound::ClientMessage(m)) => assert_eq!(m.context, context),
        other => panic!("unexpected action {:?}", other),
    }
    assert_eq!(context.duplicate(), context);
}

#[test]
fn binary_is_echoed() {
    let mut s = live();
    assert_eq!(s.handle_frame(Frame::Binary(vec![9, 8]), &at(5)), vec![Action::Binary(vec![9, 8])]);
    assert_eq!(s.phase(), Phase::Live);
}

#[test]
fn close_frame_is_answered_and_ends_the_session() {
    let mut s = live();
    let reason = Some(CloseReason { code: 1000, description: Some("done".to_string()) });
    assert_eq!(s.handle_frame(Frame::Close(reason.clone()), &at(5)), vec![Action::Close(reason)]);
    assert!(s.is_closing());
}

#[test]
fn continuation_ends_the_session() {
    let mut s = live();
    assert!(s.handle_frame(Frame::Continuation, &at(5)).is_empty());
    assert!(s.is_closing());
}

#[test]
fn malformed_frame_ends_the_session() {
    let mut s = live();
    assert!(s.handle_frame(Frame::Malformed, &at(5)).is_empty());
    assert!(s.is_closing());
}

#[test]
fn nop_changes_nothing() {
    let mut s = live();
    assert!(s.handle_frame(Frame::Nop, &at(5)).is_empty());
    assert_eq!(s.phase(), Phase::Live);
}

#[test]
fn tick_within_timeout_sends_a_ping() {
    let mut s = live();
    assert_eq!(s.tick(&at(5_000)), vec![Action::Ping(vec![b'.'])]);
    assert_eq!(s.phase(), Phase::Live);
}

#[test]
fn tick_at_exactly_the_timeout_still_pings() {
    let mut s = live();
    assert_eq!(s.tick(&at(10_000)), vec![Action::Ping(vec![b'.'])]);
    assert_eq!(s.phase(), Phase::Live);
}

#[test]
fn tick_after_the_timeout_drops_the_session() {
    let mut s = live();
    assert_eq!(s.tick(&at(10_001)), vec![disconnect("t10001")]);
    assert!(s.is_closing());
}

#[test]
fn heartbeat_postpones_the_timeout() {
    let mut s = live();
    s.handle_frame(Frame::Pong(vec![]), &at(9_000));
    assert_eq!(s.tick(&at(15_000)), vec![Action::Ping(vec![b'.'])]);
    assert_eq!(s.tick(&at(19_000)), vec![Action::Ping(vec![b'.'])]);
    assert_eq!(s.tick(&at(19_001)), vec![disconnect("t19001")]);
}

#[test]
fn silent_client_is_dropped_within_timeout_plus_interval() {
    let mut s = live();
    let mut now = 0;
    let mut closed_at = None;
    while now <= 15_000 {
        s.tick(&at(now));
        if s.is_closing() {
            closed_at = Some(now);
            break;
        }
        now += 5_000;
    }
    assert_eq!(closed_at, Some(15_000));
}

#[test]
fn clock_that_runs_backwards_counts_as_no_time_passed() {
    let mut s = WsConn::new(
        "c1".to_string(),
        "g1".to_string(),
        "/public".to_string(),
        ConnectionContext::empty(),
        5_000,
        10_000,
        50_000,
    );
    s.started(&at(50_000));
    s.acknowledged(Ok(()), &at(50_000));
    assert_eq!(s.tick(&at(10)), vec![Action::Ping(vec![b'.'])]);
}

#[test]
fn delivered_text_is_written_as_one_frame() {
    let mut s = live();
    let actions = s.handle(
        WsMessage::Message { endpoint: "/public".to_string(), message: "hello".to_string() },
        &at(5),
    );
    assert_eq!(actions, vec![Action::Text("hello".to_string())]);
    assert_eq!(s.phase(), Phase::Live);
}

#[test]
fn kick_closes_with_policy_code_and_reason() {
    let mut s = live();
    let actions = s.handle(WsMessage::Disconnect("bye".to_string()), &at(5));
    assert_eq!(
        actions,
        vec![
            Action::Close(Some(CloseReason {
                code: 1008,
                description: Some("bye".to_string()),
            })),
        ]
    );
    assert_eq!(CLOSE_POLICY, 1008);
    assert!(s.is_closing());
}

#[test]
fn commands_for_a_closing_session_are_dropped() {
    let mut s = live();
    s.handle(WsMessage::Disconnect("bye".to_string()), &at(5));
    let actions = s.handle(
        WsMessage::Message { endpoint: "/public".to_string(), message: "late".to_string() },
        &at(6),
    );
    assert!(actions.is_empty());
}

#[test]
fn stopping_sends_exactly_one_disconnect() {
    let mut s = live();
    s.handle_frame(Frame::Close(None), &at(5));
    assert_eq!(s.stopping(&at(6)), vec![disconnect("t6")]);
    assert_eq!(s.phase(), Phase::Closed);
    assert!(s.stopping(&at(7)).is_empty());
    assert_eq!(s.phase(), Phase::Closed);
}

#[test]
fn stopping_after_timeout_does_not_repeat_the_disconnect() {
    let mut s = live();
    assert_eq!(s.tick(&at(10_001)), vec![disconnect("t10001")]);
    assert!(s.stopping(&at(10_002)).is_empty());
    assert_eq!(s.phase(), Phase::Closed);
}

#[test]
fn stopping_a_refused_session_sends_its_disconnect() {
    let mut s = session();
    s.started(&at(0));
    s.acknowledged(Err(500), &at(1));
    assert_eq!(s.stopping(&at(2)), vec![disconnect("t2")]);
}

#[test]
fn stopping_before_start_sends_nothing() {
    let mut s = session();
    assert!(s.stopping(&at(0)).is_empty());
    assert_eq!(s.phase(), Phase::Created);
}

#[test]
fn timestamps_are_rfc3339_in_utc() {
    let t = ws_gateway::ident::now_rfc3339();
    assert!(t.ends_with("+00:00"));
    let parsed = chrono::DateTime::parse_from_rfc3339(&t).expect("an RFC 3339 timestamp");
    assert_eq!(parsed.offset().local_minus_utc(), 0);
    let year_len = t.find('-').expect("a date");
    assert_eq!(year_len, 4);
    let clock = &t.as_bytes()[year_len..year_len + 15];
    for (i, b) in clock.iter().enumerate() {
        match i {
            0 | 3 => assert_eq!(*b, b'-'),
            6 => assert_eq!(*b, b'T'),
            9 | 12 => assert_eq!(*b, b':'),
            _ => assert!(b.is_ascii_digit()),
        }
    }
    let fraction = &t[year_len + 15..t.len() - 6];
    if !fraction.is_empty() {
        assert!(fraction.starts_with('.'));
        assert!([4, 7, 10].contains(&fraction.len()));
        assert!(fraction[1..].bytes().all(|b| b.is_ascii_digit()));
    }
}
