use ws_gateway::bus::nats::{ClientMessage, Message, MessageMeta};
use ws_gateway::context::ConnectionContext;
use ws_gateway::error::Failure;
use ws_gateway::http::HttpOutcome;
use ws_gateway::worker::args::{CallArgs, Command};
use ws_gateway::worker::config::{
    Config, DestinationRoute, EngineMode, RegexRule, RulesEngineRoute, Stream,
};
use ws_gateway::worker::logger::Event;
use ws_gateway::worker::matching::{first_regex_matches, RegexCache};
use ws_gateway::worker::pipeline::{
    forwarded, handle_nats_message, handle_nats_message_dss_mode, handle_nats_message_regex_mode,
    resolve_destination, settle, settlement, undecodable, Settlement, Step,
};
use ws_gateway::worker::routes::{ForwardRequest, RulesEngineRequest, RulesEngineResponse};

fn envelope(message: &str) -> Message<ClientMessage> {
    Message {
        meta: MessageMeta { id: "id-1".to_string(), timestamp: "ts-1".to_string() },
        data: ClientMessage {
            instance_id: "A".to_string(),
            connection_id: "c1".to_string(),
            endpoint: "/public".to_string(),
            context: ConnectionContext::empty(),
            message: message.to_string(),
        },
    }
}

fn rule(regex: &str, endpoint: &str) -> RegexRule {
    RegexRule {
        regex: regex.to_string(),
        route: DestinationRoute {
            endpoint: endpoint.to_string(),
            headers: vec![("x-dest".to_string(), endpoint.to_string())],
        },
    }
}

fn regex_config(rules: Vec<RegexRule>) -> Config {
    Config {
        version: "1".to_string(),
        group_id: "g1".to_string(),
        engine_mode: EngineMode::Regex { rules },
        stream: Stream {
            endpoint: "nats://queue:4222".to_string(),
            name: "payloads".to_string(),
            consumer_name: "workers".to_string(),
        },
    }
}

fn forward_body(message: &str) -> ForwardRequest {
    ForwardRequest {
        instance_id: "A".to_string(),
        connection_id: "c1".to_string(),
        endpoint: "/public".to_string(),
        time: "ts-1".to_string(),
        context: ConnectionContext::empty(),
        message: message.to_string(),
    }
}

#[test]
fn cache_compiles_each_pattern_once() {
    let mut cache = RegexCache::new();
    assert_eq!(cache.len(), 0);
    assert_eq!(cache.check(&"^ping$".to_string(), &"ping".to_string()), Ok(true));
    assert_eq!(cache.len(), 1);
    assert_eq!(cache.check(&"^ping$".to_string(), &"pong".to_string()), Ok(false));
    assert_eq!(cache.len(), 1);
    assert_eq!(cache.check(&"^p.ng$".to_string(), &"pong".to_string()), Ok(true));
    assert_eq!(cache.len(), 2);
}

#[test]
fn cache_does_not_keep_patterns_that_do_not_compile() {
    let mut cache = RegexCache::new();
    let r = cache.check(&"(unclosed".to_string(), &"x".to_string());
    assert!(matches!(r, Err(Failure::InvalidRegex(_))));
    assert_eq!(cache.len(), 0);
}

#[test]
fn patterns_match_anywhere_unless_anchored() {
    let mut cache = RegexCache::new();
    assert_eq!(cache.check(&"ing".to_string(), &"ping".to_string()), Ok(true));
    assert_eq!(cache.check(&"^ing".to_string(), &"ping".to_string()), Ok(false));
    assert_eq!(cache.check(&"".to_string(), &"".to_string()), Ok(true));
}

#[test]
fn patterns_may_use_look_around_and_back_references() {
    let mut cache = RegexCache::new();
    assert_eq!(cache.check(&r"(\w+) \1".to_string(), &"mirror mirror".to_string()), Ok(true));
    assert_eq!(cache.check(&r"foo(?!bar)".to_string(), &"foobar".to_string()), Ok(false));
    assert_eq!(cache.check(&r"foo(?!bar)".to_string(), &"foobaz".to_string()), Ok(true));
}

#[test]
fn first_matching_rule_wins() {
    let rules = vec![rule("^pong$", "http://dest/o"), rule("^p", "http://dest/p"), rule("ping", "http://dest/q")];
    let mut cache = RegexCache::new();
    let r = first_regex_matches(&rules, &mut cache, &envelope("ping"));
    assert_eq!(r, Ok(Some(&rules[1].route)));
}

#[test]
fn no_matching_rule_is_no_route() {
    let rules = vec![rule("^pong$", "http://dest/o")];
    let mut cache = RegexCache::new();
    assert_eq!(first_regex_matches(&rules, &mut cache, &envelope("ping")), Ok(None));
    assert_eq!(first_regex_matches(&Vec::new(), &mut cache, &envelope("ping")), Ok(None));
}

#[test]
fn broken_rule_before_a_match_is_an_error() {
    let rules = vec![rule("^pong$", "http://dest/o"), rule("(", "http://dest/x"), rule("ping", "http://dest/q")];
    let mut cache = RegexCache::new();
    let r = first_regex_matches(&rules, &mut cache, &envelope("ping"));
    assert!(matches!(r, Err(Failure::InvalidRegex(_))));
}

#[test]
fn broken_rule_after_a_match_is_not_reached() {
    let rules = vec![rule("ping", "http://dest/q"), rule("(", "http://dest/x")];
    let mut cache = RegexCache::new();
    let r = first_regex_matches(&rules, &mut cache, &envelope("ping"));
    assert_eq!(r, Ok(Some(&rules[0].route)));
}

#[test]
fn regex_route_forwards_the_payload() {
    let c = regex_config(vec![rule("^ping$", "http://dest/p")]);
    let mut cache = RegexCache::new();
    let step = handle_nats_message(&c, &mut cache, &envelope("ping"));
    match step {
        Step::Forward(post) => {
            assert_eq!(post.endpoint, "http://dest/p");
            assert_eq!(post.headers, vec![("x-dest".to_string(), "http://dest/p".to_string())]);
            assert_eq!(post.body, forward_body("ping"));
        },
        other => panic!("unexpected step {:?}", other),
    }
}

#[test]
fn unmatched_payload_is_dropped_and_acknowledged() {
    let c = regex_config(vec![rule("^ping$", "http://dest/p")]);
    let mut cache = RegexCache::new();
    let step = handle_nats_message(&c, &mut cache, &envelope("pong"));
    assert_eq!(
        step,
        Step::Drop(Event::DroppedMessageNoMatch { connection: "c1".to_string() })
    );
    assert_eq!(settlement(&step), Some(Settlement::Ack));
}

#[test]
fn unusable_rule_refuses_the_envelope() {
    let c = regex_config(vec![rule("(", "http://dest/p")]);
    let mut cache = RegexCache::new();
    let step = handle_nats_message(&c, &mut cache, &envelope("ping"));
    assert!(matches!(step, Step::Reject(Failure::InvalidRegex(_))));
    assert_eq!(settlement(&step), Some(Settlement::Nack));
}

#[test]
fn rules_engine_mode_asks_the_engine() {
    let c = Config {
        version: "1".to_string(),
        group_id: "g1".to_string(),
        engine_mode: EngineMode::Dss {
            rules_engine: RulesEngineRoute {
                endpoint: "http://rules/decide".to_string(),
                headers: vec![("x-key".to_string(), "k".to_string())],
            },
        },
        stream: Stream {
            endpoint: "nats://queue:4222".to_string(),
            name: "payloads".to_string(),
            consumer_name: "workers".to_string(),
        },
    };
    let mut cache = RegexCache::new();
    let step = handle_nats_message(&c, &mut cache, &envelope("ping"));
    assert_eq!(settlement(&step), None);
    match step {
        Step::AskRulesEngine(post) => {
            assert_eq!(post.endpoint, "http://rules/decide");
            assert_eq!(post.headers, vec![("x-key".to_string(), "k".to_string())]);
            assert_eq!(
                post.body,
                RulesEngineRequest {
                    instance_id: "A".to_string(),
                    group_id: Some("g1".to_string()),
                    endpoint: "/public".to_string(),
                    connection_id: "c1".to_string(),
                    time: "ts-1".to_string(),
                    context: ConnectionContext::empty(),
                    message: "ping".to_string(),
                }
            );
        },
        other => panic!("unexpected step {:?}", other),
    }
}

#[test]
fn requests_are_built_from_the_envelope() {
    let route = DestinationRoute { endpoint: "http://dest/p".to_string(), headers: vec![] };
    let post = handle_nats_message_regex_mode(&envelope("ping"), &route);
    assert_eq!(post.endpoint, "http://dest/p");
    assert_eq!(post.body, forward_body("ping"));
    let engine = RulesEngineRoute { endpoint: "http://rules".to_string(), headers: vec![] };
    let ask = handle_nats_message_dss_mode(&"g1".to_string(), &envelope("ping"), &engine);
    assert_eq!(ask.endpoint, "http://rules");
    assert_eq!(ask.body.message, "ping");
    assert_eq!(ask.body.group_id, Some("g1".to_string()));
}

#[test]
fn rules_engine_answer_names_the_destination() {
    let answer = RulesEngineResponse {
        endpoint: "http://dest/r".to_string(),
        headers: vec![("authorization".to_string(), "token".to_string())],
    };
    let post =
        resolve_destination(&envelope("ping"), &HttpOutcome::Status(200), Ok(answer)).unwrap();
    assert_eq!(post.endpoint, "http://dest/r");
    assert_eq!(post.headers, vec![("authorization".to_string(), "token".to_string())]);
    assert_eq!(post.body, forward_body("ping"));
}

#[test]
fn rules_engine_refusal_is_a_failure() {
    let answer = RulesEngineResponse { endpoint: "http://dest/r".to_string(), headers: vec![] };
    assert_eq!(
        resolve_destination(&envelope("ping"), &HttpOutcome::Status(500), Ok(answer)),
        Err(Failure::RulesEngineRoute("rules engine route error code 500".to_string()))
    );
    assert_eq!(
        resolve_destination(
            &envelope("ping"),
            &HttpOutcome::Status(204),
            Err("no body".to_string())
        ),
        Err(Failure::RulesEngineRoute("rules engine route error code 204".to_string()))
    );
}

#[test]
fn rules_engine_unreadable_answer_is_a_failure() {
    assert_eq!(
        resolve_destination(
            &envelope("ping"),
            &HttpOutcome::Status(200),
            Err("missing field endpoint".to_string())
        ),
        Err(Failure::RulesEngineRoute("missing field endpoint".to_string()))
    );
    assert_eq!(
        resolve_destination(
            &envelope("ping"),
            &HttpOutcome::Failed("timed out".to_string()),
            Err(String::new())
        ),
        Err(Failure::RulesEngineRoute("timed out".to_string()))
    );
}

#[test]
fn destination_200_is_acknowledged() {
    let r = forwarded(&HttpOutcome::Status(200));
    assert_eq!(r, Ok(()));
    assert_eq!(settle(&r), Settlement::Ack);
}

#[test]
fn destination_500_is_refused_on_every_delivery() {
    for _delivery in 1..=8 {
        let r = forwarded(&HttpOutcome::Status(500));
        assert_eq!(r, Err(Failure::ForwardRoute("forward route error code 500".to_string())));
        assert_eq!(settle(&r), Settlement::Nack);
    }
    assert_eq!(ws_gateway::queue::MAX_DELIVER, 8);
}

#[test]
fn destination_other_status_or_no_answer_is_refused() {
    assert_eq!(settle(&forwarded(&HttpOutcome::Status(201))), Settlement::Nack);
    assert_eq!(settle(&forwarded(&HttpOutcome::Status(404))), Settlement::Nack);
    let r = forwarded(&HttpOutcome::Failed("connection reset".to_string()));
    assert_eq!(r, Err(Failure::ForwardRoute("connection reset".to_string())));
    assert_eq!(settle(&r), Settlement::Nack);
}

#[test]
fn undecodable_payload_is_acknowledged_and_recorded() {
    let (s, f) = undecodable("expected value at line 1".to_string());
    assert_eq!(s, Settlement::Ack);
    assert_eq!(f, Failure::Queue("expected value at line 1".to_string()));
}

#[test]
fn outcomes_complain_unless_200() {
    assert!(HttpOutcome::Status(200).is_accepted());
    assert!(!HttpOutcome::Status(201).is_accepted());
    assert!(!HttpOutcome::Failed("x".to_string()).is_accepted());
    assert_eq!(HttpOutcome::Status(200).complain("code "), None);
    assert_eq!(HttpOutcome::Status(404).complain("code "), Some("code 404".to_string()));
    assert_eq!(HttpOutcome::Failed("x".to_string()).complain("code "), Some("x".to_string()));
}

#[test]
fn worker_arguments_are_valid() {
    let args = CallArgs { command: Command::Work { config: regex_config(vec![]) } };
    assert_eq!(args.validate(), Ok(()));
}
