use ws_gateway::gateway::directory::{
    claim, make_broadcast_topic, make_forward_key, make_instance_topic, make_reverse_key,
    owner_query, refresh, release, KvCommand, OWNERSHIP_TTL_SECS,
};
use ws_gateway::queue::{
    consumer_settings, make_queue_subject, make_stream_subjects, stream_settings, AckPolicy,
    DeliverPolicy, DiscardPolicy, ReplayPolicy, RetentionPolicy,
};
use ws_gateway::text::{decimal_text, is_rooted, with_code};

#[test]
fn forward_key_has_group_instance_and_connection() {
    assert_eq!(make_forward_key("g1", "i-7", "c1"), "gw:g1:i2c:i-7:c1");
}

#[test]
fn reverse_key_has_group_and_connection() {
    assert_eq!(make_reverse_key("g1", "c1"), "gw:g1:c2i:c1");
}

#[test]
fn keys_of_empty_parts_keep_their_separators() {
    assert_eq!(make_forward_key("", "", ""), "gw::i2c::");
    assert_eq!(make_reverse_key("", ""), "gw::c2i:");
}

#[test]
fn topics_are_per_instance_and_per_group() {
    assert_eq!(make_instance_topic("g1", "i-7"), "gw:g1:i-7");
    assert_eq!(make_broadcast_topic("g1"), "gw:g1:broadcast");
}

#[test]
fn queue_subjects_name_the_group() {
    assert_eq!(make_queue_subject("g1"), "gw.g1.core.v1.$client");
    assert_eq!(make_stream_subjects("g1"), "gw.g1.core.v1.>");
}

#[test]
fn time_to_live_is_thirty_seconds() {
    assert_eq!(OWNERSHIP_TTL_SECS, 30);
}

#[test]
fn claim_writes_both_entries_with_expiry() {
    let batch = claim("g1", "i-7", "c1");
    assert_eq!(
        batch,
        vec![
            KvCommand::Write { key: "gw:g1:i2c:i-7:c1".to_string(), value: "1".to_string() },
            KvCommand::Expire { key: "gw:g1:i2c:i-7:c1".to_string(), seconds: 30 },
            KvCommand::Write { key: "gw:g1:c2i:c1".to_string(), value: "i-7".to_string() },
            KvCommand::Expire { key: "gw:g1:c2i:c1".to_string(), seconds: 30 },
        ]
    );
}

#[test]
fn refresh_renews_both_entries() {
    let batch = refresh("g1", "i-7", "c1");
    assert_eq!(
        batch,
        vec![
            KvCommand::Expire { key: "gw:g1:i2c:i-7:c1".to_string(), seconds: 30 },
            KvCommand::Expire { key: "gw:g1:c2i:c1".to_string(), seconds: 30 },
        ]
    );
}

#[test]
fn refresh_is_the_same_batch_every_time() {
    assert_eq!(refresh("g1", "i-7", "c1"), refresh("g1", "i-7", "c1"));
}

#[test]
fn release_deletes_both_entries() {
    let batch = release("g1", "i-7", "c1");
    assert_eq!(
        batch,
        vec![
            KvCommand::Delete { key: "gw:g1:i2c:i-7:c1".to_string() },
            KvCommand::Delete { key: "gw:g1:c2i:c1".to_string() },
        ]
    );
}

#[test]
fn owner_query_reads_the_reverse_key() {
    assert_eq!(owner_query("g1", "c1"), KvCommand::Read { key: "gw:g1:c2i:c1".to_string() });
}

#[test]
fn stream_is_a_bounded_work_queue() {
    let s = stream_settings("payloads", "g1");
    assert_eq!(s.name, "payloads");
    assert_eq!(s.subjects, vec!["gw.g1.core.v1.>".to_string()]);
    assert_eq!(s.max_messages, 4096);
    assert_eq!(s.max_messages_per_subject, 1024);
    assert_eq!(s.max_message_size, 256 * 1024);
    assert_eq!(s.discard, DiscardPolicy::Old);
    assert_eq!(s.retention, RetentionPolicy::WorkQueue);
}

#[test]
fn consumer_is_durable_and_acknowledges_explicitly() {
    let c = consumer_settings("workers", "g1");
    assert_eq!(c.durable_name, "workers");
    assert_eq!(c.deliver_policy, DeliverPolicy::All);
    assert_eq!(c.max_deliver, 8);
    assert_eq!(c.max_ack_pending, 256);
    assert_eq!(c.ack_policy, AckPolicy::Explicit);
    assert_eq!(c.replay_policy, ReplayPolicy::Instant);
    assert_eq!(c.filter_subject, "gw.g1.core.v1.$client");
    assert_eq!(c.ack_wait_secs, 30);
}

#[test]
fn decimal_text_of_small_and_large_numbers() {
    assert_eq!(decimal_text(0), "0");
    assert_eq!(decimal_text(7), "7");
    assert_eq!(decimal_text(10), "10");
    assert_eq!(decimal_text(200), "200");
    assert_eq!(decimal_text(1008), "1008");
    assert_eq!(decimal_text(65535), "65535");
}

#[test]
fn with_code_appends_the_status() {
    assert_eq!(with_code("forward route error code ", 500), "forward route error code 500");
    assert_eq!(with_code("", 0), "0");
}

#[test]
fn rooted_means_leading_slash() {
    assert!(is_rooted("/public"));
    assert!(is_rooted("/"));
    assert!(!is_rooted("public"));
    assert!(!is_rooted(""));
    assert!(!is_rooted("p/ublic"));
}
