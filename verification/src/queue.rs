//! The durable work queue: its subject, and how its stream and its consumer
//! are provisioned. Provisioning is idempotent and happens at startup.

use vstd::prelude::*;
use vstd::string::*;

verus! {

/// The stream keeps at most this many messages.
pub const MAX_MESSAGES: i64 = 4096;

/// The stream keeps at most this many messages per subject.
pub const MAX_MESSAGES_PER_SUBJECT: i64 = 1024;

/// The largest message the stream takes: 256 KiB.
pub const MAX_MESSAGE_SIZE: i32 = 262144;

/// A message is delivered at most this many times.
pub const MAX_DELIVER: i64 = 8;

/// At most this many messages wait for their acknowledgement at once.
pub const MAX_ACK_PENDING: i64 = 256;

/// Seconds a worker has to settle a message before it is delivered again.
pub const ACK_WAIT_SECS: u64 = 30;

/// `gw.{group}.core.v1.$client`, the subject that client payloads go to.
pub open spec fn queue_subject(group: Seq<char>) -> Seq<char> {
    "gw."@ + group + ".core.v1.$client"@
}

/// `gw.{group}.core.v1.>`, every subject of the group's core traffic.
pub open spec fn stream_subjects(group: Seq<char>) -> Seq<char> {
    "gw."@ + group + ".core.v1.>"@
}

/// Builds the subject that client payloads of `group` go to.
pub fn make_queue_subject(group: &str) -> (subject: String)
    ensures
        subject@ == queue_subject(group@),
{
    let mut subject = String::from_str("gw.");
    subject.append(group);
    subject.append(".core.v1.$client");
    subject
}

/// Builds the subject filter that the stream of `group` listens on.
pub fn make_stream_subjects(group: &str) -> (subject: String)
    ensures
        subject@ == stream_subjects(group@),
{
    let mut subject = String::from_str("gw.");
    subject.append(group);
    subject.append(".core.v1.>");
    subject
}

/// What a full stream does with a new message.
#[derive(Debug, Clone, Copy, PartialEq, Eq, Structural)]
pub enum DiscardPolicy {
    /// Drop the oldest message.
    Old,
    /// Refuse the new message.
    New,
}

/// When a stream lets go of a message.
#[derive(Debug, Clone, Copy, PartialEq, Eq, Structural)]
pub enum RetentionPolicy {
    Limits,
    Interest,
    /// As soon as any consumer acknowledges it.
    WorkQueue,
}

#[derive(Debug, Clone, Copy, PartialEq, Eq, Structural)]
pub enum DeliverPolicy {
    All,
    Last,
    New,
}

#[derive(Debug, Clone, Copy, PartialEq, Eq, Structural)]
pub enum AckPolicy {
    /// Every message is acknowledged on its own.
    Explicit,
    /// Acknowledging one message acknowledges all before it.
    All,
}

#[derive(Debug, Clone, Copy, PartialEq, Eq, Structural)]
pub enum ReplayPolicy {
    Instant,
    Original,
}

#[derive(Debug, Clone, PartialEq)]
pub struct StreamSettings {
    pub name: String,
    pub subjects: Vec<String>,
    pub max_messages: i64,
    pub max_messages_per_subject: i64,
    pub max_message_size: i32,
    pub discard: DiscardPolicy,
    pub retention: RetentionPolicy,
}

#[derive(Debug, Clone, PartialEq)]
pub struct ConsumerSettings {
    pub durable_name: String,
    pub deliver_policy: DeliverPolicy,
    pub max_deliver: i64,
    pub max_ack_pending: i64,
    pub ack_policy: AckPolicy,
    pub replay_policy: ReplayPolicy,
    pub filter_subject: String,
    pub ack_wait_secs: u64,
}

/// The settings of the work-queue stream `name` of `group`.
pub fn stream_settings(name: &str, group: &str) -> (s: StreamSettings)
    ensures
        s.name@ == name@,
        s.subjects@.len() == 1,
        s.subjects@[0]@ == stream_subjects(group@),
        s.max_messages == MAX_MESSAGES,
        s.max_messages_per_subject == MAX_MESSAGES_PER_SUBJECT,
        s.max_message_size == MAX_MESSAGE_SIZE,
        s.discard == DiscardPolicy::Old,
        s.retention == RetentionPolicy::WorkQueue,
{
    let mut subjects: Vec<String> = Vec::new();
    subjects.push(make_stream_subjects(group));
    StreamSettings {
        name: String::from_str(name),
        subjects,
        max_messages: MAX_MESSAGES,
        max_messages_per_subject: MAX_MESSAGES_PER_SUBJECT,
        max_message_size: MAX_MESSAGE_SIZE,
        discard: DiscardPolicy::Old,
        retention: RetentionPolicy::WorkQueue,
    }
}

/// The settings of the durable pull consumer `name` for the client payloads
/// of `group`.
pub fn consumer_settings(name: &str, group: &str) -> (c: ConsumerSettings)
    ensures
        c.durable_name@ == name@,
        c.deliver_policy == DeliverPolicy::All,
        c.max_deliver == MAX_DELIVER,
        c.max_ack_pending == MAX_ACK_PENDING,
        c.ack_policy == AckPolicy::Explicit,
        c.replay_policy == ReplayPolicy::Instant,
        c.filter_subject@ == queue_subject(group@),
        c.ack_wait_secs == ACK_WAIT_SECS,
{
    ConsumerSettings {
        durable_name: String::from_str(name),
        deliver_policy: DeliverPolicy::All,
        max_deliver: MAX_DELIVER,
        max_ack_pending: MAX_ACK_PENDING,
        ack_policy: AckPolicy::Explicit,
        replay_policy: ReplayPolicy::Instant,
        filter_subject: make_queue_subject(group),
        ack_wait_secs: ACK_WAIT_SECS,
    }
}

} // verus!
