//! The envelope published on the pub/sub bus between gateway instances.

use vstd::prelude::*;

verus! {

/// A server-originated instruction for the instance that receives it.
#[derive(Debug, Clone, PartialEq)]
pub enum Message {
    /// Deliver `message` to local sessions: to all of them, or only to those
    /// that connected on `endpoint`.
    SBroadcast { endpoint: Option<String>, time: String, message: String },
    /// Deliver `message` to the session of `connection`.
    S2CMessage { connection: String, time: String, message: String },
    /// Close the session of `connection`, giving `reason`.
    SDisconnect { connection: String, time: String, reason: String },
}

/// What a [`Message`] holds, as mathematical values.
pub ghost enum MessageView {
    SBroadcast { endpoint: Option<Seq<char>>, time: Seq<char>, message: Seq<char> },
    S2CMessage { connection: Seq<char>, time: Seq<char>, message: Seq<char> },
    SDisconnect { connection: Seq<char>, time: Seq<char>, reason: Seq<char> },
}

/// The characters of an optional string.
pub open spec fn opt_view(s: Option<String>) -> Option<Seq<char>> {
    match s {
        Some(v) => Some(v@),
        None => None,
    }
}

impl View for Message {
    type V = MessageView;

    open spec fn view(&self) -> MessageView {
        match *self {
            Message::SBroadcast { endpoint, time, message } => MessageView::SBroadcast {
                endpoint: opt_view(endpoint),
                time: time@,
                message: message@,
            },
            Message::S2CMessage { connection, time, message } => MessageView::S2CMessage {
                connection: connection@,
                time: time@,
                message: message@,
            },
            Message::SDisconnect { connection, time, reason } => MessageView::SDisconnect {
                connection: connection@,
                time: time@,
                reason: reason@,
            },
        }
    }
}

} // verus!
