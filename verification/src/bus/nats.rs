//! The envelope published on the durable work queue.

use crate::context::ConnectionContext;
use vstd::prelude::*;

verus! {

/// A client payload on its way to a worker.
#[derive(Debug, Clone, PartialEq)]
pub struct ClientMessage {
    /// The gateway that received the payload. For diagnosis only.
    pub instance_id: String,
    pub connection_id: String,
    pub endpoint: String,
    pub context: ConnectionContext,
    pub message: String,
}

/// Identity and age of an envelope.
#[derive(Debug, Clone, PartialEq)]
pub struct MessageMeta {
    pub id: String,
    pub timestamp: String,
}

/// An envelope: bookkeeping and payload.
#[derive(Debug, Clone, PartialEq)]
pub struct Message<T> {
    pub meta: MessageMeta,
    pub data: T,
}

pub ghost struct ClientMessageView {
    pub instance_id: Seq<char>,
    pub connection_id: Seq<char>,
    pub endpoint: Seq<char>,
    pub context: Option<Map<String, serde_json::Value>>,
    pub message: Seq<char>,
}

impl View for ClientMessage {
    type V = ClientMessageView;

    open spec fn view(&self) -> ClientMessageView {
        ClientMessageView {
            instance_id: self.instance_id@,
            connection_id: self.connection_id@,
            endpoint: self.endpoint@,
            context: self.context@,
            message: self.message@,
        }
    }
}

pub ghost struct EnvelopeView {
    pub id: Seq<char>,
    pub timestamp: Seq<char>,
    pub data: ClientMessageView,
}

impl View for Message<ClientMessage> {
    type V = EnvelopeView;

    open spec fn view(&self) -> EnvelopeView {
        EnvelopeView { id: self.meta.id@, timestamp: self.meta.timestamp@, data: self.data@ }
    }
}

} // verus!
