//! Commands exchanged between sessions, the ingress surface and the server.

use crate::bus::redis::{opt_view, Message, MessageView};
use crate::context::ConnectionContext;
use vstd::prelude::*;

verus! {

/// What the instance router hands to a local session.
#[derive(Debug, Clone, PartialEq)]
pub enum WsMessage {
    /// Write `message` to the client as a text frame.
    Message { endpoint: String, message: String },
    /// Close the session with a policy-violation code and this reason.
    Disconnect(String),
}

pub ghost enum WsMessageView {
    Message { endpoint: Seq<char>, message: Seq<char> },
    Disconnect(Seq<char>),
}

impl View for WsMessage {
    type V = WsMessageView;

    open spec fn view(&self) -> WsMessageView {
        match *self {
            WsMessage::Message { endpoint, message } => WsMessageView::Message {
                endpoint: endpoint@,
                message: message@,
            },
            WsMessage::Disconnect(reason) => WsMessageView::Disconnect(reason@),
        }
    }
}

/// A session announces itself to the server.
#[derive(Debug, Clone, PartialEq)]
pub struct Connect {
    pub connection: String,
    pub endpoint: String,
    pub time: String,
}

/// A session leaves.
#[derive(Debug, Clone, PartialEq)]
pub struct Disconnect {
    pub connection: String,
    pub endpoint: String,
    pub time: String,
}

/// A session has heard from its client.
#[derive(Debug, Clone, PartialEq)]
pub struct Heartbeat {
    pub connection: String,
    pub time: String,
}

/// A text payload that a client sent.
#[derive(Debug, Clone, PartialEq)]
pub struct ClientMessage {
    pub connection: String,
    pub endpoint: String,
    pub time: String,
    pub context: ConnectionContext,
    pub message: String,
}

/// A payload for one connection, wherever in the cluster it lives.
#[derive(Debug, Clone, PartialEq)]
pub struct ServerMessage {
    pub connection: String,
    pub time: String,
    pub message: String,
}

/// A payload for every connection of the group, or for those that connected
/// on `endpoint`.
#[derive(Debug, Clone, PartialEq)]
pub struct BroadcastServerMessage {
    pub endpoint: Option<String>,
    pub time: String,
    pub message: String,
}

pub ghost struct BroadcastView {
    pub endpoint: Option<Seq<char>>,
    pub time: Seq<char>,
    pub message: Seq<char>,
}

impl View for BroadcastServerMessage {
    type V = BroadcastView;

    open spec fn view(&self) -> BroadcastView {
        BroadcastView {
            endpoint: opt_view(self.endpoint),
            time: self.time@,
            message: self.message@,
        }
    }
}

/// A request to close one connection, wherever in the cluster it lives.
#[derive(Debug, Clone, PartialEq)]
pub struct ServerDisconnect {
    pub connection: String,
    pub time: String,
    pub reason: String,
}

impl ServerMessage {
    /// The bus envelope that carries this message to the owning instance.
    pub fn into(self) -> (m: Message)
        ensures
            m@ == (MessageView::S2CMessage {
                connection: self.connection@,
                time: self.time@,
                message: self.message@,
            }),
    {
        Message::S2CMessage { connection: self.connection, time: self.time, message: self.message }
    }
}

impl BroadcastServerMessage {
    /// The bus envelope that carries this broadcast to every instance.
    pub fn into(self) -> (m: Message)
        ensures
            m@ == (MessageView::SBroadcast {
                endpoint: opt_view(self.endpoint),
                time: self.time@,
                message: self.message@,
            }),
    {
        Message::SBroadcast { endpoint: self.endpoint, time: self.time, message: self.message }
    }
}

impl ServerDisconnect {
    /// The bus envelope that carries this request to the owning instance.
    pub fn into(self) -> (m: Message)
        ensures
            m@ == (MessageView::SDisconnect {
                connection: self.connection@,
                time: self.time@,
                reason: self.reason@,
            }),
    {
        Message::SDisconnect { connection: self.connection, time: self.time, reason: self.reason }
    }
}

} // verus!
