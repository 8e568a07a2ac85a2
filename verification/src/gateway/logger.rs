//! What a gateway records.

use crate::bus::redis::{Message, MessageView};
use vstd::prelude::*;

verus! {

#[derive(Debug, Clone, PartialEq)]
pub enum Event {
    Error { err: String },
    Startup { message: String },
    Connect { connection: String },
    Disconnect { connection: String },
    ServerDisconnect { connection: String, reason: String },
    ClientMessage { connection: String },
    ServerMessageEnqueue { connection: String },
    ServerMessagePost { connection: String },
    ServerBroadcastMessageEnqueue,
    ServerBroadcastMessagePost,
    AuthRouteResponse { connection: String, response: u16 },
    ConnectRouteResponse { connection: String, response: u16 },
    DisconnectRouteResponse { connection: String, response: u16 },
}

pub ghost enum EventView {
    Error { err: Seq<char> },
    Startup { message: Seq<char> },
    Connect { connection: Seq<char> },
    Disconnect { connection: Seq<char> },
    ServerDisconnect { connection: Seq<char>, reason: Seq<char> },
    ClientMessage { connection: Seq<char> },
    ServerMessageEnqueue { connection: Seq<char> },
    ServerMessagePost { connection: Seq<char> },
    ServerBroadcastMessageEnqueue,
    ServerBroadcastMessagePost,
    AuthRouteResponse { connection: Seq<char>, response: u16 },
    ConnectRouteResponse { connection: Seq<char>, response: u16 },
    DisconnectRouteResponse { connection: Seq<char>, response: u16 },
}

impl View for Event {
    type V = EventView;

    open spec fn view(&self) -> EventView {
        match *self {
            Event::Error { err } => EventView::Error { err: err@ },
            Event::Startup { message } => EventView::Startup { message: message@ },
            Event::Connect { connection } => EventView::Connect { connection: connection@ },
            Event::Disconnect { connection } => EventView::Disconnect { connection: connection@ },
            Event::ServerDisconnect { connection, reason } => EventView::ServerDisconnect {
                connection: connection@,
                reason: reason@,
            },
            Event::ClientMessage { connection } => EventView::ClientMessage {
                connection: connection@,
            },
            Event::ServerMessageEnqueue { connection } => EventView::ServerMessageEnqueue {
                connection: connection@,
            },
            Event::ServerMessagePost { connection } => EventView::ServerMessagePost {
                connection: connection@,
            },
            Event::ServerBroadcastMessageEnqueue => EventView::ServerBroadcastMessageEnqueue,
            Event::ServerBroadcastMessagePost => EventView::ServerBroadcastMessagePost,
            Event::AuthRouteResponse { connection, response } => EventView::AuthRouteResponse {
                connection: connection@,
                response,
            },
            Event::ConnectRouteResponse { connection, response } => {
                EventView::ConnectRouteResponse { connection: connection@, response }
            },
            Event::DisconnectRouteResponse { connection, response } => {
                EventView::DisconnectRouteResponse { connection: connection@, response }
            },
        }
    }
}

/// What the router records when `m` arrives from the bus.
pub open spec fn arrival(m: MessageView) -> EventView {
    match m {
        MessageView::SBroadcast { endpoint, time, message } => {
            EventView::ServerBroadcastMessagePost
        },
        MessageView::S2CMessage { connection, time, message } => EventView::ServerMessagePost {
            connection,
        },
        MessageView::SDisconnect { connection, time, reason } => EventView::ServerDisconnect {
            connection,
            reason,
        },
    }
}

/// What the router records when `m` arrives from the bus.
pub fn on_arrival(m: &Message) -> (e: Event)
    ensures
        e@ == arrival(m@),
{
    match m {
        Message::SBroadcast { endpoint, time, message } => Event::ServerBroadcastMessagePost,
        Message::S2CMessage { connection, time, message } => Event::ServerMessagePost {
            connection: connection.clone(),
        },
        Message::SDisconnect { connection, time, reason } => Event::ServerDisconnect {
            connection: connection.clone(),
            reason: reason.clone(),
        },
    }
}

} // verus!
