//! What a worker records.

use vstd::prelude::*;

verus! {

#[derive(Debug, Clone, PartialEq)]
pub enum Event {
    Error { message: String },
    Startup { message: String },
    RulesEngineRouteResponse { connection: String, response: u16 },
    DestinationRouteResponse { connection: String, response: u16 },
    /// A payload was taken from the queue.
    Message { connection: String },
    /// No rule matched the payload; it was dropped.
    DroppedMessageNoMatch { connection: String },
}

pub ghost enum EventView {
    Error { message: Seq<char> },
    Startup { message: Seq<char> },
    RulesEngineRouteResponse { connection: Seq<char>, response: u16 },
    DestinationRouteResponse { connection: Seq<char>, response: u16 },
    Message { connection: Seq<char> },
    DroppedMessageNoMatch { connection: Seq<char> },
}

impl View for Event {
    type V = EventView;

    open spec fn view(&self) -> EventView {
        match *self {
            Event::Error { message } => EventView::Error { message: message@ },
            Event::Startup { message } => EventView::Startup { message: message@ },
            Event::RulesEngineRouteResponse { connection, response } => {
                EventView::RulesEngineRouteResponse { connection: connection@, response }
            },
            Event::DestinationRouteResponse { connection, response } => {
                EventView::DestinationRouteResponse { connection: connection@, response }
            },
            Event::Message { connection } => EventView::Message { connection: connection@ },
            Event::DroppedMessageNoMatch { connection } => EventView::DroppedMessageNoMatch {
                connection: connection@,
            },
        }
    }
}

} // verus!
