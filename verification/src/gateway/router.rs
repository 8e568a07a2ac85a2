//! The instance router: what to do with a message that arrived on one of the
//! two bus topics this instance is subscribed to.

use crate::bus::redis::{Message, MessageView};
use crate::error::{Failure, FailureView};
use crate::gateway::messages::{WsMessage, WsMessageView};
use crate::gateway::sessions::{has_connection, place_of, SessionTable, SessionView};
use vstd::prelude::*;

verus! {

/// Seconds to wait before reading the bus again after a failed read or a
/// message that could not be understood.
pub const RETRY_AFTER_SECS: u64 = 5;

/// Seconds to wait before the next read after `failure`. A message for a
/// connection without a session here is dropped and the router goes on at
/// once; after anything else it backs off.
pub fn pause_after(failure: &Failure) -> (secs: u64)
    ensures
        secs == if failure@ is ConnectionNotFound {
            0
        } else {
            RETRY_AFTER_SECS
        },
{
    match failure {
        Failure::ConnectionNotFound(_) => 0,
        _ => RETRY_AFTER_SECS,
    }
}

/// An instruction to hand `message` to the local session of `connection`.
#[derive(Debug, Clone, PartialEq)]
pub struct Delivery {
    pub connection: String,
    pub message: WsMessage,
}

pub ghost struct DeliveryView {
    pub connection: Seq<char>,
    pub message: WsMessageView,
}

impl View for Delivery {
    type V = DeliveryView;

    open spec fn view(&self) -> DeliveryView {
        DeliveryView { connection: self.connection@, message: self.message@ }
    }
}

/// The deliveries in `v`, as mathematical values.
pub open spec fn deliveries_view(v: Seq<Delivery>) -> Seq<DeliveryView> {
    v.map_values(|d: Delivery| d@)
}

/// Whether a broadcast restricted to `endpoint` (or unrestricted) is meant for
/// the session `s`.
pub open spec fn addressed(s: SessionView, endpoint: Option<Seq<char>>) -> bool {
    endpoint is None || endpoint == Some(s.endpoint)
}

/// The text delivery of `message` to the session `s`, under that session's
/// own endpoint tag.
pub open spec fn text_for(s: SessionView, message: Seq<char>) -> DeliveryView {
    DeliveryView {
        connection: s.connection,
        message: WsMessageView::Message { endpoint: s.endpoint, message },
    }
}

/// One text delivery for each addressed session, in table order.
pub open spec fn fanout(
    sessions: Seq<SessionView>,
    endpoint: Option<Seq<char>>,
    message: Seq<char>,
) -> Seq<DeliveryView> {
    sessions.filter(|s: SessionView| addressed(s, endpoint)).map_values(
        |s: SessionView| text_for(s, message),
    )
}

/// What the router does with `m` on an instance whose sessions are `sessions`:
/// the deliveries to make, or the connection id that has no session here.
pub open spec fn routed(sessions: Seq<SessionView>, m: MessageView) -> Result<
    Seq<DeliveryView>,
    FailureView,
> {
    match m {
        MessageView::SBroadcast { endpoint, time, message } => Ok(
            fanout(sessions, endpoint, message),
        ),
        MessageView::S2CMessage { connection, time, message } => {
            if has_connection(sessions, connection) {
                Ok(seq![text_for(sessions[place_of(sessions, connection)], message)])
            } else {
                Err(FailureView::ConnectionNotFound(connection))
            }
        },
        MessageView::SDisconnect { connection, time, reason } => {
            if has_connection(sessions, connection) {
                Ok(
                    seq![
                        DeliveryView { connection, message: WsMessageView::Disconnect(reason) },
                    ],
                )
            } else {
                Err(FailureView::ConnectionNotFound(connection))
            }
        },
    }
}

/// The outcome of [`route`], as mathematical values.
pub open spec fn outcome_view(r: Result<Vec<Delivery>, Failure>) -> Result<
    Seq<DeliveryView>,
    FailureView,
> {
    match r {
        Ok(v) => Ok(deliveries_view(v@)),
        Err(e) => Err(e@),
    }
}

proof fn fanout_step(
    sessions: Seq<SessionView>,
    i: int,
    endpoint: Option<Seq<char>>,
    message: Seq<char>,
)
    requires
        0 <= i < sessions.len(),
    ensures
        fanout(sessions.take(i + 1), endpoint, message) == if addressed(sessions[i], endpoint) {
            fanout(sessions.take(i), endpoint, message).push(text_for(sessions[i], message))
        } else {
            fanout(sessions.take(i), endpoint, message)
        },
{
    let pred = |s: SessionView| addressed(s, endpoint);
    let f = |s: SessionView| text_for(s, message);
    let next = sessions.take(i + 1);
    assert(next.drop_last() =~= sessions.take(i));
    assert(next.last() == sessions[i]);
    reveal(Seq::filter);
    if addressed(sessions[i], endpoint) {
        assert(next.filter(pred) == sessions.take(i).filter(pred).push(sessions[i]));
        assert(sessions.take(i).filter(pred).push(sessions[i]).map_values(f)
            =~= sessions.take(i).filter(pred).map_values(f).push(f(sessions[i])));
    } else {
        assert(next.filter(pred) == sessions.take(i).filter(pred));
    }
}

/// The text deliveries of a broadcast: `message` for every session, or for
/// those that connected on `endpoint`, each under its own endpoint tag.
pub fn broadcast(sessions: &SessionTable, endpoint: &Option<String>, message: &String) -> (out:
    Vec<Delivery>)
    ensures
        deliveries_view(out@) == fanout(
            sessions@,
            crate::bus::redis::opt_view(*endpoint),
            message@,
        ),
{
    let mut out: Vec<Delivery> = Vec::new();
    let ghost target = crate::bus::redis::opt_view(*endpoint);
    let n = sessions.len();
    let mut i: usize = 0;
    proof {
        assert(sessions@.take(0) =~= Seq::<SessionView>::empty());
        reveal(Seq::filter);
        assert(deliveries_view(out@) =~= fanout(sessions@.take(0), target, message@));
    }
    while i < n
        invariant
            i <= n,
            n == sessions@.len(),
            target == crate::bus::redis::opt_view(*endpoint),
            deliveries_view(out@) == fanout(sessions@.take(i as int), target, message@),
        decreases n - i,
    {
        let s = sessions.get(i);
        let wanted = match endpoint {
            Some(e) => s.endpoint == *e,
            None => true,
        };
        proof {
            fanout_step(sessions@, i as int, target, message@);
            assert(wanted == addressed(sessions@[i as int], target));
        }
        if wanted {
            let d = Delivery {
                connection: s.connection.clone(),
                message: WsMessage::Message {
                    endpoint: s.endpoint.clone(),
                    message: message.clone(),
                },
            };
            let ghost before = out@;
            out.push(d);
            assert(deliveries_view(out@) =~= deliveries_view(before).push(d@));
        }
        i += 1;
    }
    assert(sessions@.take(n as int) =~= sessions@);
    out
}

/// Dispatches a bus message against the local sessions.
///
/// A message for one connection yields exactly one delivery when that
/// connection has a session here, and the connection id as an error when it
/// has none. A broadcast yields one delivery per addressed session.
pub fn route(sessions: &SessionTable, message: &Message) -> (r: Result<Vec<Delivery>, Failure>)
    ensures
        outcome_view(r) == routed(sessions@, message@),
{
    match message {
        Message::SBroadcast { endpoint, time, message } => Ok(broadcast(sessions, endpoint, message)),
        Message::S2CMessage { connection, time, message } => {
            match sessions.find(connection) {
                Some(i) => {
                    let s = sessions.get(i);
                    let d = Delivery {
                        connection: s.connection.clone(),
                        message: WsMessage::Message {
                            endpoint: s.endpoint.clone(),
                            message: message.clone(),
                        },
                    };
                    let mut out: Vec<Delivery> = Vec::new();
                    out.push(d);
                    assert(deliveries_view(out@) =~= seq![d@]);
                    Ok(out)
                },
                None => Err(Failure::ConnectionNotFound(connection.clone())),
            }
        },
        Message::SDisconnect { connection, time, reason } => {
            match sessions.find(connection) {
                Some(i) => {
                    let d = Delivery {
                        connection: connection.clone(),
                        message: WsMessage::Disconnect(reason.clone()),
                    };
                    let mut out: Vec<Delivery> = Vec::new();
                    out.push(d);
                    assert(deliveries_view(out@) =~= seq![d@]);
                    Ok(out)
                },
                None => Err(Failure::ConnectionNotFound(connection.clone())),
            }
        },
    }
}

} // verus!
