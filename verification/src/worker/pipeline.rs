//! What a worker does with one envelope from the queue.
//!
//! The embedding program pulls envelopes, makes the HTTP calls and settles
//! each envelope with the queue; the decisions in between are made here.

use crate::bus::nats::{ClientMessage, EnvelopeView, Message};
use crate::error::{Failure, FailureView};
use crate::http::{clone_headers, headers_view, HttpOutcome, HttpPost};
use crate::worker::config::{Config, DestinationRoute, EngineMode, RulesEngineRoute};
use crate::worker::logger::{Event, EventView};
use crate::worker::matching::{
    decides, first_regex_matches, none_before, RegexCache, Verdict,
};
use crate::worker::routes::{
    ForwardRequest, ForwardRequestView, RulesEngineRequest, RulesEngineRequestView,
    RulesEngineResponse,
};
use vstd::prelude::*;

verus! {

/// How an envelope is settled with the queue.
#[derive(Debug, Clone, Copy, PartialEq, Eq, Structural)]
pub enum Settlement {
    /// Done with it: the queue removes the envelope.
    Ack,
    /// Not done: the queue delivers the envelope again, up to its limit.
    Nack,
}

/// What to do next with an envelope.
#[derive(Debug, Clone, PartialEq)]
pub enum Step {
    /// No rule matched: record the drop and acknowledge.
    Drop(Event),
    /// This delivery failed: record why and refuse the envelope.
    Reject(Failure),
    /// Ask the rules engine where the payload goes.
    AskRulesEngine(HttpPost<RulesEngineRequest>),
    /// Forward the payload to its destination.
    Forward(HttpPost<ForwardRequest>),
}

/// The body that forwards the payload of `envelope`.
pub open spec fn forward_body(envelope: EnvelopeView) -> ForwardRequestView {
    ForwardRequestView {
        instance_id: envelope.data.instance_id,
        connection_id: envelope.data.connection_id,
        endpoint: envelope.data.endpoint,
        time: envelope.timestamp,
        context: envelope.data.context,
        message: envelope.data.message,
    }
}

/// The body that asks the rules engine about the payload of `envelope`.
pub open spec fn rules_engine_body(group: Seq<char>, envelope: EnvelopeView) -> RulesEngineRequestView {
    RulesEngineRequestView {
        instance_id: envelope.data.instance_id,
        group_id: Some(group),
        endpoint: envelope.data.endpoint,
        connection_id: envelope.data.connection_id,
        time: envelope.timestamp,
        context: envelope.data.context,
        message: envelope.data.message,
    }
}

fn forward_request(msg: &Message<ClientMessage>) -> (body: ForwardRequest)
    ensures
        body@ == forward_body(msg@),
{
    ForwardRequest {
        instance_id: msg.data.instance_id.clone(),
        connection_id: msg.data.connection_id.clone(),
        endpoint: msg.data.endpoint.clone(),
        time: msg.meta.timestamp.clone(),
        context: msg.data.context.duplicate(),
        message: msg.data.message.clone(),
    }
}

/// The call that forwards the payload of `msg` to the destination of the
/// rule that matched it.
pub fn handle_nats_message_regex_mode(
    msg: &Message<ClientMessage>,
    destination_route: &DestinationRoute,
) -> (post: HttpPost<ForwardRequest>)
    ensures
        post.endpoint@ == destination_route.endpoint@,
        headers_view(post.headers@) == headers_view(destination_route.headers@),
        post.body@ == forward_body(msg@),
{
    HttpPost {
        endpoint: destination_route.endpoint.clone(),
        headers: clone_headers(&destination_route.headers),
        body: forward_request(msg),
    }
}

/// The call that asks the rules engine where the payload of `msg` goes.
pub fn handle_nats_message_dss_mode(
    group: &String,
    msg: &Message<ClientMessage>,
    rules_engine_route: &RulesEngineRoute,
) -> (post: HttpPost<RulesEngineRequest>)
    ensures
        post.endpoint@ == rules_engine_route.endpoint@,
        headers_view(post.headers@) == headers_view(rules_engine_route.headers@),
        post.body@ == rules_engine_body(group@, msg@),
{
    HttpPost {
        endpoint: rules_engine_route.endpoint.clone(),
        headers: clone_headers(&rules_engine_route.headers),
        body: RulesEngineRequest {
            instance_id: msg.data.instance_id.clone(),
            group_id: Some(group.clone()),
            endpoint: msg.data.endpoint.clone(),
            connection_id: msg.data.connection_id.clone(),
            time: msg.meta.timestamp.clone(),
            context: msg.data.context.duplicate(),
            message: msg.data.message.clone(),
        },
    }
}

/// The rules engine has been asked. With a 200 and a readable answer the
/// payload goes to the destination named there, under the headers named
/// there. `body` is the parsed answer, or why it could not be read; it counts
/// only beside a 200.
pub fn resolve_destination(
    msg: &Message<ClientMessage>,
    outcome: &HttpOutcome,
    body: Result<RulesEngineResponse, String>,
) -> (r: Result<HttpPost<ForwardRequest>, Failure>)
    ensures
        match r {
            Ok(post) => outcome.accepted() && body is Ok && {
                let answer = body->Ok_0;
                &&& post.endpoint@ == answer.endpoint@
                &&& headers_view(post.headers@) == headers_view(answer.headers@)
                &&& post.body@ == forward_body(msg@)
            },
            Err(e) => e@ is RulesEngineRoute && Some(e@.details()) == if outcome.accepted() {
                match body {
                    Ok(_) => None,
                    Err(why) => Some(why@),
                }
            } else {
                outcome.complaint("rules engine route error code "@)
            },
        },
{
    match outcome.complain("rules engine route error code ") {
        Some(text) => Err(Failure::RulesEngineRoute(text)),
        None => match body {
            Ok(answer) => Ok(
                HttpPost {
                    endpoint: answer.endpoint,
                    headers: answer.headers,
                    body: forward_request(msg),
                },
            ),
            Err(why) => Err(Failure::RulesEngineRoute(why)),
        },
    }
}

/// The destination has been called: only a 200 counts as delivered.
pub fn forwarded(outcome: &HttpOutcome) -> (r: Result<(), Failure>)
    ensures
        match r {
            Ok(_) => outcome.accepted(),
            Err(e) => e@ is ForwardRoute && Some(e@.details()) == outcome.complaint(
                "forward route error code "@,
            ),
        },
{
    match outcome.complain("forward route error code ") {
        Some(text) => Err(Failure::ForwardRoute(text)),
        None => Ok(()),
    }
}

/// How to settle an envelope whose handling ended with `result`: success is
/// acknowledged, anything else is refused so that the queue delivers again.
pub fn settle(result: &Result<(), Failure>) -> (s: Settlement)
    ensures
        s == if result is Ok {
            Settlement::Ack
        } else {
            Settlement::Nack
        },
{
    match result {
        Ok(_) => Settlement::Ack,
        Err(_) => Settlement::Nack,
    }
}

/// How to settle after `step`, where the step ends the handling.
pub open spec fn settlement_of(step: Step) -> Option<Settlement> {
    match step {
        Step::Drop(_) => Some(Settlement::Ack),
        Step::Reject(_) => Some(Settlement::Nack),
        _ => None,
    }
}

/// How to settle after `step`, where the step ends the handling.
pub fn settlement(step: &Step) -> (s: Option<Settlement>)
    ensures
        s == settlement_of(*step),
{
    match step {
        Step::Drop(_) => Some(Settlement::Ack),
        Step::Reject(_) => Some(Settlement::Nack),
        _ => None,
    }
}

/// A payload that cannot be decoded will never be: it is acknowledged, so
/// that the queue drops it, and the reason is recorded.
pub fn undecodable(why: String) -> (r: (Settlement, Failure))
    ensures
        r.0 == Settlement::Ack,
        r.1@ == FailureView::Queue(why@),
{
    (Settlement::Ack, Failure::Queue(why))
}

/// Decides what to do with an envelope. In rules-engine mode the engine is
/// asked. In regex mode the first matching rule names the destination; with
/// no match the payload is dropped, and a pattern that cannot be used
/// refuses the envelope.
pub fn handle_nats_message(config: &Config, cache: &mut RegexCache, msg: &Message<ClientMessage>) -> (step:
    Step)
    ensures
        match config.engine_mode {
            EngineMode::Dss { rules_engine } => step matches Step::AskRulesEngine(post) && {
                &&& post.endpoint@ == rules_engine.endpoint@
                &&& headers_view(post.headers@) == headers_view(rules_engine.headers@)
                &&& post.body@ == rules_engine_body(config.group_id@, msg@)
            },
            EngineMode::Regex { rules } => match step {
                Step::Forward(post) => exists|i: int|
                    #![trigger rules@[i]]
                    {
                        &&& decides(rules@, i, msg.data.message@, Verdict::Matches)
                        &&& post.endpoint@ == rules@[i].route.endpoint@
                        &&& headers_view(post.headers@) == headers_view(rules@[i].route.headers@)
                        &&& post.body@ == forward_body(msg@)
                    },
                Step::Drop(event) => {
                    &&& none_before(rules@, rules@.len() as int, msg.data.message@)
                    &&& event@ == (EventView::DroppedMessageNoMatch {
                        connection: msg.data.connection_id@,
                    })
                },
                Step::Reject(e) => e@ is InvalidRegex && exists|i: int|
                    #![trigger rules@[i]]
                    decides(rules@, i, msg.data.message@, Verdict::Invalid),
                Step::AskRulesEngine(_) => false,
            },
        },
{
    match &config.engine_mode {
        EngineMode::Dss { rules_engine } => Step::AskRulesEngine(
            handle_nats_message_dss_mode(&config.group_id, msg, rules_engine),
        ),
        EngineMode::Regex { rules } => {
            match first_regex_matches(rules, cache, msg) {
                Ok(Some(route)) => Step::Forward(handle_nats_message_regex_mode(msg, route)),
                Ok(None) => Step::Drop(
                    Event::DroppedMessageNoMatch { connection: msg.data.connection_id.clone() },
                ),
                Err(e) => Step::Reject(e),
            }
        },
    }
}

} // verus!
