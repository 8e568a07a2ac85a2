//! What holds of a client payload on its way from the socket to its
//! destination.

use crate::gateway::server::enveloped;
use crate::gateway::lifecycle::{run, Occurrence};
use crate::gateway::ws::{Event, FrameView, Phase, SessionState};
use crate::worker::pipeline::{forward_body, rules_engine_body};
use vstd::prelude::*;

verus! {

/// The text of the frame at `i` of a history of text frames.
pub open spec fn text_at(history: Seq<Occurrence>, i: int) -> Seq<char> {
    history[i].event->Frame_0->Text_0
}

/// Whether every entry of `history` is the arrival of a text frame.
pub open spec fn only_texts(history: Seq<Occurrence>) -> bool {
    forall|i: int|
        0 <= i < history.len() ==> (#[trigger] history[i]).event matches Event::Frame(
            FrameView::Text(_),
        )
}

/// Ordering at the session: a live session turns the text frames of its
/// client into client messages one for one and in the order of arrival,
/// each with the frame's text, and stays as it is.
pub proof fn text_frames_keep_their_order(session: SessionState, history: Seq<Occurrence>)
    requires
        session.phase == Phase::Live,
        only_texts(history),
    ensures
        run(session, history).0 == session,
        run(session, history).1.len() == history.len(),
        forall|i: int|
            0 <= i < history.len() ==> (#[trigger] run(session, history).1[i])
                == session.client_command(history[i].time, text_at(history, i)),
    decreases history.len(),
{
    if history.len() > 0 {
        let earlier = history.drop_last();
        assert(only_texts(earlier)) by {
            assert forall|i: int| 0 <= i < earlier.len() implies (
            #[trigger] earlier[i]).event matches Event::Frame(FrameView::Text(_)) by {
                assert(earlier[i] == history[i]);
            }
        }
        text_frames_keep_their_order(session, earlier);
        let last = history.last();
        assert(last == history[history.len() - 1]);
        let after = session.step(last.event, last.now, last.time);
        assert(after.1 =~= seq![
            session.client_command(last.time, text_at(history, history.len() - 1)),
        ]);
        assert forall|i: int| 0 <= i < history.len() implies (#[trigger] run(
            session,
            history,
        ).1[i]) == session.client_command(history[i].time, text_at(history, i)) by {
            if i < earlier.len() {
                assert(run(session, history).1[i] == run(session, earlier).1[i]);
                assert(earlier[i] == history[i]);
            }
        }
    }
}

/// The payload on its way: what a session emits for a text frame, put into
/// an envelope by its server and turned into a request by a worker, still
/// holds the session's connection id, endpoint tag and context and the
/// frame's text, whether the request goes to a destination or to the rules
/// engine.
pub proof fn payload_is_carried_unchanged(
    session: SessionState,
    text: Seq<char>,
    time: Seq<char>,
    instance: Seq<char>,
    group: Seq<char>,
    id: Seq<char>,
    timestamp: Seq<char>,
)
    ensures
        ({
            let command = session.client_command(time, text)->Emit_0;
            let envelope = enveloped(
                instance,
                command->ClientMessage_connection,
                command->ClientMessage_endpoint,
                command->ClientMessage_context,
                command->ClientMessage_message,
                id,
                timestamp,
            );
            let forward = forward_body(envelope);
            let ask = rules_engine_body(group, envelope);
            &&& forward.connection_id == session.connection
            &&& forward.endpoint == session.endpoint
            &&& forward.context == session.context
            &&& forward.message == text
            &&& forward.instance_id == instance
            &&& forward.time == timestamp
            &&& ask.connection_id == session.connection
            &&& ask.endpoint == session.endpoint
            &&& ask.context == session.context
            &&& ask.message == text
        }),
{
}

} // verus!
