//! What holds of a server-originated message on its way through the cluster.

use crate::bus::redis::MessageView;
use crate::gateway::directory::{
    broadcast_topic, instance_topic, owner_of, reverse_key, value_at, KvStore,
};
use crate::gateway::messages::WsMessageView;
use crate::gateway::router::{addressed, fanout, routed, text_for, DeliveryView};
use crate::gateway::sessions::{distinct, has_connection, place_of, SessionView};
use crate::gateway::ws::{ActionView, Event, Phase, SessionState};
use crate::ident::uuid_shaped;
use vstd::prelude::*;

verus! {

/// Different instances of a group listen on different topics.
pub proof fn instance_topic_injective(group: Seq<char>, a: Seq<char>, b: Seq<char>)
    requires
        instance_topic(group, a) == instance_topic(group, b),
    ensures
        a == b,
{
    let prefix = "gw:"@ + group + ":"@;
    let n = prefix.len() as int;
    assert(instance_topic(group, a) =~= prefix + a);
    assert(instance_topic(group, b) =~= prefix + b);
    assert((prefix + a).subrange(n, n + a.len()) =~= a);
    assert((prefix + b).subrange(n, n + b.len()) =~= b);
    assert((prefix + a).len() == n + a.len());
    assert((prefix + b).len() == n + b.len());
}

/// The topic of an instance whose id has UUID shape is not the broadcast
/// topic of its group: an instance listens on exactly one of each.
pub proof fn own_topic_is_not_broadcast(group: Seq<char>, instance: Seq<char>)
    requires
        uuid_shaped(instance),
    ensures
        instance_topic(group, instance) != broadcast_topic(group),
{
    reveal_strlit("gw:");
    reveal_strlit(":");
    reveal_strlit(":broadcast");
    assert(instance_topic(group, instance).len() == 3 + group.len() + 1 + 36);
    assert(broadcast_topic(group).len() == 3 + group.len() + 10);
}

/// Delivery: a message for `connection` that any instance of the group
/// handles while the directory names `owner` for it is published on the topic
/// of `owner` alone; on an instance that holds a session for `connection` the
/// router makes exactly one delivery of it, to that session; and a live
/// session answers that delivery with exactly one text frame holding
/// `message`.
pub proof fn server_message_is_delivered_once(
    store: KvStore,
    group: Seq<char>,
    owner: Seq<char>,
    connection: Seq<char>,
    time: Seq<char>,
    message: Seq<char>,
    now: int,
    sessions: Seq<SessionView>,
    session: SessionState,
    at: int,
    stamp: Seq<char>,
)
    requires
        owner_of(store, group, connection, now) == Some(owner),
        distinct(sessions),
        has_connection(sessions, connection),
        session.phase == Phase::Live,
        session.connection == connection,
    ensures
        value_at(store, reverse_key(group, connection), now) == Some(owner),
        forall|other: Seq<char>|
            instance_topic(group, other) == instance_topic(group, owner) ==> other == owner,
        ({
            let envelope = MessageView::S2CMessage { connection, time, message };
            let endpoint = sessions[place_of(sessions, connection)].endpoint;
            let delivery = DeliveryView {
                connection,
                message: WsMessageView::Message { endpoint, message },
            };
            &&& routed(sessions, envelope) == Ok::<Seq<DeliveryView>, crate::error::FailureView>(
                seq![delivery],
            )
            &&& session.step(Event::Command(delivery.message), at, stamp) == (
                session,
                seq![ActionView::Text(message)],
            )
        }),
{
    assert forall|other: Seq<char>|
        instance_topic(group, other) == instance_topic(group, owner) implies other == owner by {
        instance_topic_injective(group, other, owner);
    }
    let i = place_of(sessions, connection);
    assert(sessions[i].connection == connection);
}

/// An orphaned connection: once the directory names no owner, a message for
/// it is dropped where it was submitted; and an instance that is handed a
/// message for a connection it holds no session for makes no delivery.
pub proof fn message_for_unknown_connection_is_dropped(
    sessions: Seq<SessionView>,
    connection: Seq<char>,
    time: Seq<char>,
    message: Seq<char>,
)
    requires
        !has_connection(sessions, connection),
    ensures
        routed(sessions, MessageView::S2CMessage { connection, time, message }) == Err::<
            Seq<DeliveryView>,
            crate::error::FailureView,
        >(crate::error::FailureView::ConnectionNotFound(connection)),
        routed(sessions, MessageView::SDisconnect { connection, time, reason: message }) == Err::<
            Seq<DeliveryView>,
            crate::error::FailureView,
        >(crate::error::FailureView::ConnectionNotFound(connection)),
{
}

proof fn fanout_unfolds(sessions: Seq<SessionView>, endpoint: Option<Seq<char>>, message: Seq<char>)
    requires
        sessions.len() > 0,
    ensures
        fanout(sessions, endpoint, message) == if addressed(sessions.last(), endpoint) {
            fanout(sessions.drop_last(), endpoint, message).push(
                text_for(sessions.last(), message),
            )
        } else {
            fanout(sessions.drop_last(), endpoint, message)
        },
{
    let pred = |s: SessionView| addressed(s, endpoint);
    let f = |s: SessionView| text_for(s, message);
    reveal(Seq::filter);
    if addressed(sessions.last(), endpoint) {
        assert(sessions.filter(pred) == sessions.drop_last().filter(pred).push(sessions.last()));
        assert(sessions.drop_last().filter(pred).push(sessions.last()).map_values(f)
            =~= sessions.drop_last().filter(pred).map_values(f).push(f(sessions.last())));
    } else {
        assert(sessions.filter(pred) == sessions.drop_last().filter(pred));
    }
}

/// Every delivery of a broadcast goes to an addressed session of the table
/// and carries the broadcast's text under that session's endpoint tag.
pub proof fn broadcast_goes_to_addressed_sessions(
    sessions: Seq<SessionView>,
    endpoint: Option<Seq<char>>,
    message: Seq<char>,
)
    ensures
        fanout(sessions, endpoint, message).len() <= sessions.len(),
        forall|k: int|
            0 <= k < fanout(sessions, endpoint, message).len() ==> exists|i: int|
                0 <= i < sessions.len() && addressed(#[trigger] sessions[i], endpoint) && (
                #[trigger] fanout(sessions, endpoint, message)[k]) == text_for(
                    sessions[i],
                    message,
                ),
    decreases sessions.len(),
{
    let out = fanout(sessions, endpoint, message);
    if sessions.len() == 0 {
        reveal(Seq::filter);
        assert(out =~= Seq::<DeliveryView>::empty());
    } else {
        let earlier = sessions.drop_last();
        let prev = fanout(earlier, endpoint, message);
        fanout_unfolds(sessions, endpoint, message);
        broadcast_goes_to_addressed_sessions(earlier, endpoint, message);
        assert forall|k: int| 0 <= k < out.len() implies exists|i: int|
            0 <= i < sessions.len() && addressed(#[trigger] sessions[i], endpoint) && (
            #[trigger] out[k]) == text_for(sessions[i], message) by {
            if k < prev.len() {
                assert(out[k] == prev[k]);
                let i = choose|i: int|
                    0 <= i < earlier.len() && addressed(#[trigger] earlier[i], endpoint) && prev[k]
                        == text_for(earlier[i], message);
                assert(sessions[i] == earlier[i]);
            } else {
                let i = sessions.len() - 1;
                assert(sessions[i] == sessions.last());
                assert(out[k] == text_for(sessions[i], message));
            }
        }
    }
}

/// Every addressed session of the table gets a delivery of the broadcast.
pub proof fn broadcast_misses_no_addressed_session(
    sessions: Seq<SessionView>,
    endpoint: Option<Seq<char>>,
    message: Seq<char>,
    i: int,
)
    requires
        0 <= i < sessions.len(),
        addressed(sessions[i], endpoint),
    ensures
        fanout(sessions, endpoint, message).contains(text_for(sessions[i], message)),
    decreases sessions.len(),
{
    let out = fanout(sessions, endpoint, message);
    fanout_unfolds(sessions, endpoint, message);
    let prev = fanout(sessions.drop_last(), endpoint, message);
    if i == sessions.len() - 1 {
        assert(out[out.len() - 1] == text_for(sessions[i], message));
    } else {
        broadcast_misses_no_addressed_session(sessions.drop_last(), endpoint, message, i);
        let k = choose|k: int|
            0 <= k < prev.len() && prev[k] == text_for(sessions.drop_last()[i], message);
        assert(out[k] == prev[k]);
    }
}

/// Broadcast fan-out: where no connection id occurs twice among `sessions`,
/// no two deliveries of a broadcast go to the same connection. With
/// `sessions` the tables of all instances of a cluster put together, each
/// session in the cluster gets a broadcast at most once.
pub proof fn broadcast_reaches_each_session_once(
    sessions: Seq<SessionView>,
    endpoint: Option<Seq<char>>,
    message: Seq<char>,
)
    requires
        distinct(sessions),
    ensures
        forall|j: int, k: int|
            #![trigger fanout(sessions, endpoint, message)[j], fanout(sessions, endpoint, message)[k]]
            0 <= j < k < fanout(sessions, endpoint, message).len() ==> fanout(
                sessions,
                endpoint,
                message,
            )[j].connection != fanout(sessions, endpoint, message)[k].connection,
    decreases sessions.len(),
{
    let out = fanout(sessions, endpoint, message);
    if sessions.len() == 0 {
        reveal(Seq::filter);
        assert(out =~= Seq::<DeliveryView>::empty());
    } else {
        let earlier = sessions.drop_last();
        let prev = fanout(earlier, endpoint, message);
        fanout_unfolds(sessions, endpoint, message);
        assert(distinct(earlier)) by {
            assert forall|a: int, b: int|
                0 <= a < earlier.len() && 0 <= b < earlier.len() && #[trigger] earlier[a].connection
                    == #[trigger] earlier[b].connection implies a == b by {
                assert(sessions[a] == earlier[a]);
                assert(sessions[b] == earlier[b]);
            }
        }
        broadcast_reaches_each_session_once(earlier, endpoint, message);
        broadcast_goes_to_addressed_sessions(earlier, endpoint, message);
        assert forall|j: int, k: int| 0 <= j < k < out.len() implies out[j].connection
            != out[k].connection by {
            if k < prev.len() {
                assert(out[j] == prev[j]);
                assert(out[k] == prev[k]);
            } else {
                assert(out[j] == prev[j]);
                let i = choose|i: int|
                    0 <= i < earlier.len() && addressed(#[trigger] earlier[i], endpoint) && prev[j]
                        == text_for(earlier[i], message);
                assert(sessions[i] == earlier[i]);
                assert(out[k] == text_for(sessions.last(), message));
                assert(sessions.last() == sessions[sessions.len() - 1]);
                assert(sessions[i].connection != sessions[sessions.len() - 1].connection);
            }
        }
    }
}

/// The deliveries of a broadcast on two instances together are the
/// deliveries for their tables put together.
pub proof fn broadcast_over_instances(
    first: Seq<SessionView>,
    second: Seq<SessionView>,
    endpoint: Option<Seq<char>>,
    message: Seq<char>,
)
    ensures
        fanout(first, endpoint, message) + fanout(second, endpoint, message) == fanout(
            first + second,
            endpoint,
            message,
        ),
    decreases second.len(),
{
    if second.len() == 0 {
        reveal(Seq::filter);
        assert(first + second =~= first);
        assert(fanout(second, endpoint, message) =~= Seq::<DeliveryView>::empty());
        assert(fanout(first, endpoint, message) + fanout(second, endpoint, message) =~= fanout(
            first,
            endpoint,
            message,
        ));
    } else {
        let all = first + second;
        assert(all.drop_last() =~= first + second.drop_last());
        assert(all.last() == second.last());
        fanout_unfolds(all, endpoint, message);
        fanout_unfolds(second, endpoint, message);
        broadcast_over_instances(first, second.drop_last(), endpoint, message);
        let a = fanout(first, endpoint, message);
        let b = fanout(second.drop_last(), endpoint, message);
        if addressed(second.last(), endpoint) {
            assert(a + b.push(text_for(second.last(), message)) =~= (a + b).push(
                text_for(second.last(), message),
            ));
        }
    }
}

} // verus!
