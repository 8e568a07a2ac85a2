//! The gateway server: the one place that changes the session table, and
//! that decides what goes to the directory, the bus, the queue and the hooks.
//!
//! Every handler comes in two halves. The first half takes a command, updates
//! the table and says what to send. The second half takes what came back and
//! gives the reply for the caller.

use crate::bus::nats;
use crate::bus::nats::{ClientMessageView, EnvelopeView};
use crate::bus::redis::{opt_view, Message, MessageView};
use crate::error::{Failure, FailureView};
use crate::gateway::config::{CommsMode, Config};
use crate::gateway::directory::{
    broadcast_topic, claim, claim_commands, commands_view, forward_key, instance_topic,
    make_broadcast_topic, make_forward_key, make_instance_topic, make_reverse_key, owner_query,
    refresh, refresh_commands, release, release_commands, reverse_key, KvCommand, KvCommandView,
};
use crate::gateway::messages::{
    BroadcastServerMessage, ClientMessage, Connect, Disconnect, Heartbeat, ServerDisconnect,
    ServerMessage,
};
use crate::gateway::routes::{ConnectRequest, DisconnectRequest, LifecycleView};
use crate::gateway::sessions::{
    has_connection, with_session, without_session, SessionTable, SessionView,
};
use crate::http::{clone_headers, headers_view, HttpOutcome, HttpPost};
use crate::ident::{fresh_id, now_rfc3339, uuid_shaped};
use crate::queue::{make_queue_subject, queue_subject};
use vstd::prelude::*;
use vstd::string::*;

verus! {

/// The status that a failed handler reports to its caller.
pub const STATUS_FAILED: u16 = 500;

/// `Ok` for success, the failure status otherwise.
pub fn reply_for(succeeded: bool) -> (r: Result<(), u16>)
    ensures
        r == if succeeded {
            Ok::<(), u16>(())
        } else {
            Err::<(), u16>(STATUS_FAILED)
        },
{
    if succeeded {
        Ok(())
    } else {
        Err(STATUS_FAILED)
    }
}

/// A publication on a bus topic.
#[derive(Debug, Clone, PartialEq)]
pub struct BusPublish {
    pub channel: String,
    pub message: Message,
}

/// A publication on the work queue, which must land in `expected_stream`.
#[derive(Debug, Clone, PartialEq)]
pub struct QueuePublish {
    pub subject: String,
    pub expected_stream: String,
    pub envelope: nats::Message<nats::ClientMessage>,
}

/// A bus message that waits for the directory to name its target.
#[derive(Debug, Clone, PartialEq)]
pub struct OwnerLookup {
    pub query: KvCommand,
    pub envelope: Message,
}

/// What follows a `Connect`: the claim to send, then the hook to call.
#[derive(Debug, Clone, PartialEq)]
pub struct ConnectPlan {
    pub claim: Vec<KvCommand>,
    pub hook: Option<HttpPost<ConnectRequest>>,
}

impl ConnectPlan {
    /// The hook to call once the claim has run: the planned one after a
    /// claim that went through, none after one that failed.
    pub fn hook_after(self, claimed: bool) -> (r: Option<HttpPost<ConnectRequest>>)
        ensures
            r == if claimed {
                self.hook
            } else {
                None
            },
    {
        if claimed {
            self.hook
        } else {
            None
        }
    }
}

/// What follows a `Disconnect`: the release to send, then the hook to call.
#[derive(Debug, Clone, PartialEq)]
pub struct DisconnectPlan {
    pub release: Vec<KvCommand>,
    pub hook: Option<HttpPost<DisconnectRequest>>,
}

/// How a `Connect` ended.
#[derive(Debug, PartialEq)]
pub struct ConnectVerdict {
    /// The acknowledgement for the session.
    pub reply: Result<(), u16>,
    /// What to send to the directory to undo the claim.
    pub rollback: Vec<KvCommand>,
    /// What to record, where the hook was called and did not accept.
    pub error: Option<Failure>,
}

/// How a `Disconnect` ended.
#[derive(Debug, PartialEq)]
pub struct DisconnectVerdict {
    pub reply: Result<(), u16>,
    /// What to record, where the hook was called and did not answer with 200.
    pub error: Option<Failure>,
}

/// The connections of this instance, for the periodic report.
#[derive(Debug, Clone, PartialEq)]
pub struct Stats {
    pub count: usize,
    pub connections: Vec<String>,
}

/// The envelope that the server of `instance` puts on the queue for a client
/// message, under the given id and timestamp.
pub open spec fn enveloped(
    instance: Seq<char>,
    connection: Seq<char>,
    endpoint: Seq<char>,
    context: Option<Map<String, serde_json::Value>>,
    message: Seq<char>,
    id: Seq<char>,
    timestamp: Seq<char>,
) -> EnvelopeView {
    EnvelopeView {
        id,
        timestamp,
        data: ClientMessageView {
            instance_id: instance,
            connection_id: connection,
            endpoint,
            context,
            message,
        },
    }
}

/// Whether a connection is accepted: its claim went through and the connect
/// hook, where one is configured, answered with 200.
pub open spec fn connect_accepted(claimed: bool, hook_configured: bool, hook: Option<HttpOutcome>) -> bool {
    claimed && (!hook_configured || (hook is Some && hook.unwrap().accepted()))
}

/// The error text that a hook's outcome amounts to; none where the hook was
/// not called.
pub open spec fn refusal(hook: Option<HttpOutcome>, prefix: Seq<char>) -> Option<Seq<char>> {
    match hook {
        Some(outcome) => outcome.complaint(prefix),
        None => None,
    }
}

/// The characters of the strings in `v`.
pub open spec fn strings_view(v: Seq<String>) -> Seq<Seq<char>> {
    v.map_values(|s: String| s@)
}

#[derive(Debug, PartialEq)]
pub struct Server {
    config: Config,
    instance: String,
    sessions: SessionTable,
}

impl Server {
    pub closed spec fn config(&self) -> Config {
        self.config
    }

    /// The id of this instance.
    pub closed spec fn instance(&self) -> Seq<char> {
        self.instance@
    }

    /// The id of the group this instance belongs to.
    pub open spec fn group(&self) -> Seq<char> {
        self.config().group_id@
    }

    /// The local sessions, in registration order.
    pub closed spec fn sessions(&self) -> Seq<SessionView> {
        self.sessions@
    }

    /// Same configuration and same instance id.
    pub open spec fn same_identity(&self, other: &Self) -> bool {
        self.config() == other.config() && self.instance() == other.instance()
    }

    /// A server without sessions.
    pub fn new(config: Config, instance: String) -> (s: Self)
        ensures
            s.config() == config,
            s.instance() == instance@,
            s.sessions() == Seq::<SessionView>::empty(),
    {
        Server { config, instance, sessions: SessionTable::new() }
    }

    pub fn session_table(&self) -> (t: &SessionTable)
        ensures
            t@ == self.sessions(),
    {
        &self.sessions
    }

    pub fn instance_id(&self) -> (id: &String)
        ensures
            id@ == self.instance(),
    {
        &self.instance
    }

    pub fn configuration(&self) -> (c: &Config)
        ensures
            *c == self.config(),
    {
        &self.config
    }

    /// The forward key of `connection` on this instance.
    pub fn make_key(&self, connection: &str) -> (key: String)
        ensures
            key@ == forward_key(self.group(), self.instance(), connection@),
    {
        make_forward_key(self.config.group_id.as_str(), self.instance.as_str(), connection)
    }

    /// The reverse key of `connection`.
    pub fn make_reverse_key(&self, connection: &str) -> (key: String)
        ensures
            key@ == reverse_key(self.group(), connection@),
    {
        make_reverse_key(self.config.group_id.as_str(), connection)
    }

    /// The two topics to subscribe to: this instance's own, then the
    /// group's broadcast topic.
    pub fn subscriptions(&self) -> (topics: (String, String))
        ensures
            topics.0@ == instance_topic(self.group(), self.instance()),
            topics.1@ == broadcast_topic(self.group()),
    {
        (
            make_instance_topic(self.config.group_id.as_str(), self.instance.as_str()),
            make_broadcast_topic(self.config.group_id.as_str()),
        )
    }

    /// The number of local sessions and their connection ids.
    pub fn stats(&self) -> (st: Stats)
        ensures
            st.count == self.sessions().len(),
            strings_view(st.connections@) == self.sessions().map_values(
                |s: SessionView| s.connection,
            ),
    {
        let mut connections: Vec<String> = Vec::new();
        let n = self.sessions.len();
        let mut i: usize = 0;
        while i < n
            invariant
                i <= n,
                n == self.sessions@.len(),
                connections@.len() == i,
                forall|j: int| 0 <= j < i ==> (#[trigger] connections@[j])@ == self.sessions@[j].connection,
            decreases n - i,
        {
            connections.push(self.sessions.get(i).connection.clone());
            i += 1;
        }
        assert(strings_view(connections@) =~= self.sessions().map_values(
            |s: SessionView| s.connection,
        ));
        Stats { count: n, connections }
    }

    /// A session announced itself: it enters the table, and the plan says
    /// what to send to the directory and which hook to call after that.
    pub fn handle_connect(&mut self, msg: &Connect) -> (plan: ConnectPlan)
        ensures
            final(self).same_identity(old(self)),
            final(self).sessions() == with_session(
                old(self).sessions(),
                SessionView { connection: msg.connection@, endpoint: msg.endpoint@ },
            ),
            commands_view(plan.claim@) == claim_commands(
                old(self).group(),
                old(self).instance(),
                msg.connection@,
            ),
            plan.hook is Some <==> old(self).config().routes.connect is Some,
            plan.hook is Some ==> {
                let hook = plan.hook.unwrap();
                let route = old(self).config().routes.connect.unwrap();
                &&& hook.endpoint@ == route.endpoint@
                &&& headers_view(hook.headers@) == headers_view(route.headers@)
                &&& hook.body@ == (LifecycleView {
                    instance_id: old(self).instance(),
                    group_id: old(self).group(),
                    endpoint: msg.endpoint@,
                    connection_id: msg.connection@,
                    time: msg.time@,
                })
            },
    {
        self.sessions.insert(msg.connection.clone(), msg.endpoint.clone());
        let claim = claim(
            self.config.group_id.as_str(),
            self.instance.as_str(),
            msg.connection.as_str(),
        );
        let hook = match &self.config.routes.connect {
            Some(route) => Some(
                HttpPost {
                    endpoint: route.endpoint.clone(),
                    headers: clone_headers(&route.headers),
                    body: ConnectRequest {
                        instance_id: self.instance.clone(),
                        group_id: self.config.group_id.clone(),
                        endpoint: msg.endpoint.clone(),
                        connection_id: msg.connection.clone(),
                        time: msg.time.clone(),
                    },
                },
            ),
            None => None,
        };
        ConnectPlan { claim, hook }
    }

    /// The claim and the hook of a `Connect` have run. `claimed` says whether
    /// the directory took the claim; `hook` is the hook's outcome, or `None`
    /// where it was not called. A refused connection leaves the table, and the
    /// verdict holds the release that undoes its claim.
    pub fn settle_connect(&mut self, msg: &Connect, claimed: bool, hook: Option<HttpOutcome>) -> (v:
        ConnectVerdict)
        ensures
            final(self).same_identity(old(self)),
            connect_accepted(claimed, old(self).config().routes.connect is Some, hook) ==> {
                &&& v.reply == Ok::<(), u16>(())
                &&& final(self).sessions() == old(self).sessions()
                &&& v.rollback@.len() == 0
                &&& v.error is None
            },
            !connect_accepted(claimed, old(self).config().routes.connect is Some, hook) ==> {
                &&& v.reply == Err::<(), u16>(STATUS_FAILED)
                &&& final(self).sessions() == without_session(
                    old(self).sessions(),
                    msg.connection@,
                )
                &&& commands_view(v.rollback@) == if claimed {
                    release_commands(old(self).group(), old(self).instance(), msg.connection@)
                } else {
                    Seq::<KvCommandView>::empty()
                }
                &&& match v.error {
                    Some(e) => claimed && refusal(hook, "connect route error code "@) == Some(
                        e@.details(),
                    ) && e@ is ConnectRoute,
                    None => !claimed || refusal(hook, "connect route error code "@) is None,
                }
            },
    {
        let configured = self.config.routes.connect.is_some();
        let hook_ok = match &hook {
            Some(outcome) => outcome.is_accepted(),
            None => false,
        };
        if claimed && (!configured || hook_ok) {
            return ConnectVerdict { reply: Ok(()), rollback: Vec::new(), error: None };
        }
        self.sessions.remove(&msg.connection);
        if !claimed {
            let rollback: Vec<KvCommand> = Vec::new();
            assert(commands_view(rollback@) =~= Seq::<KvCommandView>::empty());
            return ConnectVerdict { reply: Err(STATUS_FAILED), rollback, error: None };
        }
        let rollback = release(
            self.config.group_id.as_str(),
            self.instance.as_str(),
            msg.connection.as_str(),
        );
        let error = match &hook {
            Some(outcome) => match outcome.complain("connect route error code ") {
                Some(text) => Some(Failure::ConnectRoute(text)),
                None => None,
            },
            None => None,
        };
        ConnectVerdict { reply: Err(STATUS_FAILED), rollback, error }
    }

    /// A session left: it leaves the table, and the plan says what to send
    /// to the directory and which hook to call after that.
    pub fn handle_disconnect(&mut self, msg: &Disconnect) -> (plan: DisconnectPlan)
        ensures
            final(self).same_identity(old(self)),
            final(self).sessions() == without_session(old(self).sessions(), msg.connection@),
            !has_connection(final(self).sessions(), msg.connection@),
            commands_view(plan.release@) == release_commands(
                old(self).group(),
                old(self).instance(),
                msg.connection@,
            ),
            plan.hook is Some <==> old(self).config().routes.disconnect is Some,
            plan.hook is Some ==> {
                let hook = plan.hook.unwrap();
                let route = old(self).config().routes.disconnect.unwrap();
                &&& hook.endpoint@ == route.endpoint@
                &&& headers_view(hook.headers@) == headers_view(route.headers@)
                &&& hook.body@ == (LifecycleView {
                    instance_id: old(self).instance(),
                    group_id: old(self).group(),
                    endpoint: msg.endpoint@,
                    connection_id: msg.connection@,
                    time: msg.time@,
                })
            },
    {
        self.sessions.remove(&msg.connection);
        let release = release(
            self.config.group_id.as_str(),
            self.instance.as_str(),
            msg.connection.as_str(),
        );
        let hook = match &self.config.routes.disconnect {
            Some(route) => Some(
                HttpPost {
                    endpoint: route.endpoint.clone(),
                    headers: clone_headers(&route.headers),
                    body: DisconnectRequest {
                        instance_id: self.instance.clone(),
                        group_id: self.config.group_id.clone(),
                        endpoint: msg.endpoint.clone(),
                        connection_id: msg.connection.clone(),
                        time: msg.time.clone(),
                    },
                },
            ),
            None => None,
        };
        DisconnectPlan { release, hook }
    }

    /// The release and the hook of a `Disconnect` have run; `hook` is the
    /// hook's outcome, or `None` where it was not called. The reply is `Ok`
    /// whatever happened: a failed release is left to the time to live, and
    /// the hook's answer is advisory. Anything but a 200 is recorded.
    pub fn settle_disconnect(&self, hook: Option<HttpOutcome>) -> (v: DisconnectVerdict)
        ensures
            v.reply == Ok::<(), u16>(()),
            match v.error {
                Some(e) => refusal(hook, "disconnect route error code "@) == Some(e@.details())
                    && e@ is DisconnectRoute,
                None => refusal(hook, "disconnect route error code "@) is None,
            },
    {
        let error = match &hook {
            Some(outcome) => match outcome.complain("disconnect route error code ") {
                Some(text) => Some(Failure::DisconnectRoute(text)),
                None => None,
            },
            None => None,
        };
        DisconnectVerdict { reply: Ok(()), error }
    }

    /// A session has heard from its client: both directory entries of the
    /// connection are to be renewed.
    pub fn handle_heartbeat(&self, msg: &Heartbeat) -> (batch: Vec<KvCommand>)
        ensures
            commands_view(batch@) == refresh_commands(
                self.group(),
                self.instance(),
                msg.connection@,
            ),
    {
        refresh(self.config.group_id.as_str(), self.instance.as_str(), msg.connection.as_str())
    }

    /// The queue publication for a client payload, with the given envelope id
    /// and timestamp. There is none where the gateway only sends to clients.
    pub fn queue_publication(&self, msg: ClientMessage, id: String, timestamp: String) -> (r: Option<
        QueuePublish,
    >)
        ensures
            match self.config().server.comms {
                CommsMode::UniServerToClient => r is None,
                CommsMode::Bidi { stream } => r is Some && {
                    let p = r.unwrap();
                    &&& p.subject@ == queue_subject(self.group())
                    &&& p.expected_stream@ == stream.name@
                    &&& p.envelope@ == enveloped(
                        self.instance(),
                        msg.connection@,
                        msg.endpoint@,
                        msg.context@,
                        msg.message@,
                        id@,
                        timestamp@,
                    )
                },
            },
    {
        match &self.config.server.comms {
            CommsMode::UniServerToClient => None,
            CommsMode::Bidi { stream } => Some(
                QueuePublish {
                    subject: make_queue_subject(self.config.group_id.as_str()),
                    expected_stream: stream.name.clone(),
                    envelope: nats::Message {
                        meta: nats::MessageMeta { id, timestamp },
                        data: nats::ClientMessage {
                            instance_id: self.instance.clone(),
                            connection_id: msg.connection,
                            endpoint: msg.endpoint,
                            context: msg.context,
                            message: msg.message,
                        },
                    },
                },
            ),
        }
    }

    /// A client sent a payload: it goes to the work queue under a fresh
    /// envelope id, stamped with the current time.
    pub fn handle_client_message(&self, msg: ClientMessage) -> (r: Option<QueuePublish>)
        ensures
            match self.config().server.comms {
                CommsMode::UniServerToClient => r is None,
                CommsMode::Bidi { stream } => r is Some && {
                    let p = r.unwrap();
                    &&& p.subject@ == queue_subject(self.group())
                    &&& p.expected_stream@ == stream.name@
                    &&& uuid_shaped(p.envelope@.id)
                    &&& p.envelope@ == enveloped(
                        self.instance(),
                        msg.connection@,
                        msg.endpoint@,
                        msg.context@,
                        msg.message@,
                        p.envelope@.id,
                        p.envelope@.timestamp,
                    )
                },
            },
    {
        let id = fresh_id();
        let timestamp = now_rfc3339();
        self.queue_publication(msg, id, timestamp)
    }

    /// A payload for one connection: the directory is asked for the owner,
    /// and the envelope waits for the answer.
    pub fn handle_server_message(&self, msg: ServerMessage) -> (l: OwnerLookup)
        ensures
            l.query@ == (KvCommandView::Read { key: reverse_key(self.group(), msg.connection@) }),
            l.envelope@ == (MessageView::S2CMessage {
                connection: msg.connection@,
                time: msg.time@,
                message: msg.message@,
            }),
    {
        let query = owner_query(self.config.group_id.as_str(), msg.connection.as_str());
        OwnerLookup { query, envelope: msg.into() }
    }

    /// A request to close one connection: the directory is asked for the
    /// owner, and the envelope waits for the answer.
    pub fn handle_server_disconnect(&self, msg: ServerDisconnect) -> (l: OwnerLookup)
        ensures
            l.query@ == (KvCommandView::Read { key: reverse_key(self.group(), msg.connection@) }),
            l.envelope@ == (MessageView::SDisconnect {
                connection: msg.connection@,
                time: msg.time@,
                reason: msg.reason@,
            }),
    {
        let query = owner_query(self.config.group_id.as_str(), msg.connection.as_str());
        OwnerLookup { query, envelope: msg.into() }
    }

    /// The directory has answered. With an owner, the envelope goes to that
    /// instance's topic; without one the connection exists nowhere and the
    /// envelope is dropped.
    pub fn address_to_owner(&self, owner: Option<String>, envelope: Message) -> (r: Result<
        BusPublish,
        Failure,
    >)
        ensures
            match r {
                Ok(p) => owner is Some && p.channel@ == instance_topic(
                    self.group(),
                    owner.unwrap()@,
                ) && p.message@ == envelope@,
                Err(e) => owner is None && e@ == FailureView::ConnectionNotFound(
                    addressee(envelope@),
                ),
            },
    {
        match owner {
            Some(instance) => Ok(
                BusPublish {
                    channel: make_instance_topic(
                        self.config.group_id.as_str(),
                        instance.as_str(),
                    ),
                    message: envelope,
                },
            ),
            None => {
                let connection = match envelope {
                    Message::S2CMessage { connection, time, message } => connection,
                    Message::SDisconnect { connection, time, reason } => connection,
                    Message::SBroadcast { endpoint, time, message } => String::new(),
                };
                Err(Failure::ConnectionNotFound(connection))
            },
        }
    }

    /// A payload for many connections goes to the group's broadcast topic.
    pub fn handle_broadcast(&self, msg: BroadcastServerMessage) -> (p: BusPublish)
        ensures
            p.channel@ == broadcast_topic(self.group()),
            p.message@ == (MessageView::SBroadcast {
                endpoint: opt_view(msg.endpoint),
                time: msg.time@,
                message: msg.message@,
            }),
    {
        BusPublish {
            channel: make_broadcast_topic(self.config.group_id.as_str()),
            message: msg.into(),
        }
    }
}

/// The connection that an envelope is addressed to; empty for a broadcast,
/// which names none.
pub open spec fn addressee(m: MessageView) -> Seq<char> {
    match m {
        MessageView::S2CMessage { connection, time, message } => connection,
        MessageView::SDisconnect { connection, time, reason } => connection,
        MessageView::SBroadcast { endpoint, time, message } => Seq::empty(),
    }
}

} // verus!
