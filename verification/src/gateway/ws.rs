//! The session: one per live WebSocket.
//!
//! A session is a state machine. The embedding program owns the socket and
//! the timer; it reports what happened (a frame, a tick, a command from the
//! router) and performs the actions that the session answers with.

use crate::context::ConnectionContext;
use crate::gateway::messages::{
    ClientMessage, Connect, Disconnect, Heartbeat, WsMessage, WsMessageView,
};
use crate::ident::{fresh_id, now_rfc3339, uuid_shaped};
use vstd::prelude::*;

verus! {

/// The context of a session, as the authorizer set it at connect time.
pub type WsConnContext = ConnectionContext;

/// Close code for a connection that the server ends on request.
pub const CLOSE_POLICY: u16 = 1008;

/// Close code for a connection whose registration was refused.
pub const CLOSE_UNAUTHORIZED: u16 = 3000;

/// The payload of the pings that the session sends.
pub const PING_PAYLOAD: u8 = 46;

/// Where a session is in its life.
#[derive(Debug, Clone, Copy, PartialEq, Eq, Structural)]
pub enum Phase {
    /// Built, not yet started.
    Created,
    /// Announced to the server, waiting for the acknowledgement.
    Opening,
    /// Serving frames.
    Live,
    /// About to stop.
    Closing,
    /// Stopped.
    Closed,
}

/// A reading of the clocks: milliseconds on a monotonic clock, and the wall
/// clock in RFC 3339 notation.
#[derive(Debug, Clone, PartialEq)]
pub struct Stamp {
    pub now_ms: u64,
    pub time: String,
}

impl Stamp {
    /// Pairs a monotonic reading with the current wall-clock time.
    pub fn at(now_ms: u64) -> (s: Self)
        ensures
            s.now_ms == now_ms,
    {
        Stamp { now_ms, time: now_rfc3339() }
    }
}

/// Code and text of a close frame.
#[derive(Debug, Clone, PartialEq)]
pub struct CloseReason {
    pub code: u16,
    pub description: Option<String>,
}

pub ghost struct CloseReasonView {
    pub code: u16,
    pub description: Option<Seq<char>>,
}

impl View for CloseReason {
    type V = CloseReasonView;

    open spec fn view(&self) -> CloseReasonView {
        CloseReasonView {
            code: self.code,
            description: crate::bus::redis::opt_view(self.description),
        }
    }
}

/// What an optional close reason holds.
pub open spec fn reason_view(r: Option<CloseReason>) -> Option<CloseReasonView> {
    match r {
        Some(c) => Some(c@),
        None => None,
    }
}

/// What arrived on the socket.
#[derive(Debug, Clone, PartialEq)]
pub enum Frame {
    Ping(Vec<u8>),
    Pong(Vec<u8>),
    Text(String),
    Binary(Vec<u8>),
    Close(Option<CloseReason>),
    Continuation,
    Nop,
    /// Something that is no valid frame.
    Malformed,
}

pub ghost enum FrameView {
    Ping(Seq<u8>),
    Pong(Seq<u8>),
    Text(Seq<char>),
    Binary(Seq<u8>),
    Close(Option<CloseReasonView>),
    Continuation,
    Nop,
    Malformed,
}

impl View for Frame {
    type V = FrameView;

    open spec fn view(&self) -> FrameView {
        match *self {
            Frame::Ping(p) => FrameView::Ping(p@),
            Frame::Pong(p) => FrameView::Pong(p@),
            Frame::Text(t) => FrameView::Text(t@),
            Frame::Binary(b) => FrameView::Binary(b@),
            Frame::Close(r) => FrameView::Close(reason_view(r)),
            Frame::Continuation => FrameView::Continuation,
            Frame::Nop => FrameView::Nop,
            Frame::Malformed => FrameView::Malformed,
        }
    }
}

/// A command from a session to the gateway server.
#[derive(Debug, Clone, PartialEq)]
pub enum Outbound {
    Connect(Connect),
    Disconnect(Disconnect),
    Heartbeat(Heartbeat),
    ClientMessage(ClientMessage),
}

pub ghost enum OutboundView {
    Connect { connection: Seq<char>, endpoint: Seq<char>, time: Seq<char> },
    Disconnect { connection: Seq<char>, endpoint: Seq<char>, time: Seq<char> },
    Heartbeat { connection: Seq<char>, time: Seq<char> },
    ClientMessage {
        connection: Seq<char>,
        endpoint: Seq<char>,
        time: Seq<char>,
        context: Option<Map<String, serde_json::Value>>,
        message: Seq<char>,
    },
}

impl View for Outbound {
    type V = OutboundView;

    open spec fn view(&self) -> OutboundView {
        match *self {
            Outbound::Connect(c) => OutboundView::Connect {
                connection: c.connection@,
                endpoint: c.endpoint@,
                time: c.time@,
            },
            Outbound::Disconnect(d) => OutboundView::Disconnect {
                connection: d.connection@,
                endpoint: d.endpoint@,
                time: d.time@,
            },
            Outbound::Heartbeat(h) => OutboundView::Heartbeat {
                connection: h.connection@,
                time: h.time@,
            },
            Outbound::ClientMessage(m) => OutboundView::ClientMessage {
                connection: m.connection@,
                endpoint: m.endpoint@,
                time: m.time@,
                context: m.context@,
                message: m.message@,
            },
        }
    }
}

/// Something for the embedding program to do, in the order given.
#[derive(Debug, Clone, PartialEq)]
pub enum Action {
    /// Hand the command to the gateway server, without waiting for an answer.
    Emit(Outbound),
    /// Answer a ping with this payload.
    Pong(Vec<u8>),
    /// Send a ping with this payload.
    Ping(Vec<u8>),
    /// Write a text frame.
    Text(String),
    /// Write a binary frame.
    Binary(Vec<u8>),
    /// Write a close frame.
    Close(Option<CloseReason>),
}

pub ghost enum ActionView {
    Emit(OutboundView),
    Pong(Seq<u8>),
    Ping(Seq<u8>),
    Text(Seq<char>),
    Binary(Seq<u8>),
    Close(Option<CloseReasonView>),
}

impl View for Action {
    type V = ActionView;

    open spec fn view(&self) -> ActionView {
        match *self {
            Action::Emit(o) => ActionView::Emit(o@),
            Action::Pong(p) => ActionView::Pong(p@),
            Action::Ping(p) => ActionView::Ping(p@),
            Action::Text(t) => ActionView::Text(t@),
            Action::Binary(b) => ActionView::Binary(b@),
            Action::Close(r) => ActionView::Close(reason_view(r)),
        }
    }
}

/// The actions in `v`, as mathematical values.
pub open spec fn actions_view(v: Seq<Action>) -> Seq<ActionView> {
    v.map_values(|a: Action| a@)
}

/// What happened to a session.
pub ghost enum Event {
    /// The socket is up.
    Started,
    /// The server acknowledged the `Connect`, or refused it.
    Acknowledged(bool),
    /// A frame arrived.
    Frame(FrameView),
    /// The heartbeat timer fired.
    Tick,
    /// The router has something for this session.
    Command(WsMessageView),
    /// The session is being torn down.
    Stopping,
}

/// The state of a session, as mathematical values.
pub ghost struct SessionState {
    pub phase: Phase,
    /// Whether the `Disconnect` of this session has gone out.
    pub disconnect_sent: bool,
    /// The monotonic reading at the last sign of life from the client.
    pub heartbeat: int,
    pub connection: Seq<char>,
    pub group: Seq<char>,
    pub endpoint: Seq<char>,
    pub context: Option<Map<String, serde_json::Value>>,
    pub heartbeat_int: int,
    pub timeout: int,
}

/// Milliseconds from `since` to `now`; zero where `now` lies before.
pub open spec fn elapsed(now: int, since: int) -> int {
    if now >= since {
        now - since
    } else {
        0
    }
}

impl SessionState {
    /// Whether the client has been silent for longer than the timeout.
    pub open spec fn timed_out(self, now: int) -> bool {
        elapsed(now, self.heartbeat) > self.timeout
    }

    pub open spec fn in_phase(self, phase: Phase) -> SessionState {
        SessionState { phase, ..self }
    }

    pub open spec fn connect_command(self, time: Seq<char>) -> ActionView {
        ActionView::Emit(
            OutboundView::Connect { connection: self.connection, endpoint: self.endpoint, time },
        )
    }

    pub open spec fn disconnect_command(self, time: Seq<char>) -> ActionView {
        ActionView::Emit(
            OutboundView::Disconnect {
                connection: self.connection,
                endpoint: self.endpoint,
                time,
            },
        )
    }

    pub open spec fn heartbeat_command(self, time: Seq<char>) -> ActionView {
        ActionView::Emit(OutboundView::Heartbeat { connection: self.connection, time })
    }

    pub open spec fn client_command(self, time: Seq<char>, message: Seq<char>) -> ActionView {
        ActionView::Emit(
            OutboundView::ClientMessage {
                connection: self.connection,
                endpoint: self.endpoint,
                time,
                context: self.context,
                message,
            },
        )
    }

    /// The session after a frame arrived while it was live, and its answer.
    pub open spec fn on_frame(self, frame: FrameView, now: int, time: Seq<char>) -> (
        SessionState,
        Seq<ActionView>,
    ) {
        match frame {
            FrameView::Ping(payload) => (
                SessionState { heartbeat: now, ..self },
                seq![self.heartbeat_command(time), ActionView::Pong(payload)],
            ),
            FrameView::Pong(payload) => (
                SessionState { heartbeat: now, ..self },
                seq![self.heartbeat_command(time)],
            ),
            FrameView::Text(text) => (self, seq![self.client_command(time, text)]),
            FrameView::Binary(data) => (self, seq![ActionView::Binary(data)]),
            FrameView::Close(reason) => (
                self.in_phase(Phase::Closing),
                seq![ActionView::Close(reason)],
            ),
            FrameView::Continuation => (self.in_phase(Phase::Closing), seq![]),
            FrameView::Nop => (self, seq![]),
            FrameView::Malformed => (self.in_phase(Phase::Closing), seq![]),
        }
    }

    /// The session after the timer fired while it was live, and its answer.
    pub open spec fn on_tick(self, now: int, time: Seq<char>) -> (SessionState, Seq<ActionView>) {
        if self.timed_out(now) {
            (
                SessionState { phase: Phase::Closing, disconnect_sent: true, ..self },
                if self.disconnect_sent {
                    seq![]
                } else {
                    seq![self.disconnect_command(time)]
                },
            )
        } else {
            (self, seq![ActionView::Ping(seq![PING_PAYLOAD])])
        }
    }

    /// The session after a command from the router while it was live.
    pub open spec fn on_command(self, command: WsMessageView) -> (SessionState, Seq<ActionView>) {
        match command {
            WsMessageView::Message { endpoint, message } => (self, seq![ActionView::Text(message)]),
            WsMessageView::Disconnect(reason) => (
                self.in_phase(Phase::Closing),
                seq![
                    ActionView::Close(
                        Some(CloseReasonView { code: CLOSE_POLICY, description: Some(reason) }),
                    ),
                ],
            ),
        }
    }

    /// The session after `event`, and the actions it answers with. An event
    /// that does not fit the phase changes nothing and has no answer.
    pub open spec fn step(self, event: Event, now: int, time: Seq<char>) -> (
        SessionState,
        Seq<ActionView>,
    ) {
        match event {
            Event::Started => if self.phase == Phase::Created {
                (self.in_phase(Phase::Opening), seq![self.connect_command(time)])
            } else {
                (self, seq![])
            },
            Event::Acknowledged(ok) => if self.phase == Phase::Opening {
                if ok {
                    (self.in_phase(Phase::Live), seq![])
                } else {
                    (
                        self.in_phase(Phase::Closing),
                        seq![
                            ActionView::Close(
                                Some(
                                    CloseReasonView {
                                        code: CLOSE_UNAUTHORIZED,
                                        description: None,
                                    },
                                ),
                            ),
                        ],
                    )
                }
            } else {
                (self, seq![])
            },
            Event::Frame(frame) => if self.phase == Phase::Live {
                self.on_frame(frame, now, time)
            } else {
                (self, seq![])
            },
            Event::Tick => if self.phase == Phase::Live {
                self.on_tick(now, time)
            } else {
                (self, seq![])
            },
            Event::Command(command) => if self.phase == Phase::Live {
                self.on_command(command)
            } else {
                (self, seq![])
            },
            Event::Stopping => if self.phase == Phase::Created || self.phase == Phase::Closed {
                (self, seq![])
            } else {
                (
                    SessionState { phase: Phase::Closed, disconnect_sent: true, ..self },
                    if self.disconnect_sent {
                        seq![]
                    } else {
                        seq![self.disconnect_command(time)]
                    },
                )
            },
        }
    }
}

/// All relevant information about one WebSocket session.
#[derive(Debug, Clone, PartialEq)]
pub struct WsConn {
    phase: Phase,
    disconnect_sent: bool,
    heartbeat: u64,
    pub connection: String,
    pub group: String,
    pub endpoint: String,
    pub context: WsConnContext,
    heartbeat_int: u64,
    timeout: u64,
}

impl View for WsConn {
    type V = SessionState;

    closed spec fn view(&self) -> SessionState {
        SessionState {
            phase: self.phase,
            disconnect_sent: self.disconnect_sent,
            heartbeat: self.heartbeat as int,
            connection: self.connection@,
            group: self.group@,
            endpoint: self.endpoint@,
            context: self.context@,
            heartbeat_int: self.heartbeat_int as int,
            timeout: self.timeout as int,
        }
    }
}

impl WsConn {
    /// A fresh connection id.
    pub fn claim_id() -> (id: String)
        ensures
            uuid_shaped(id@),
    {
        fresh_id()
    }

    /// A session that has not started. `now_ms` is the monotonic reading at
    /// creation; the intervals are in milliseconds.
    pub fn new(
        connection: String,
        group: String,
        endpoint: String,
        context: WsConnContext,
        heartbeat_int: u64,
        timeout: u64,
        now_ms: u64,
    ) -> (c: WsConn)
        ensures
            c@ == (SessionState {
                phase: Phase::Created,
                disconnect_sent: false,
                heartbeat: now_ms as int,
                connection: connection@,
                group: group@,
                endpoint: endpoint@,
                context: context@,
                heartbeat_int: heartbeat_int as int,
                timeout: timeout as int,
            }),
    {
        WsConn {
            phase: Phase::Created,
            disconnect_sent: false,
            heartbeat: now_ms,
            connection,
            group,
            endpoint,
            context,
            heartbeat_int,
            timeout,
        }
    }

    pub fn phase(&self) -> (p: Phase)
        ensures
            p == self@.phase,
    {
        self.phase
    }

    /// Whether the embedding program should stop the session now.
    pub fn is_closing(&self) -> (r: bool)
        ensures
            r == (self@.phase == Phase::Closing),
    {
        self.phase == Phase::Closing
    }

    /// Milliseconds between two ticks of the heartbeat timer.
    pub fn heartbeat_interval(&self) -> (ms: u64)
        ensures
            ms == self@.heartbeat_int,
    {
        self.heartbeat_int
    }

    fn disconnect(&self, time: &String) -> (a: Action)
        ensures
            a@ == self@.disconnect_command(time@),
    {
        Action::Emit(
            Outbound::Disconnect(
                Disconnect {
                    connection: self.connection.clone(),
                    endpoint: self.endpoint.clone(),
                    time: time.clone(),
                },
            ),
        )
    }

    fn heartbeat(&self, time: &String) -> (a: Action)
        ensures
            a@ == self@.heartbeat_command(time@),
    {
        Action::Emit(
            Outbound::Heartbeat(
                Heartbeat { connection: self.connection.clone(), time: time.clone() },
            ),
        )
    }

    /// The socket is up: the session announces itself to the server.
    pub fn started(&mut self, at: &Stamp) -> (actions: Vec<Action>)
        ensures
            (final(self)@, actions_view(actions@)) == old(self)@.step(
                Event::Started,
                at.now_ms as int,
                at.time@,
            ),
    {
        let mut actions: Vec<Action> = Vec::new();
        if self.phase == Phase::Created {
            actions.push(
                Action::Emit(
                    Outbound::Connect(
                        Connect {
                            connection: self.connection.clone(),
                            endpoint: self.endpoint.clone(),
                            time: at.time.clone(),
                        },
                    ),
                ),
            );
            self.phase = Phase::Opening;
            assert(actions_view(actions@) =~= seq![old(self)@.connect_command(at.time@)]);
        } else {
            assert(actions_view(actions@) =~= seq![]);
        }
        actions
    }

    /// The server has answered the `Connect`.
    pub fn acknowledged(&mut self, ack: Result<(), u16>, at: &Stamp) -> (actions: Vec<Action>)
        ensures
            (final(self)@, actions_view(actions@)) == old(self)@.step(
                Event::Acknowledged(ack is Ok),
                at.now_ms as int,
                at.time@,
            ),
    {
        let mut actions: Vec<Action> = Vec::new();
        if self.phase == Phase::Opening {
            match ack {
                Ok(_) => {
                    self.phase = Phase::Live;
                    assert(actions_view(actions@) =~= seq![]);
                },
                Err(_) => {
                    self.phase = Phase::Closing;
                    actions.push(
                        Action::Close(
                            Some(CloseReason { code: CLOSE_UNAUTHORIZED, description: None }),
                        ),
                    );
                    assert(actions_view(actions@) =~= seq![
                        ActionView::Close(
                            Some(
                                CloseReasonView { code: CLOSE_UNAUTHORIZED, description: None },
                            ),
                        ),
                    ]);
                },
            }
        } else {
            assert(actions_view(actions@) =~= seq![]);
        }
        actions
    }

    /// A frame arrived on the socket.
    pub fn handle_frame(&mut self, frame: Frame, at: &Stamp) -> (actions: Vec<Action>)
        ensures
            (final(self)@, actions_view(actions@)) == old(self)@.step(
                Event::Frame(frame@),
                at.now_ms as int,
                at.time@,
            ),
    {
        let mut actions: Vec<Action> = Vec::new();
        if self.phase != Phase::Live {
            assert(actions_view(actions@) =~= seq![]);
            return actions;
        }
        match frame {
            Frame::Ping(payload) => {
                self.heartbeat = at.now_ms;
                actions.push(self.heartbeat(&at.time));
                actions.push(Action::Pong(payload));
                assert(actions_view(actions@) =~= seq![
                    old(self)@.heartbeat_command(at.time@),
                    ActionView::Pong(payload@),
                ]);
            },
            Frame::Pong(payload) => {
                self.heartbeat = at.now_ms;
                actions.push(self.heartbeat(&at.time));
                assert(actions_view(actions@) =~= seq![old(self)@.heartbeat_command(at.time@)]);
            },
            Frame::Text(text) => {
                actions.push(
                    Action::Emit(
                        Outbound::ClientMessage(
                            ClientMessage {
                                connection: self.connection.clone(),
                                endpoint: self.endpoint.clone(),
                                time: at.time.clone(),
                                context: self.context.duplicate(),
                                message: text,
                            },
                        ),
                    ),
                );
                assert(actions_view(actions@) =~= seq![
                    old(self)@.client_command(at.time@, text@),
                ]);
            },
            Frame::Binary(data) => {
                actions.push(Action::Binary(data));
                assert(actions_view(actions@) =~= seq![ActionView::Binary(data@)]);
            },
            Frame::Close(reason) => {
                self.phase = Phase::Closing;
                actions.push(Action::Close(reason));
                assert(actions_view(actions@) =~= seq![ActionView::Close(reason_view(reason))]);
            },
            Frame::Continuation => {
                self.phase = Phase::Closing;
                assert(actions_view(actions@) =~= seq![]);
            },
            Frame::Nop => {
                assert(actions_view(actions@) =~= seq![]);
            },
            Frame::Malformed => {
                self.phase = Phase::Closing;
                assert(actions_view(actions@) =~= seq![]);
            },
        }
        actions
    }

    /// The heartbeat timer fired: a client that has been silent for longer
    /// than the timeout loses its session; any other is pinged.
    pub fn tick(&mut self, at: &Stamp) -> (actions: Vec<Action>)
        ensures
            (final(self)@, actions_view(actions@)) == old(self)@.step(
                Event::Tick,
                at.now_ms as int,
                at.time@,
            ),
    {
        let mut actions: Vec<Action> = Vec::new();
        if self.phase != Phase::Live {
            assert(actions_view(actions@) =~= seq![]);
            return actions;
        }
        let silent = if at.now_ms >= self.heartbeat {
            at.now_ms - self.heartbeat
        } else {
            0
        };
        if silent > self.timeout {
            if !self.disconnect_sent {
                actions.push(self.disconnect(&at.time));
                assert(actions_view(actions@) =~= seq![old(self)@.disconnect_command(at.time@)]);
            } else {
                assert(actions_view(actions@) =~= seq![]);
            }
            self.disconnect_sent = true;
            self.phase = Phase::Closing;
        } else {
            let mut payload: Vec<u8> = Vec::new();
            payload.push(PING_PAYLOAD);
            assert(payload@ =~= seq![PING_PAYLOAD]);
            actions.push(Action::Ping(payload));
            assert(actions_view(actions@) =~= seq![ActionView::Ping(seq![PING_PAYLOAD])]);
        }
        actions
    }

    /// The router has something for this session: a text to write, or the
    /// order to close with a reason.
    pub fn handle(&mut self, msg: WsMessage, at: &Stamp) -> (actions: Vec<Action>)
        ensures
            (final(self)@, actions_view(actions@)) == old(self)@.step(
                Event::Command(msg@),
                at.now_ms as int,
                at.time@,
            ),
    {
        let mut actions: Vec<Action> = Vec::new();
        if self.phase != Phase::Live {
            assert(actions_view(actions@) =~= seq![]);
            return actions;
        }
        match msg {
            WsMessage::Message { endpoint, message } => {
                actions.push(Action::Text(message));
                assert(actions_view(actions@) =~= seq![ActionView::Text(message@)]);
            },
            WsMessage::Disconnect(reason) => {
                self.phase = Phase::Closing;
                actions.push(
                    Action::Close(
                        Some(CloseReason { code: CLOSE_POLICY, description: Some(reason) }),
                    ),
                );
                assert(actions_view(actions@) =~= seq![
                    ActionView::Close(
                        Some(
                            CloseReasonView { code: CLOSE_POLICY, description: Some(reason@) },
                        ),
                    ),
                ]);
            },
        }
        actions
    }

    /// The session is being torn down: the server hears of it, unless it
    /// already has.
    pub fn stopping(&mut self, at: &Stamp) -> (actions: Vec<Action>)
        ensures
            (final(self)@, actions_view(actions@)) == old(self)@.step(
                Event::Stopping,
                at.now_ms as int,
                at.time@,
            ),
    {
        let mut actions: Vec<Action> = Vec::new();
        if self.phase == Phase::Created || self.phase == Phase::Closed {
            assert(actions_view(actions@) =~= seq![]);
            return actions;
        }
        if !self.disconnect_sent {
            actions.push(self.disconnect(&at.time));
            assert(actions_view(actions@) =~= seq![old(self)@.disconnect_command(at.time@)]);
        } else {
            assert(actions_view(actions@) =~= seq![]);
        }
        self.disconnect_sent = true;
        self.phase = Phase::Closed;
        actions
    }
}

} // verus!
