//! One client's session: the life of a connection from its upgrade to its
//! end, the heartbeat that keeps it alive, and what each frame from the peer
//! leads to. The session decides; whoever drives it performs the commands.

use vstd::prelude::*;
use crate::error::RelayError;
use crate::server::{BroadcastRequest, Disconnect, SendMessageRequest};
use crate::text::{trim, trimmed};

verus! {

/// The time between two probes of the peer, in nanoseconds.
pub const HEARTBEAT_INTERVAL: u64 = 5_000_000_000;

/// The longest time, in nanoseconds, that a peer may let pass without a sign
/// of life.
pub const CLIENT_TIMEOUT: u64 = 10_000_000_000;

/// Where a session stands in its life.
#[derive(Clone, Copy, Debug, PartialEq, Eq, Structural)]
pub enum Phase {
    /// Upgraded, and waiting for the registry to take it in.
    Connecting,
    /// Taken in, and serving its peer.
    Active,
    /// Told to stop, and yet to take its leave of the registry.
    Closing,
    /// Over.
    Terminated,
}

/// Why a peer closes the connection.
#[derive(Debug)]
pub struct CloseReason {
    pub code: u16,
    pub description: Option<String>,
}

/// A frame from the peer.
#[derive(Debug)]
pub enum Frame {
    Text(String),
    Binary(Vec<u8>),
    Continuation,
    Ping(Vec<u8>),
    Pong(Vec<u8>),
    Close(Option<CloseReason>),
    Nop,
}

/// The transport failed, or the peer broke the protocol.
#[derive(Debug)]
pub struct ProtocolError;

/// What a session asks of whoever drives it.
#[derive(Debug)]
pub enum Command {
    /// Call `heartbeat` each time this many nanoseconds have passed.
    Heartbeat(u64),
    /// Ask the registry to take the session in under this identity, serve
    /// nothing else meanwhile, and hand the answer to `joined`.
    Join(String),
    /// Tell the registry that the session has ended.
    Leave(Disconnect),
    /// Hand the request to the registry.
    Relay(BroadcastRequest),
    /// Send a ping frame with this payload.
    Ping(Vec<u8>),
    /// Send a pong frame with this payload.
    Pong(Vec<u8>),
    /// Send a text frame.
    Text(String),
    /// Send a close frame.
    Close(Option<CloseReason>),
    /// Stop serving the connection and call `stopping`. The error, where
    /// there is one, says what went wrong; without one the session ends in
    /// the ordinary way.
    Stop(Option<RelayError>),
}

/// A command as a mathematical value.
pub enum CommandModel {
    Heartbeat(u64),
    Join(Seq<char>),
    Leave(usize),
    Relay(usize, Seq<char>),
    Ping(Seq<u8>),
    Pong(Seq<u8>),
    Text(Seq<char>),
    Close(Option<CloseReason>),
    Stop(Option<RelayError>),
}

impl View for Command {
    type V = CommandModel;

    open spec fn view(&self) -> CommandModel {
        match *self {
            Command::Heartbeat(period) => CommandModel::Heartbeat(period),
            Command::Join(client_id) => CommandModel::Join(client_id@),
            Command::Leave(notice) => CommandModel::Leave(notice.id),
            Command::Relay(request) => CommandModel::Relay(request.id, request.msg@),
            Command::Ping(payload) => CommandModel::Ping(payload@),
            Command::Pong(payload) => CommandModel::Pong(payload@),
            Command::Text(text) => CommandModel::Text(text@),
            Command::Close(reason) => CommandModel::Close(reason),
            Command::Stop(cause) => CommandModel::Stop(cause),
        }
    }
}

/// The commands of a list, in order, as mathematical values.
pub open spec fn script(commands: Seq<Command>) -> Seq<CommandModel> {
    Seq::new(commands.len(), |i: int| commands[i]@)
}

/// The time that has passed at `now` since `since`; none where `since` lies
/// ahead.
pub open spec fn elapsed(now: u64, since: u64) -> nat {
    if now >= since {
        (now - since) as nat
    } else {
        0
    }
}

/// The state of one session.
#[derive(Debug)]
pub struct WsSession {
    /// The number that the registry gave; 0 until it has.
    pub id: usize,
    /// The identity that the client proved. It never changes.
    pub client_id: String,
    /// When the peer last gave a sign of life, in nanoseconds on a clock that
    /// never runs backwards.
    pub hb: u64,
    /// Where the session stands.
    pub phase: Phase,
}

impl WsSession {
    /// Whether the peer has been silent for longer than allowed at `now`.
    pub open spec fn timed_out(self, now: u64) -> bool {
        elapsed(now, self.hb) > CLIENT_TIMEOUT
    }

    /// The session in another phase.
    pub open spec fn in_phase(self, phase: Phase) -> WsSession {
        WsSession { id: self.id, client_id: self.client_id, hb: self.hb, phase }
    }

    /// The session with a sign of life at `now`.
    pub open spec fn refreshed(self, now: u64) -> WsSession {
        WsSession { id: self.id, client_id: self.client_id, hb: now, phase: self.phase }
    }

    /// The session and its commands after the registry's answer.
    pub open spec fn after_joined(self, reply: Option<usize>) -> (WsSession, Seq<CommandModel>) {
        if self.phase != Phase::Connecting {
            (self, seq![])
        } else {
            match reply {
                Some(id) => (
                    WsSession {
                        id,
                        client_id: self.client_id,
                        hb: self.hb,
                        phase: Phase::Active,
                    },
                    seq![],
                ),
                None => (self.in_phase(Phase::Terminated), seq![CommandModel::Stop(None)]),
            }
        }
    }

    /// The session and its commands after the heartbeat timer fired at `now`.
    pub open spec fn after_heartbeat(self, now: u64) -> (WsSession, Seq<CommandModel>) {
        if self.phase != Phase::Active {
            (self, seq![])
        } else if self.timed_out(now) {
            (
                self.in_phase(Phase::Terminated),
                seq![
                    CommandModel::Leave(self.id),
                    CommandModel::Stop(Some(RelayError::HeartbeatTimeout)),
                ],
            )
        } else {
            (self, seq![CommandModel::Ping(seq![])])
        }
    }

    /// The session and its commands after a frame, or a failure to read one,
    /// at `now`.
    pub open spec fn after_frame(self, msg: Result<Frame, ProtocolError>, now: u64) -> (
        WsSession,
        Seq<CommandModel>,
    ) {
        if self.phase != Phase::Active {
            (self, seq![])
        } else {
            match msg {
                Err(_) => (
                    self.in_phase(Phase::Closing),
                    seq![CommandModel::Stop(Some(RelayError::TransportError))],
                ),
                Ok(Frame::Ping(payload)) => (
                    self.refreshed(now),
                    seq![CommandModel::Pong(payload@)],
                ),
                Ok(Frame::Pong(_)) => (self.refreshed(now), seq![]),
                Ok(Frame::Text(text)) => (
                    self,
                    seq![CommandModel::Relay(self.id, trimmed(text@))],
                ),
                Ok(Frame::Binary(_)) => (self, seq![]),
                Ok(Frame::Close(reason)) => (
                    self.in_phase(Phase::Closing),
                    seq![CommandModel::Close(reason), CommandModel::Stop(None)],
                ),
                Ok(Frame::Continuation) => (
                    self.in_phase(Phase::Closing),
                    seq![CommandModel::Stop(None)],
                ),
                Ok(Frame::Nop) => (self, seq![]),
            }
        }
    }

    /// The session and its commands once it is told that it stops.
    pub open spec fn after_stopping(self) -> (WsSession, Seq<CommandModel>) {
        if self.phase == Phase::Active || self.phase == Phase::Closing {
            (self.in_phase(Phase::Terminated), seq![CommandModel::Leave(self.id)])
        } else {
            (self.in_phase(Phase::Terminated), seq![])
        }
    }

    /// The session of a client that has proved its identity, at the moment
    /// `now` of the upgrade.
    pub fn new(client_id: String, now: u64) -> (session: WsSession)
        ensures
            session == (WsSession { id: 0, client_id, hb: now, phase: Phase::Connecting }),
    {
        WsSession { id: 0, client_id, hb: now, phase: Phase::Connecting }
    }

    /// The session starts: the heartbeat timer is to run, and the registry is
    /// to take the session in.
    pub fn started(&self) -> (commands: Vec<Command>)
        ensures
            script(commands@) == seq![
                CommandModel::Heartbeat(HEARTBEAT_INTERVAL),
                CommandModel::Join(self.client_id@),
            ],
    {
        let mut commands: Vec<Command> = Vec::new();
        commands.push(Command::Heartbeat(HEARTBEAT_INTERVAL));
        commands.push(Command::Join(self.client_id.clone()));
        assert(script(commands@) =~= seq![
            CommandModel::Heartbeat(HEARTBEAT_INTERVAL),
            CommandModel::Join(self.client_id@),
        ]);
        commands
    }

    /// The registry answered the request to join, with the session's number,
    /// or not at all. With a number the session is active; without one it is
    /// over before it ever joined.
    pub fn joined(&mut self, reply: Option<usize>) -> (commands: Vec<Command>)
        ensures
            (*final(self), script(commands@)) == old(self).after_joined(reply),
    {
        let mut commands: Vec<Command> = Vec::new();
        if self.phase == Phase::Connecting {
            match reply {
                Some(id) => {
                    self.id = id;
                    self.phase = Phase::Active;
                },
                None => {
                    self.phase = Phase::Terminated;
                    commands.push(Command::Stop(None));
                },
            }
        }
        assert(script(commands@) =~= old(self).after_joined(reply).1);
        commands
    }

    /// The heartbeat timer fired at `now`. An active session whose peer has
    /// been silent for longer than `CLIENT_TIMEOUT` takes its leave of the
    /// registry and stops, without another probe; any other active session
    /// probes its peer.
    pub fn heartbeat(&mut self, now: u64) -> (commands: Vec<Command>)
        ensures
            (*final(self), script(commands@)) == old(self).after_heartbeat(now),
    {
        let mut commands: Vec<Command> = Vec::new();
        if self.phase == Phase::Active {
            let silent: u64 = if now >= self.hb {
                now - self.hb
            } else {
                0
            };
            if silent > CLIENT_TIMEOUT {
                self.phase = Phase::Terminated;
                commands.push(Command::Leave(Disconnect { id: self.id }));
                commands.push(Command::Stop(Some(RelayError::HeartbeatTimeout)));
            } else {
                commands.push(Command::Ping(Vec::new()));
            }
        }
        assert(script(commands@) =~= old(self).after_heartbeat(now).1);
        commands
    }

    /// The request that hands a client's text to the registry in this
    /// session's name.
    pub fn dispatch(&self, m: &str) -> (request: BroadcastRequest)
        ensures
            request.id == self.id,
            request.msg@ == m@,
    {
        BroadcastRequest { id: self.id, msg: m.to_owned() }
    }

    /// A frame arrived at `now`, or reading one failed. A ping is a sign of
    /// life and is answered with a pong; a pong is a sign of life; a text goes
    /// to the registry without the white space around it; a close frame, a
    /// continuation frame and a failure end the session; a binary frame and
    /// an empty one are passed over. A session that is not active takes no
    /// frames.
    pub fn handle(&mut self, msg: Result<Frame, ProtocolError>, now: u64) -> (commands: Vec<
        Command,
    >)
        ensures
            (*final(self), script(commands@)) == old(self).after_frame(msg, now),
    {
        let mut commands: Vec<Command> = Vec::new();
        if self.phase == Phase::Active {
            match msg {
                Err(_) => {
                    self.phase = Phase::Closing;
                    commands.push(Command::Stop(Some(RelayError::TransportError)));
                },
                Ok(Frame::Ping(payload)) => {
                    self.hb = now;
                    commands.push(Command::Pong(payload));
                },
                Ok(Frame::Pong(_)) => {
                    self.hb = now;
                },
                Ok(Frame::Text(text)) => {
                    let request = self.dispatch(trim(text.as_str()));
                    commands.push(Command::Relay(request));
                },
                Ok(Frame::Binary(_)) => {},
                Ok(Frame::Close(reason)) => {
                    self.phase = Phase::Closing;
                    commands.push(Command::Close(reason));
                    commands.push(Command::Stop(None));
                },
                Ok(Frame::Continuation) => {
                    self.phase = Phase::Closing;
                    commands.push(Command::Stop(None));
                },
                Ok(Frame::Nop) => {},
            }
        }
        assert(script(commands@) =~= old(self).after_frame(msg, now).1);
        commands
    }

    /// The registry pushed a message: it goes to the peer as a text frame, as
    /// it is.
    pub fn deliver(&self, msg: SendMessageRequest) -> (commands: Vec<Command>)
        ensures
            script(commands@) == seq![CommandModel::Text(msg.0@)],
    {
        let mut commands: Vec<Command> = Vec::new();
        commands.push(Command::Text(msg.0));
        assert(script(commands@) =~= seq![CommandModel::Text(msg.0@)]);
        commands
    }

    /// The session is stopping. One that joined and has not yet taken its
    /// leave of the registry does so now; in any case the session is over.
    pub fn stopping(&mut self) -> (commands: Vec<Command>)
        ensures
            (*final(self), script(commands@)) == old(self).after_stopping(),
    {
        let mut commands: Vec<Command> = Vec::new();
        if self.phase == Phase::Active || self.phase == Phase::Closing {
            commands.push(Command::Leave(Disconnect { id: self.id }));
        }
        self.phase = Phase::Terminated;
        assert(script(commands@) =~= old(self).after_stopping().1);
        commands
    }
}

} // verus!
