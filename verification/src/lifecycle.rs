//! What holds of a session over its whole life: when silence ends it, what
//! keeps it alive, and that it takes its leave of the registry once.

use vstd::prelude::*;
use crate::error::RelayError;
use crate::session::{
    elapsed, CommandModel, Frame, Phase, ProtocolError, WsSession, CLIENT_TIMEOUT,
};
use crate::text::trimmed;

verus! {

/// One thing that happens to a session.
pub enum Event {
    /// The registry answered the request to join.
    Joined(Option<usize>),
    /// The heartbeat timer fired at this time.
    Heartbeat(u64),
    /// A frame arrived at this time, or reading one failed.
    Frame(Result<Frame, ProtocolError>, u64),
    /// The session was told that it stops.
    Stopping,
}

impl WsSession {
    /// The session and its commands after one event.
    pub open spec fn after(self, event: Event) -> (WsSession, Seq<CommandModel>) {
        match event {
            Event::Joined(reply) => self.after_joined(reply),
            Event::Heartbeat(now) => self.after_heartbeat(now),
            Event::Frame(msg, now) => self.after_frame(msg, now),
            Event::Stopping => self.after_stopping(),
        }
    }

    /// The session after a row of events, and all the commands that it gave
    /// on the way, in order.
    pub open spec fn after_all(self, events: Seq<Event>) -> (WsSession, Seq<CommandModel>)
        decreases events.len(),
    {
        if events.len() == 0 {
            (self, seq![])
        } else {
            let (before, commands) = self.after_all(events.drop_last());
            let (session, more) = before.after(events.last());
            (session, commands + more)
        }
    }
}

/// How often a row of commands takes leave of the registry.
pub open spec fn leaves(commands: Seq<CommandModel>) -> nat
    decreases commands.len(),
{
    if commands.len() == 0 {
        0
    } else {
        leaves(commands.drop_last()) + if commands.last() is Leave {
            1nat
        } else {
            0nat
        }
    }
}

/// The leaves of two rows of commands, one after the other, add up.
pub proof fn lemma_leaves_add_up(first: Seq<CommandModel>, second: Seq<CommandModel>)
    ensures
        leaves(first + second) == leaves(first) + leaves(second),
    decreases second.len(),
{
    if second.len() == 0 {
        assert(first + second =~= first);
    } else {
        assert((first + second).drop_last() =~= first + second.drop_last());
        lemma_leaves_add_up(first, second.drop_last());
    }
}

/// One event makes an active or closing session take its leave exactly when
/// it ends the session, and a session that is over never takes it again.
pub proof fn lemma_event_leaves_on_ending(session: WsSession, event: Event)
    requires
        session.phase != Phase::Connecting,
    ensures
        session.after(event).0.phase != Phase::Connecting,
        session.after(event).0.id == session.id,
        session.after(event).0.client_id == session.client_id,
        session.phase == Phase::Terminated ==> session.after(event).0.phase == Phase::Terminated,
        leaves(session.after(event).1) == if session.phase != Phase::Terminated && session.after(
            event,
        ).0.phase == Phase::Terminated {
            1nat
        } else {
            0nat
        },
        forall|i: int|
            0 <= i < session.after(event).1.len() && (#[trigger] session.after(event).1[i])
                is Leave ==> session.after(event).1[i] == CommandModel::Leave(session.id),
{
    let commands = session.after(event).1;
    reveal_with_fuel(leaves, 3);
    if commands.len() == 1 {
        assert(commands.drop_last() =~= Seq::<CommandModel>::empty());
    } else if commands.len() == 2 {
        assert(commands.drop_last().drop_last() =~= Seq::<CommandModel>::empty());
    }
}

/// A session that was taken in by the registry takes its leave of it exactly
/// once over its life, however that life goes: not before it is over, once
/// when it ends, by silence, by a close, by a failure of the transport or by
/// being stopped, and never again after that. It keeps its number and its
/// identity throughout, and the leave names that number.
pub proof fn lemma_session_leaves_once(session: WsSession, events: Seq<Event>)
    requires
        session.phase == Phase::Active,
    ensures
        session.after_all(events).0.phase != Phase::Connecting,
        session.after_all(events).0.id == session.id,
        session.after_all(events).0.client_id == session.client_id,
        leaves(session.after_all(events).1) == if session.after_all(events).0.phase
            == Phase::Terminated {
            1nat
        } else {
            0nat
        },
        forall|i: int|
            0 <= i < session.after_all(events).1.len() && (#[trigger] session.after_all(
                events,
            ).1[i]) is Leave ==> session.after_all(events).1[i] == CommandModel::Leave(session.id),
    decreases events.len(),
{
    if events.len() > 0 {
        let (before, commands) = session.after_all(events.drop_last());
        lemma_session_leaves_once(session, events.drop_last());
        lemma_event_leaves_on_ending(before, events.last());
        lemma_leaves_add_up(commands, before.after(events.last()).1);
    }
}

/// An active session whose peer has been silent for longer than
/// `CLIENT_TIMEOUT` when the heartbeat timer fires is ended there and then:
/// it takes its leave of the registry, stops for that reason, and sends no
/// further probe. Being told to stop after that, it does not take its leave
/// a second time.
pub proof fn lemma_silence_ends_session(session: WsSession, now: u64)
    requires
        session.phase == Phase::Active,
        elapsed(now, session.hb) > CLIENT_TIMEOUT,
    ensures
        session.after_heartbeat(now).0.phase == Phase::Terminated,
        session.after_heartbeat(now).1 == seq![
            CommandModel::Leave(session.id),
            CommandModel::Stop(Some(RelayError::HeartbeatTimeout)),
        ],
        session.after_heartbeat(now).0.after_stopping().1 == Seq::<CommandModel>::empty(),
{
}

/// An active session whose peer gave a sign of life, a ping or a pong, no
/// longer than `CLIENT_TIMEOUT` before the heartbeat timer fires stays
/// active, and probes its peer again.
pub proof fn lemma_sign_of_life_keeps_session(
    session: WsSession,
    frame: Frame,
    at: u64,
    now: u64,
)
    requires
        session.phase == Phase::Active,
        frame is Ping || frame is Pong,
        elapsed(now, at) <= CLIENT_TIMEOUT,
    ensures
        session.after_frame(Ok(frame), at).0.after_heartbeat(now) == (
            session.refreshed(at),
            seq![CommandModel::Ping(seq![])],
        ),
        session.refreshed(at).phase == Phase::Active,
{
}

/// An active session stays active for as long as nothing ends it: over any
/// row of heartbeats that each come no longer than `CLIENT_TIMEOUT` after
/// the last sign of life, and of pings, pongs, texts, binary and empty
/// frames.
pub proof fn lemma_live_session_stays_active(session: WsSession, events: Seq<Event>)
    requires
        session.phase == Phase::Active,
        forall|i: int| 0 <= i < events.len() ==> harmless(#[trigger] events[i]),
        forall|i: int|
            0 <= i < events.len() && (#[trigger] events[i]) is Heartbeat ==> !session.after_all(
                events.take(i),
            ).0.timed_out(events[i]->Heartbeat_0),
    ensures
        session.after_all(events).0.phase == Phase::Active,
    decreases events.len(),
{
    if events.len() > 0 {
        let earlier = events.drop_last();
        assert forall|i: int| 0 <= i < earlier.len() && (#[trigger] earlier[i]) is Heartbeat implies
            !session.after_all(earlier.take(i)).0.timed_out(earlier[i]->Heartbeat_0) by {
            assert(earlier[i] == events[i]);
            assert(earlier.take(i) =~= events.take(i));
        }
        assert forall|i: int| 0 <= i < earlier.len() implies harmless(#[trigger] earlier[i]) by {
            assert(earlier[i] == events[i]);
        }
        lemma_live_session_stays_active(session, earlier);
        assert(events.take(events.len() - 1) =~= earlier);
        assert(harmless(events[events.len() - 1]));
    }
}

/// A text from the peer, well-formed or not, leaves the session as it was:
/// the text goes to the registry in the session's name, without the white
/// space around it, and whatever the registry makes of it does not come back
/// to the session.
pub proof fn lemma_text_changes_nothing(session: WsSession, text: String, now: u64)
    requires
        session.phase == Phase::Active,
    ensures
        session.after_frame(Ok(Frame::Text(text)), now) == (
            session,
            seq![CommandModel::Relay(session.id, trimmed(text@))],
        ),
{
}

/// An event that by itself ends no session: a heartbeat, the registry's
/// answer, and every frame but a close and a continuation.
pub open spec fn harmless(event: Event) -> bool {
    match event {
        Event::Joined(_) => true,
        Event::Heartbeat(_) => true,
        Event::Frame(Ok(frame), _) => !(frame is Close) && !(frame is Continuation),
        Event::Frame(Err(_), _) => false,
        Event::Stopping => false,
    }
}

} // verus!
