//! Session-level state: the shared sequence counter and the supervisor's
//! reconnect decisions.

use vstd::prelude::*;

use crate::gateway::command::{Command, Heartbeat, Identify, Resume};
use crate::gateway::Properties;
use crate::protocol::event::Event;

verus! {

/// The monotonic sequence counter shared between the reader and the writer of
/// one gateway session. The reader records inbound sequence numbers; the
/// writer samples the counter when emitting heartbeats.
pub struct SequenceTracker {
    pub last: u64,
}

/// One observation step: the counter keeps the larger of the old value and
/// the sequence carried by the frame, if any.
pub open spec fn observe_spec(last: u64, s: Option<u64>) -> u64 {
    match s {
        Some(n) => if n > last {
            n
        } else {
            last
        },
        None => last,
    }
}

/// The counter value after observing a whole sequence of inbound frames,
/// starting from zero.
pub open spec fn observe_all(events: Seq<Option<u64>>) -> u64
    decreases events.len(),
{
    if events.len() == 0 {
        0
    } else {
        observe_spec(observe_all(events.drop_last()), events.last())
    }
}

impl SequenceTracker {
    /// A fresh counter, as installed on a new session.
    pub fn new() -> (r: SequenceTracker)
        ensures
            r.last == 0,
    {
        SequenceTracker { last: 0 }
    }

    /// Records the sequence number of one inbound frame.
    pub fn observe(&mut self, s: Option<u64>)
        ensures
            final(self).last == observe_spec(old(self).last, s),
    {
        match s {
            Some(n) => {
                if n > self.last {
                    self.last = n;
                }
            },
            None => {},
        }
    }

    /// The payload of the next heartbeat: the latest sequence seen.
    pub fn heartbeat_payload(&self) -> (r: u64)
        ensures
            r == self.last,
    {
        self.last
    }

    /// The heartbeat command to send at the next heartbeat deadline.
    pub fn heartbeat_command(&self) -> (r: Command)
        ensures
            r matches Command::Heartbeat(h) && h.sequence == self.last,
    {
        Command::heartbeat(self.last)
    }
}

/// The heartbeat payload after any run of inbound frames is the maximum
/// sequence number seen so far: no observed sequence exceeds it, and it is
/// zero or one of the observed sequences.
pub proof fn lemma_heartbeat_is_max(events: Seq<Option<u64>>)
    ensures
        forall|i: int|
            0 <= i < events.len() && events[i] is Some ==> events[i]->0 <= observe_all(events),
        observe_all(events) == 0 || exists|i: int|
            0 <= i < events.len() && events[i] == Some(observe_all(events)),
    decreases events.len(),
{
    if events.len() > 0 {
        lemma_heartbeat_is_max(events.drop_last());
        assert(forall|i: int|
            0 <= i < events.len() - 1 ==> events[i] == events.drop_last()[i]);
        let prev = observe_all(events.drop_last());
        if prev != 0 {
            let w = choose|i: int|
                0 <= i < events.drop_last().len() && events.drop_last()[i] == Some(prev);
            assert(events[w] == Some(prev));
        }
    }
}

/// What the supervisor tells the application about the session.
pub enum Lifecycle {
    Online,
    Offline,
    SessionInvalidated,
    Event(Event),
}

/// What the supervisor does next after a handshake or a connection error.
pub enum SupervisorStep {
    /// Run the duplex loop.
    Run,
    /// Close this connection and connect again.
    Reconnect,
    /// Stop the loop for good.
    Stop,
}

/// The state the supervisor keeps across reconnects: the session id and the
/// identity the ready frame carried. Both are dropped on invalidation.
pub struct Supervisor {
    pub session_id: Option<String>,
    pub user_id: Option<crate::snowflake::Snowflake>,
}

pub open spec fn session_view(s: Option<String>) -> Option<Seq<char>> {
    match s {
        Some(x) => Some(x@),
        None => None,
    }
}

impl Supervisor {
    pub fn new() -> (r: Supervisor)
        ensures
            r.session_id is None,
            r.user_id is None,
    {
        Supervisor { session_id: None, user_id: None }
    }

    /// True when the next connection must open a new session: no session id
    /// is remembered.
    pub fn connects_as_new(&self) -> (r: bool)
        ensures
            r == (self.session_id is None),
    {
        match self.session_id {
            None => true,
            Some(_) => false,
        }
    }

    /// The handshake command for the next connection: identify with the
    /// caller's intents for a new session, resume with the remembered id and
    /// sequence otherwise.
    pub fn handshake_command(
        &self,
        token: &str,
        properties: Properties,
        intents: crate::intents::Intents,
        sequence: u64,
    ) -> (r: Command)
        ensures
            self.session_id is None ==> (r matches Command::Identify(i) && i.token@ == token@
                && i.properties == properties && i.intents == Some(intents)),
            self.session_id matches Some(sid) ==> (r matches Command::Resume(x) && x.token@
                == token@ && x.session_id@ == sid@ && x.seq == sequence),
    {
        match &self.session_id {
            None => Command::Identify(
                Identify {
                    token: token.to_owned(),
                    properties,
                    compress: None,
                    large_threshold: None,
                    shard: None,
                    presence: None,
                    guild_subscriptions: None,
                    intents: Some(intents),
                },
            ),
            Some(sid) => Command::Resume(
                Resume::new(token.to_owned(), sid.clone(), sequence),
            ),
        }
    }

    /// Digests the first post-handshake event.
    ///
    /// On a new session the event must be the ready frame: its session id is
    /// recorded and the application sees `Online`. On a resume, an invalid
    /// session frame makes the supervisor forget the session id before any
    /// further connect attempt and reconnect as new; any other event means
    /// the resume held, so the application sees `Online` and then the event.
    pub fn after_handshake(&mut self, was_new: bool, event: Event) -> (r: Result<
        (Vec<Lifecycle>, SupervisorStep),
        crate::gateway::Error,
    >)
        ensures
            event matches Event::Ready(ready) ==> (was_new ==> (r matches Ok(p)
                && session_view(final(self).session_id) == Some(ready.session_id@)
                && final(self).user_id == Some(ready.user.id) && p.1 is Run && p.0@ == seq![
                Lifecycle::Online,
            ])),
            was_new && !(event is Ready) ==> (r is Err && final(self).session_id
                == old(self).session_id),
            !was_new && event is InvalidSession ==> (r matches Ok(p) && final(self).session_id
                is None && final(self).user_id is None && p.1 is Reconnect && p.0@ == seq![
                Lifecycle::SessionInvalidated,
            ]),
            !was_new && !(event is InvalidSession) ==> (r matches Ok(p)
                && final(self).session_id == old(self).session_id && p.1 is Run && p.0@ == seq![
                Lifecycle::Online,
                Lifecycle::Event(event),
            ]),
    {
        if was_new {
            match event {
                Event::Ready(ready) => {
                    self.session_id = Some(ready.session_id.clone());
                    self.user_id = Some(ready.user.id);
                    let mut out: Vec<Lifecycle> = Vec::new();
                    out.push(Lifecycle::Online);
                    proof {
                        assert(session_view(self.session_id) == Some(ready.session_id@));
                        assert(out@ =~= seq![Lifecycle::Online]);
                    }
                    Ok((out, SupervisorStep::Run))
                },
                _ => Err(crate::gateway::Error::UnexpectedEvent),
            }
        } else {
            match event {
                Event::InvalidSession(_) => {
                    self.session_id = None;
                    self.user_id = None;
                    let mut out: Vec<Lifecycle> = Vec::new();
                    out.push(Lifecycle::SessionInvalidated);
                    proof {
                        assert(out@ =~= seq![Lifecycle::SessionInvalidated]);
                    }
                    Ok((out, SupervisorStep::Reconnect))
                },
                e => {
                    let mut out: Vec<Lifecycle> = Vec::new();
                    out.push(Lifecycle::Online);
                    let ghost ev = e;
                    out.push(Lifecycle::Event(e));
                    proof {
                        assert(out@ =~= seq![Lifecycle::Online, Lifecycle::Event(ev)]);
                    }
                    Ok((out, SupervisorStep::Run))
                },
            }
        }
    }

    /// Decides what follows a broken connection: stop on an intended
    /// shutdown, otherwise tell the application the session is offline and
    /// retry after the flat backoff delay.
    pub fn on_connection_error(&self, shutdown: bool) -> (r: (Option<Lifecycle>, SupervisorStep,
        u64))
        ensures
            shutdown ==> (r.0 is None && r.1 is Stop),
            !shutdown ==> (r.0 matches Some(l) && l is Offline && r.1 is Reconnect && r.2
                == 3000),
    {
        if shutdown {
            (None, SupervisorStep::Stop, 0)
        } else {
            (Some(Lifecycle::Offline), SupervisorStep::Reconnect, 3000)
        }
    }
}

} // verus!
