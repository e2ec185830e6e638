//! The application-facing voice player: a state machine fed by guild
//! updates and application controls, deciding when to gather credentials,
//! open the control plane, and tear it down.

use vstd::prelude::*;

use crate::snowflake::Snowflake;
use crate::voice::control::Credentials;

verus! {

/// The player's lifecycle.
#[derive(Clone, Copy, Debug, PartialEq, Eq, Structural)]
pub enum State {
    Idle,
    Connecting,
    Connected,
    Shutdown,
}

impl State {
    pub fn is_connecting(&self) -> (r: bool)
        ensures
            r == (*self is Connecting),
    {
        match self {
            State::Connecting => true,
            _ => false,
        }
    }

    pub fn is_connected(&self) -> (r: bool)
        ensures
            r == (*self is Connected),
    {
        match self {
            State::Connected => true,
            _ => false,
        }
    }

    pub fn is_shutdown(&self) -> (r: bool)
        ensures
            r == (*self is Shutdown),
    {
        match self {
            State::Shutdown => true,
            _ => false,
        }
    }
}

/// What the player announces to the application.
#[derive(Clone, Copy, Debug, PartialEq, Eq, Structural)]
pub enum PlayerEvent {
    Connected { channel_id: u64 },
    ConnectError,
    Playing,
    Stopped,
    Finished,
    Disconnected,
    Reconnecting,
}

/// A guild-side update fed into the player.
pub enum PlayerUpdate {
    GuildOnline,
    GuildOffline,
    SessionInvalidated,
    ServerUpdate { token: String, endpoint: Option<String> },
    StateUpdate {
        user_id: Snowflake,
        guild_id: Option<Snowflake>,
        channel_id: Option<Snowflake>,
        session_id: String,
    },
}

/// An application-side control fed into the player.
pub enum PlayerControl {
    Connect { channel_id: Snowflake },
    Disconnect,
    Shutdown,
    Play,
    Stop,
}

/// What one step asks the surrounding tasks to do.
pub struct StepOut {
    /// Events to surface to the application, in order.
    pub events: Vec<PlayerEvent>,
    /// A voice-state command to issue on the main gateway: the channel to
    /// join, or none to leave.
    pub voice_state: Option<Option<Snowflake>>,
    /// Credentials are complete: open a control plane with them.
    pub connect: Option<Credentials>,
    /// Start the connect timer.
    pub start_timeout: bool,
}

fn empty_step() -> (r: StepOut)
    ensures
        r.events@.len() == 0,
        r.voice_state is None,
        r.connect is None,
        !r.start_timeout,
{
    StepOut { events: Vec::new(), voice_state: None, connect: None, start_timeout: false }
}

/// The voice player.
pub struct Player {
    pub guild_id: Snowflake,
    pub user_id: Snowflake,
    pub state: State,
    pub channel_id: Option<Snowflake>,
    pub session_id: Option<String>,
    pub token: Option<String>,
    pub endpoint: Option<String>,
    pub playing: bool,
}

impl Player {
    pub fn new(guild_id: Snowflake, user_id: Snowflake) -> (r: Player)
        ensures
            r.guild_id == guild_id,
            r.user_id == user_id,
            r.state is Idle,
            r.channel_id is None,
            r.session_id is None,
            r.token is None,
            r.endpoint is None,
            !r.playing,
    {
        Player {
            guild_id,
            user_id,
            state: State::Idle,
            channel_id: None,
            session_id: None,
            token: None,
            endpoint: None,
            playing: false,
        }
    }

    /// The voice credentials, when the session id, token and endpoint are
    /// all present.
    pub fn server_credentials(&self) -> (r: Option<Credentials>)
        ensures
            match r {
                Some(c) => (self.session_id matches Some(s) && c.session_id@ == s@) && (
                self.token matches Some(t) && c.token@ == t@) && (self.endpoint matches Some(e)
                    && c.endpoint@ == e@) && c.guild_id == self.guild_id && c.user_id
                    == self.user_id,
                None => self.session_id is None || self.token is None || self.endpoint is None,
            },
    {
        let session_id = match &self.session_id {
            Some(s) => s.clone(),
            None => {
                return None;
            },
        };
        let token = match &self.token {
            Some(t) => t.clone(),
            None => {
                return None;
            },
        };
        let endpoint = match &self.endpoint {
            Some(e) => e.clone(),
            None => {
                return None;
            },
        };
        Some(
            Credentials {
                guild_id: self.guild_id,
                user_id: self.user_id,
                session_id,
                token,
                endpoint,
            },
        )
    }

    /// Drops the connection state. On a reconnect the player keeps waiting
    /// (state `Connecting`, timer armed); otherwise it goes idle. Either
    /// way the credential triple is forgotten.
    fn clear_connection(&mut self, reconnect: bool, out: &mut StepOut)
        ensures
            final(self).guild_id == old(self).guild_id,
            final(self).user_id == old(self).user_id,
            final(self).channel_id is None,
            final(self).session_id is None,
            final(self).token is None,
            final(self).endpoint is None,
            !final(self).playing,
            reconnect ==> final(self).state is Connecting && final(out).start_timeout,
            !reconnect ==> final(self).state is Idle && final(out).start_timeout == old(
                out,
            ).start_timeout,
            old(self).state is Connected ==> final(out).events@.len() == old(
                out,
            ).events@.len() + 1 && final(out).events@.last() == (if reconnect {
                PlayerEvent::Reconnecting
            } else {
                PlayerEvent::Disconnected
            }),
            !(old(self).state is Connected) ==> final(out).events == old(out).events,
            final(out).voice_state == old(out).voice_state,
            final(out).connect == old(out).connect,
    {
        if self.state.is_connected() {
            if reconnect {
                out.events.push(PlayerEvent::Reconnecting);
            } else {
                out.events.push(PlayerEvent::Disconnected);
            }
        }
        if reconnect {
            self.state = State::Connecting;
            out.start_timeout = true;
        } else {
            self.state = State::Idle;
        }
        self.channel_id = None;
        self.session_id = None;
        self.token = None;
        self.endpoint = None;
        self.playing = false;
    }

    /// Completes a step: while connecting with a complete credential
    /// triple, ask for a control plane.
    fn finish_step(&self, out: &mut StepOut)
        ensures
            final(out).events == old(out).events,
            final(out).voice_state == old(out).voice_state,
            final(out).start_timeout == old(out).start_timeout,
            self.state is Connecting && self.session_id is Some && self.token is Some
                && self.endpoint is Some ==> final(out).connect is Some,
            !(self.state is Connecting) ==> final(out).connect == old(out).connect,
    {
        if self.state.is_connecting() {
            match self.server_credentials() {
                Some(cred) => {
                    out.connect = Some(cred);
                },
                None => {},
            }
        }
    }

    /// Digests one guild-side update.
    ///
    /// A voice-state update for this user records the session id and
    /// channel; a null channel while not connecting means the user was
    /// kicked, so the connection clears. A server update records the
    /// credential pair; a null endpoint while connected means the server
    /// dropped the session, so the connection clears and the gateway is
    /// told to leave. Guild offline keeps the channel so the reconnect can
    /// resume it.
    pub fn on_update(&mut self, update: PlayerUpdate) -> (r: StepOut)
        ensures
            final(self).guild_id == old(self).guild_id,
            final(self).user_id == old(self).user_id,
            final(self).state is Connecting && final(self).session_id is Some
                && final(self).token is Some && final(self).endpoint is Some ==> r.connect
                is Some,
            update matches PlayerUpdate::StateUpdate {
                user_id,
                guild_id,
                channel_id,
                session_id,
            } ==> ((user_id != old(self).user_id || guild_id != Some(old(self).guild_id))
                ==> *final(self) == *old(self)),
            update matches PlayerUpdate::StateUpdate {
                user_id,
                guild_id,
                channel_id,
                session_id,
            } ==> (user_id == old(self).user_id && guild_id == Some(old(self).guild_id) ==> ({
                &&& final(self).session_id matches Some(s) && s@ == session_id@
                &&& final(self).channel_id == channel_id
                &&& (old(self).state is Connecting ==> final(self).state == old(self).state)
                &&& (!(old(self).state is Connecting) && channel_id is Some ==> final(self).state
                    is Connecting && r.start_timeout)
                &&& (!(old(self).state is Connecting) && channel_id is None ==> final(self).state
                    is Idle)
                &&& (old(self).state is Connected ==> r.events@.len() >= 1 && r.events@.last()
                    == (if channel_id is Some {
                    PlayerEvent::Reconnecting
                } else {
                    PlayerEvent::Disconnected
                }))
            })),
            update matches PlayerUpdate::ServerUpdate { token, endpoint } ==> (if endpoint
                is None && old(self).state is Connected {
                final(self).state is Idle && r.voice_state == Some(None::<Snowflake>)
                    && final(self).token is None && final(self).endpoint is None
                    && r.events@.len() >= 1 && r.events@.last() == PlayerEvent::Disconnected
            } else {
                (final(self).token matches Some(t) && t@ == token@) && crate::guild::opt_str_view(
                    final(self).endpoint,
                ) == crate::guild::opt_str_view(endpoint) && final(self).state == old(self).state
                    && final(self).channel_id == old(self).channel_id && final(self).session_id
                    == old(self).session_id && r.voice_state is None
            }),
            update is GuildOnline ==> (*final(self) == *old(self) && (if old(self).state
                is Connecting && old(self).channel_id is Some {
                r.voice_state == Some(old(self).channel_id)
            } else {
                r.voice_state is None
            })),
            update is GuildOffline ==> (final(self).state is Connecting && final(self).channel_id
                == old(self).channel_id && final(self).session_id is None && final(self).token
                is None && final(self).endpoint is None && r.start_timeout && (old(self).state
                is Connected ==> r.events@.len() >= 1 && r.events@.last()
                == PlayerEvent::Reconnecting)),
            update is SessionInvalidated ==> (*final(self) == *old(self) && r.voice_state is None
                && r.events@.len() == 0),
    {
        let mut out = empty_step();
        match update {
            PlayerUpdate::StateUpdate { user_id, guild_id, channel_id, session_id } => {
                let ours = user_id.value == self.user_id.value && (match guild_id {
                    Some(g) => g.value == self.guild_id.value,
                    None => false,
                });
                proof {
                    if user_id == self.user_id && guild_id == Some(self.guild_id) {
                        assert(ours);
                    }
                    if !(user_id == self.user_id) {
                        assert(user_id.value != self.user_id.value);
                    }
                }
                if !ours {
                    self.finish_step(&mut out);
                    return out;
                }
                if !self.state.is_connecting() {
                    let reconnect = match channel_id {
                        Some(_) => true,
                        None => false,
                    };
                    self.clear_connection(reconnect, &mut out);
                }
                self.channel_id = channel_id;
                self.session_id = Some(session_id);
            },
            PlayerUpdate::ServerUpdate { token, endpoint } => {
                self.token = Some(token);
                self.endpoint = endpoint;
                let connected = self.state.is_connected();
                let gone = match self.endpoint {
                    Some(_) => false,
                    None => true,
                };
                if connected && gone {
                    self.clear_connection(false, &mut out);
                    out.voice_state = Some(None);
                }
            },
            PlayerUpdate::GuildOnline => {
                if self.state.is_connecting() {
                    match self.channel_id {
                        Some(ch) => {
                            out.voice_state = Some(Some(ch));
                        },
                        None => {},
                    }
                }
            },
            PlayerUpdate::GuildOffline => {
                let channel_id = self.channel_id;
                self.clear_connection(true, &mut out);
                self.channel_id = channel_id;
            },
            PlayerUpdate::SessionInvalidated => {},
        }
        self.finish_step(&mut out);
        out
    }

    /// Digests one application control.
    ///
    /// A connect to the channel already connected just re-announces it;
    /// any other connect tears the old session down and asks the gateway to
    /// join the channel. Disconnect and shutdown leave the channel; play
    /// starts the stream only while connected, else reports it stopped.
    pub fn on_control(&mut self, control: PlayerControl) -> (r: StepOut)
        ensures
            control matches PlayerControl::Connect { channel_id } ==> (old(self).state
                is Connected && old(self).channel_id == Some(channel_id) ==> (*final(self) == *old(
                self,
            ) && r.events@ == seq![
                PlayerEvent::Connected { channel_id: channel_id.value },
            ] && r.voice_state is None)),
            control matches PlayerControl::Connect { channel_id } ==> (!(old(self).state
                is Connected && old(self).channel_id == Some(channel_id)) ==> (final(self).state
                is Connecting && r.voice_state == Some(Some(channel_id)) && r.start_timeout && (
                old(self).state is Connected ==> r.events@ == seq![PlayerEvent::Reconnecting])
                && (!(old(self).state is Connected) ==> r.events@.len() == 0))),
            control is Disconnect ==> (final(self).state is Idle && r.voice_state == Some(
                None::<Snowflake>,
            ) && (old(self).state is Connected ==> r.events@ == seq![PlayerEvent::Disconnected])
                && (!(old(self).state is Connected) ==> r.events@.len() == 0)),
            control is Shutdown ==> (final(self).state is Shutdown && r.voice_state == Some(
                None::<Snowflake>,
            ) && (old(self).state is Connected ==> r.events@ == seq![PlayerEvent::Disconnected])
                && (!(old(self).state is Connected) ==> r.events@.len() == 0)),
            control is Play ==> (old(self).state is Connected ==> final(self).playing
                && r.events@ == seq![PlayerEvent::Playing]),
            control is Play ==> (!(old(self).state is Connected) ==> !final(self).playing
                && r.events@ == seq![PlayerEvent::Stopped]),
            control is Stop ==> (!final(self).playing && (old(self).playing ==> r.events@ == seq![
                PlayerEvent::Stopped,
            ])),
    {
        let mut out = empty_step();
        match control {
            PlayerControl::Connect { channel_id } => {
                let same = self.state.is_connected() && (match self.channel_id {
                    Some(c) => c.value == channel_id.value,
                    None => false,
                });
                proof {
                    if self.state is Connected && self.channel_id == Some(channel_id) {
                        assert(same);
                    }
                    match self.channel_id {
                        Some(c) => {
                            if c.value == channel_id.value {
                                assert(c == channel_id);
                            }
                        },
                        None => {},
                    }
                }
                if same {
                    out.events.push(PlayerEvent::Connected { channel_id: channel_id.value });
                    proof {
                        assert(out.events@ =~= seq![
                            PlayerEvent::Connected { channel_id: channel_id.value },
                        ]);
                    }
                    return out;
                }
                self.clear_connection(true, &mut out);
                out.voice_state = Some(Some(channel_id));
            },
            PlayerControl::Disconnect => {
                self.clear_connection(false, &mut out);
                out.voice_state = Some(None);
            },
            PlayerControl::Shutdown => {
                self.clear_connection(false, &mut out);
                out.voice_state = Some(None);
                self.state = State::Shutdown;
            },
            PlayerControl::Play => {
                if self.state.is_connected() {
                    self.playing = true;
                    out.events.push(PlayerEvent::Playing);
                    proof {
                        assert(out.events@ =~= seq![PlayerEvent::Playing]);
                    }
                } else {
                    self.playing = false;
                    out.events.push(PlayerEvent::Stopped);
                    proof {
                        assert(out.events@ =~= seq![PlayerEvent::Stopped]);
                    }
                }
            },
            PlayerControl::Stop => {
                if self.playing {
                    self.playing = false;
                    out.events.push(PlayerEvent::Stopped);
                    proof {
                        assert(out.events@ =~= seq![PlayerEvent::Stopped]);
                    }
                } else {
                    self.playing = false;
                }
            },
        }
        self.finish_step(&mut out);
        out
    }

    /// The control plane reported the transport ready: the player is
    /// connected and the timer stops.
    pub fn on_transport_ready(&mut self) -> (r: Option<PlayerEvent>)
        ensures
            final(self).state is Connected,
            old(self).channel_id matches Some(c) ==> r == Some(
                PlayerEvent::Connected { channel_id: c.value },
            ),
            old(self).channel_id is None ==> r is None,
    {
        self.state = State::Connected;
        match self.channel_id {
            Some(c) => Some(PlayerEvent::Connected { channel_id: c.value }),
            None => None,
        }
    }

    /// The connect timer fired: while still connecting, give up, leave the
    /// channel, and report the failure.
    pub fn on_connect_timeout(&mut self) -> (r: StepOut)
        ensures
            old(self).state is Connecting ==> (final(self).state is Idle && r.voice_state == Some(
                None::<Snowflake>,
            ) && r.events@.last() == PlayerEvent::ConnectError),
            !(old(self).state is Connecting) ==> *final(self) == *old(self),
    {
        let mut out = empty_step();
        if self.state.is_connecting() {
            self.clear_connection(false, &mut out);
            out.voice_state = Some(None);
            out.events.push(PlayerEvent::ConnectError);
        }
        out
    }

    /// The stream finished on its own.
    pub fn on_stream_end(&mut self) -> (r: PlayerEvent)
        ensures
            !final(self).playing,
            r is Finished,
    {
        self.playing = false;
        PlayerEvent::Finished
    }
}

} // verus!
