//! The voice control plane: the voice gateway's wire codec and the state
//! machine that negotiates the transport.

use vstd::prelude::*;

use crate::json::{get_field, jv, jv_as_bool, jv_as_str, jv_as_u64, jv_get, value_as_array,
    value_as_str, value_as_u64, Jv};
use crate::protocol::fields::{spec_field_str, spec_field_u64};
use crate::protocol::records::{arr_of, jvs, lemma_arr_of_err};
use crate::protocol::{perr_view, PErr, ProtocolError};
use crate::snowflake::Snowflake;
use crate::text::{chars_to_string, jstr, push_digits, push_json_string, push_str_chars,
    seq_cat_empty_left, spec_digits, str_eq};

verus! {

/// The one encryption mode this client supports.
pub fn encryption_mode() -> (r: &'static str)
    ensures
        r@ == "xsalsa20_poly1305"@,
{
    "xsalsa20_poly1305"
}

/// The voice credential triple plus the identity needed to open the voice
/// gateway; all of it must be present before connecting.
pub struct Credentials {
    pub guild_id: Snowflake,
    pub user_id: Snowflake,
    pub session_id: String,
    pub token: String,
    pub endpoint: String,
}

/// The ready frame of the voice gateway: transport address and the
/// encryption modes on offer.
pub struct VoiceReady {
    pub ssrc: u32,
    pub ip: String,
    pub port: u16,
    pub modes: Vec<String>,
}

/// The session description: the negotiated mode and the secret key, which
/// the decoder accepts only at exactly 32 bytes.
pub struct SessionDescription {
    pub mode: String,
    pub secret_key: Vec<u8>,
}

/// An inbound voice gateway event.
pub enum VoiceEvent {
    Hello { heartbeat_interval: u64 },
    Ready(VoiceReady),
    SessionDescription(SessionDescription),
    Resumed,
    HeartbeatAck,
    Unknown(String),
}

pub enum VoiceEventV {
    Hello { heartbeat_interval: u64 },
    Ready { ssrc: u32, ip: Seq<char>, port: u16, modes: Seq<Seq<char>> },
    SessionDescription { mode: Seq<char>, secret_key: Seq<u8> },
    Resumed,
    HeartbeatAck,
    Unknown(Seq<char>),
}

impl View for VoiceEvent {
    type V = VoiceEventV;

    open spec fn view(&self) -> VoiceEventV {
        match self {
            VoiceEvent::Hello { heartbeat_interval } => VoiceEventV::Hello {
                heartbeat_interval: *heartbeat_interval,
            },
            VoiceEvent::Ready(r) => VoiceEventV::Ready {
                ssrc: r.ssrc,
                ip: r.ip@,
                port: r.port,
                modes: r.modes@.map_values(|s: String| s@),
            },
            VoiceEvent::SessionDescription(d) => VoiceEventV::SessionDescription {
                mode: d.mode@,
                secret_key: d.secret_key@,
            },
            VoiceEvent::Resumed => VoiceEventV::Resumed,
            VoiceEvent::HeartbeatAck => VoiceEventV::HeartbeatAck,
            VoiceEvent::Unknown(s) => VoiceEventV::Unknown(s@),
        }
    }
}

/// A string element of the modes array.
pub open spec fn mode_of(j: Jv) -> Result<Seq<char>, PErr> {
    match jv_as_str(j) {
        Some(s) => Ok(s),
        None => Err(PErr::Invalid("modes"@)),
    }
}

pub open spec fn modes_of(items: Seq<Jv>) -> Result<Seq<Seq<char>>, PErr> {
    arr_of(items, |j: Jv| mode_of(j))
}

/// A byte element of the secret key array.
pub open spec fn key_byte_of(j: Jv) -> Result<u8, PErr> {
    match jv_as_u64(j) {
        Some(n) => if n <= 255 {
            Ok(n as u8)
        } else {
            Err(PErr::Invalid("secret_key"@))
        },
        None => Err(PErr::Invalid("secret_key"@)),
    }
}

pub open spec fn key_bytes_of(items: Seq<Jv>) -> Result<Seq<u8>, PErr> {
    arr_of(items, |j: Jv| key_byte_of(j))
}

fn parse_modes(items: &Vec<serde_json::Value>) -> (r: Result<Vec<String>, ProtocolError>)
    ensures
        match r {
            Ok(ms) => modes_of(jvs(items@)) == Ok::<Seq<Seq<char>>, PErr>(
                ms@.map_values(|s: String| s@),
            ),
            Err(e) => modes_of(jvs(items@)) == Err::<Seq<Seq<char>>, PErr>(perr_view(e)),
        },
{
    let ghost ji = jvs(items@);
    let mut out: Vec<String> = Vec::new();
    let mut i: usize = 0;
    proof {
        assert(out@.map_values(|s: String| s@) =~= Seq::<Seq<char>>::empty());
    }
    while i < items.len()
        invariant
            0 <= i <= items@.len(),
            ji == jvs(items@),
            arr_of(ji.take(i as int), |j: Jv| mode_of(j)) == Ok::<Seq<Seq<char>>, PErr>(
                out@.map_values(|s: String| s@),
            ),
        decreases items@.len() - i,
    {
        proof {
            assert(ji.take(i + 1).drop_last() =~= ji.take(i as int));
            assert(ji.take(i + 1).last() == ji[i as int]);
            assert(ji[i as int] == jv(items@[i as int]));
        }
        match value_as_str(&items[i]) {
            Some(s) => {
                let ghost old_map = out@.map_values(|s: String| s@);
                let owned = s.to_owned();
                let ghost sv = owned@;
                out.push(owned);
                proof {
                    assert(out@.map_values(|s: String| s@) =~= old_map.push(sv));
                    assert(arr_of(ji.take(i + 1), |j: Jv| mode_of(j)) == Ok::<
                        Seq<Seq<char>>,
                        PErr,
                    >(out@.map_values(|s: String| s@)));
                }
            },
            None => {
                proof {
                    lemma_arr_of_err(ji, |j: Jv| mode_of(j), i + 1);
                }
                return Err(ProtocolError::InvalidField("modes"));
            },
        }
        i = i + 1;
    }
    proof {
        assert(ji.take(i as int) =~= ji);
    }
    Ok(out)
}

fn parse_key_bytes(items: &Vec<serde_json::Value>) -> (r: Result<Vec<u8>, ProtocolError>)
    ensures
        match r {
            Ok(bs) => key_bytes_of(jvs(items@)) == Ok::<Seq<u8>, PErr>(bs@),
            Err(e) => key_bytes_of(jvs(items@)) == Err::<Seq<u8>, PErr>(perr_view(e)),
        },
{
    let ghost ji = jvs(items@);
    let mut out: Vec<u8> = Vec::new();
    let mut i: usize = 0;
    while i < items.len()
        invariant
            0 <= i <= items@.len(),
            ji == jvs(items@),
            arr_of(ji.take(i as int), |j: Jv| key_byte_of(j)) == Ok::<Seq<u8>, PErr>(out@),
        decreases items@.len() - i,
    {
        proof {
            assert(ji.take(i + 1).drop_last() =~= ji.take(i as int));
            assert(ji.take(i + 1).last() == ji[i as int]);
            assert(ji[i as int] == jv(items@[i as int]));
        }
        match value_as_u64(&items[i]) {
            Some(n) if n <= 255 => {
                out.push(n as u8);
            },
            _ => {
                proof {
                    lemma_arr_of_err(ji, |j: Jv| key_byte_of(j), i + 1);
                }
                return Err(ProtocolError::InvalidField("secret_key"));
            },
        }
        i = i + 1;
    }
    proof {
        assert(ji.take(i as int) =~= ji);
    }
    Ok(out)
}

pub open spec fn voice_ready_of(d: Jv) -> Result<VoiceEventV, PErr> {
    if spec_field_u64(d, "ssrc"@).is_none() || spec_field_u64(d, "ssrc"@).unwrap() > u32::MAX {
        Err(PErr::Missing("ssrc"@))
    } else if spec_field_str(d, "ip"@).is_none() {
        Err(PErr::Missing("ip"@))
    } else if spec_field_u64(d, "port"@).is_none() || spec_field_u64(d, "port"@).unwrap()
        > u16::MAX {
        Err(PErr::Missing("port"@))
    } else {
        match crate::protocol::records::spec_field_arr(d, "modes"@) {
            None => Err(PErr::Missing("modes"@)),
            Some(items) => match modes_of(items) {
                Err(e) => Err(e),
                Ok(modes) => Ok(
                    VoiceEventV::Ready {
                        ssrc: spec_field_u64(d, "ssrc"@).unwrap() as u32,
                        ip: spec_field_str(d, "ip"@).unwrap(),
                        port: spec_field_u64(d, "port"@).unwrap() as u16,
                        modes,
                    },
                ),
            },
        }
    }
}

pub open spec fn session_description_of(d: Jv) -> Result<VoiceEventV, PErr> {
    if spec_field_str(d, "mode"@).is_none() {
        Err(PErr::Missing("mode"@))
    } else {
        match crate::protocol::records::spec_field_arr(d, "secret_key"@) {
            None => Err(PErr::Missing("secret_key"@)),
            Some(items) => match key_bytes_of(items) {
                Err(e) => Err(e),
                Ok(key) => if key.len() != 32 {
                    Err(PErr::Invalid("secret_key"@))
                } else {
                    Ok(
                        VoiceEventV::SessionDescription {
                            mode: spec_field_str(d, "mode"@).unwrap(),
                            secret_key: key,
                        },
                    )
                },
            },
        }
    }
}

/// The event denoted by a voice gateway frame: dispatch on the opcode.
pub open spec fn voice_event_of(j: Jv) -> Result<VoiceEventV, PErr> {
    match spec_field_u64(j, "op"@) {
        None => Err(PErr::Missing("op"@)),
        Some(op) => match jv_get(j, "d"@) {
            None => Err(PErr::Missing("d"@)),
            Some(d) => if op == 8 {
                match spec_field_u64(d, "heartbeat_interval"@) {
                    Some(n) => Ok(VoiceEventV::Hello { heartbeat_interval: n }),
                    None => Err(PErr::Missing("heartbeat_interval"@)),
                }
            } else if op == 2 {
                voice_ready_of(d)
            } else if op == 4 {
                session_description_of(d)
            } else if op == 9 {
                Ok(VoiceEventV::Resumed)
            } else if op == 6 {
                Ok(VoiceEventV::HeartbeatAck)
            } else {
                Ok(VoiceEventV::Unknown(spec_digits(op)))
            },
        },
    }
}

/// Decodes one voice gateway frame.
pub fn decode_voice_event(v: &serde_json::Value) -> (r: Result<VoiceEvent, ProtocolError>)
    ensures
        match r {
            Ok(e) => voice_event_of(jv(*v)) == Ok::<VoiceEventV, PErr>(e@),
            Err(e) => voice_event_of(jv(*v)) == Err::<VoiceEventV, PErr>(perr_view(e)),
        },
{
    let op = match crate::protocol::fields::field_u64(v, "op") {
        Some(n) => n,
        None => {
            return Err(ProtocolError::MissingField("op"));
        },
    };
    let d = match get_field(v, "d") {
        Some(f) => f,
        None => {
            return Err(ProtocolError::MissingField("d"));
        },
    };
    if op == 8 {
        match crate::protocol::fields::field_u64(d, "heartbeat_interval") {
            Some(n) => Ok(VoiceEvent::Hello { heartbeat_interval: n }),
            None => Err(ProtocolError::MissingField("heartbeat_interval")),
        }
    } else if op == 2 {
        let ssrc = match crate::protocol::fields::field_u64(d, "ssrc") {
            Some(n) if n <= u32::MAX as u64 => n as u32,
            _ => {
                return Err(ProtocolError::MissingField("ssrc"));
            },
        };
        let ip = match crate::protocol::fields::field_str(d, "ip") {
            Some(s) => s,
            None => {
                return Err(ProtocolError::MissingField("ip"));
            },
        };
        let port = match crate::protocol::fields::field_u64(d, "port") {
            Some(n) if n <= u16::MAX as u64 => n as u16,
            _ => {
                return Err(ProtocolError::MissingField("port"));
            },
        };
        let modes = match crate::protocol::records::field_array(d, "modes") {
            Some(items) => match parse_modes(items) {
                Ok(ms) => ms,
                Err(e) => {
                    return Err(e);
                },
            },
            None => {
                return Err(ProtocolError::MissingField("modes"));
            },
        };
        Ok(VoiceEvent::Ready(VoiceReady { ssrc, ip, port, modes }))
    } else if op == 4 {
        let mode = match crate::protocol::fields::field_str(d, "mode") {
            Some(s) => s,
            None => {
                return Err(ProtocolError::MissingField("mode"));
            },
        };
        let secret_key = match crate::protocol::records::field_array(d, "secret_key") {
            Some(items) => match parse_key_bytes(items) {
                Ok(bs) => bs,
                Err(e) => {
                    return Err(e);
                },
            },
            None => {
                return Err(ProtocolError::MissingField("secret_key"));
            },
        };
        if secret_key.len() != 32 {
            return Err(ProtocolError::InvalidField("secret_key"));
        }
        Ok(VoiceEvent::SessionDescription(SessionDescription { mode, secret_key }))
    } else if op == 9 {
        Ok(VoiceEvent::Resumed)
    } else if op == 6 {
        Ok(VoiceEvent::HeartbeatAck)
    } else {
        Ok(VoiceEvent::Unknown(crate::text::u64_to_string(op)))
    }
}

/// An outbound voice gateway command.
pub enum VoiceCommand {
    /// Opens a new voice session.
    Identify { server_id: Snowflake, user_id: Snowflake, session_id: String, token: String },
    /// Resumes an interrupted voice session.
    Resume { server_id: Snowflake, session_id: String, token: String },
    /// The periodic heartbeat; the counter increments each send.
    Heartbeat { count: u64 },
    /// Selects the transport after address discovery.
    SelectProtocol { address: String, port: u16 },
    /// Announces speaking with the microphone flag.
    Speaking { speaking: u64, delay: u64, ssrc: u32 },
}

pub open spec fn render_voice_command(c: VoiceCommand) -> Seq<char> {
    match c {
        VoiceCommand::Identify { server_id, user_id, session_id, token } => {
            "{\"op\":0,\"d\":{\"server_id\":"@ + crate::gateway::command::qid(server_id.value)
                + ",\"user_id\":"@ + crate::gateway::command::qid(user_id.value)
                + ",\"session_id\":"@ + jstr(session_id@) + ",\"token\":"@ + jstr(token@) + "}}"@
        },
        VoiceCommand::Resume { server_id, session_id, token } => {
            "{\"op\":7,\"d\":{\"server_id\":"@ + crate::gateway::command::qid(server_id.value)
                + ",\"session_id\":"@ + jstr(session_id@) + ",\"token\":"@ + jstr(token@) + "}}"@
        },
        VoiceCommand::Heartbeat { count } => "{\"op\":3,\"d\":"@ + spec_digits(count) + "}"@,
        VoiceCommand::SelectProtocol { address, port } => {
            "{\"op\":1,\"d\":{\"protocol\":\"udp\",\"data\":{\"address\":"@ + jstr(address@)
                + ",\"port\":"@ + spec_digits(port as u64)
                + ",\"mode\":\"xsalsa20_poly1305\"}}}"@
        },
        VoiceCommand::Speaking { speaking, delay, ssrc } => {
            "{\"op\":5,\"d\":{\"speaking\":"@ + spec_digits(speaking) + ",\"delay\":"@
                + spec_digits(delay) + ",\"ssrc\":"@ + spec_digits(ssrc as u64) + "}}"@
        },
    }
}

/// Encodes a voice command as its exact wire text.
pub fn encode_voice_command(c: &VoiceCommand) -> (r: String)
    ensures
        r@ == render_voice_command(*c),
{
    let mut out: Vec<char> = Vec::new();
    match c {
        VoiceCommand::Identify { server_id, user_id, session_id, token } => {
            push_str_chars(&mut out, "{\"op\":0,\"d\":{\"server_id\":");
            proof {
                seq_cat_empty_left("{\"op\":0,\"d\":{\"server_id\":"@);
            }
            crate::gateway::command::push_qid(&mut out, server_id.value);
            push_str_chars(&mut out, ",\"user_id\":");
            crate::gateway::command::push_qid(&mut out, user_id.value);
            push_str_chars(&mut out, ",\"session_id\":");
            push_json_string(&mut out, session_id.as_str());
            push_str_chars(&mut out, ",\"token\":");
            push_json_string(&mut out, token.as_str());
            push_str_chars(&mut out, "}}");
            proof {
                assert(out@ == render_voice_command(*c));
            }
        },
        VoiceCommand::Resume { server_id, session_id, token } => {
            push_str_chars(&mut out, "{\"op\":7,\"d\":{\"server_id\":");
            proof {
                seq_cat_empty_left("{\"op\":7,\"d\":{\"server_id\":"@);
            }
            crate::gateway::command::push_qid(&mut out, server_id.value);
            push_str_chars(&mut out, ",\"session_id\":");
            push_json_string(&mut out, session_id.as_str());
            push_str_chars(&mut out, ",\"token\":");
            push_json_string(&mut out, token.as_str());
            push_str_chars(&mut out, "}}");
            proof {
                assert(out@ == render_voice_command(*c));
            }
        },
        VoiceCommand::Heartbeat { count } => {
            push_str_chars(&mut out, "{\"op\":3,\"d\":");
            proof {
                seq_cat_empty_left("{\"op\":3,\"d\":"@);
            }
            push_digits(&mut out, *count);
            push_str_chars(&mut out, "}");
            proof {
                assert(out@ == render_voice_command(*c));
            }
        },
        VoiceCommand::SelectProtocol { address, port } => {
            push_str_chars(&mut out, "{\"op\":1,\"d\":{\"protocol\":\"udp\",\"data\":{\"address\":");
            proof {
                seq_cat_empty_left("{\"op\":1,\"d\":{\"protocol\":\"udp\",\"data\":{\"address\":"@);
            }
            push_json_string(&mut out, address.as_str());
            push_str_chars(&mut out, ",\"port\":");
            push_digits(&mut out, *port as u64);
            push_str_chars(&mut out, ",\"mode\":\"xsalsa20_poly1305\"}}}");
            proof {
                assert(out@ == render_voice_command(*c));
            }
        },
        VoiceCommand::Speaking { speaking, delay, ssrc } => {
            push_str_chars(&mut out, "{\"op\":5,\"d\":{\"speaking\":");
            proof {
                seq_cat_empty_left("{\"op\":5,\"d\":{\"speaking\":"@);
            }
            push_digits(&mut out, *speaking);
            push_str_chars(&mut out, ",\"delay\":");
            push_digits(&mut out, *delay);
            push_str_chars(&mut out, ",\"ssrc\":");
            push_digits(&mut out, *ssrc as u64);
            push_str_chars(&mut out, "}}");
            proof {
                assert(out@ == render_voice_command(*c));
            }
        },
    }
    chars_to_string(&out)
}

/// True when one of the advertised modes is the supported one.
pub fn modes_supported(modes: &Vec<String>) -> (r: bool)
    ensures
        r == exists|i: int|
            0 <= i < modes@.len() && (#[trigger] modes@[i])@ == "xsalsa20_poly1305"@,
{
    let mut i: usize = 0;
    while i < modes.len()
        invariant
            0 <= i <= modes@.len(),
            forall|k: int| 0 <= k < i ==> (#[trigger] modes@[k])@ != "xsalsa20_poly1305"@,
        decreases modes@.len() - i,
    {
        if str_eq(modes[i].as_str(), "xsalsa20_poly1305") {
            return true;
        }
        i = i + 1;
    }
    false
}

/// The control plane's connection state.
#[derive(Clone, Copy, Debug, PartialEq, Eq, Structural)]
pub enum ControlState {
    Idle,
    Connecting,
    Connected,
}

/// What the control plane does after digesting one gateway event.
pub enum ControlAction {
    /// Keep listening.
    Continue,
    /// The handshake completed; tell the owner the plane is connected and
    /// open the transport socket toward the given address.
    OpenTransport { ip: String, port: u16, ssrc: u32 },
    /// Tear the plane down: the advertised encryption modes lack the
    /// supported one. No protocol selection is ever sent for this session.
    RejectModes,
    /// Tear the plane down: the session description named a different mode.
    RejectDescription,
    /// Hand the 32-byte secret key to the transport.
    DeliverKey(Vec<u8>),
}

/// The voice control plane: state, the negotiated ssrc, and whether the
/// external address has been selected yet.
pub struct VoiceControl {
    pub state: ControlState,
    pub ssrc: Option<u32>,
    pub external_sent: bool,
}

impl VoiceControl {
    /// A plane that has just started connecting.
    pub fn new() -> (r: VoiceControl)
        ensures
            r.state is Connecting,
            r.ssrc is None,
            !r.external_sent,
    {
        VoiceControl { state: ControlState::Connecting, ssrc: None, external_sent: false }
    }

    /// Digests one voice gateway event.
    ///
    /// A ready frame whose modes lack the supported encryption tears the
    /// plane down before any protocol selection; one that offers it records
    /// the ssrc, connects the plane and opens the transport. A session
    /// description with the wrong mode tears the plane down; the right mode
    /// hands the key on. Everything else is kept alive unchanged.
    pub fn on_event(&mut self, event: VoiceEvent) -> (r: ControlAction)
        ensures
            ({
                let ev = event@;
                match ev {
                    VoiceEventV::Ready { ssrc, ip, port, modes } => {
                        if !(exists|i: int| 0 <= i < modes.len() && modes[i] == "xsalsa20_poly1305"@) {
                            r is RejectModes && *final(self) == *old(self)
                        } else {
                            (r matches ControlAction::OpenTransport { ip: rip, port: rport, ssrc: rssrc }
                                && rip@ == ip && rport == port && rssrc == ssrc)
                                && final(self).state is Connected && final(self).ssrc == Some(ssrc)
                                && final(self).external_sent == old(self).external_sent
                        }
                    },
                    VoiceEventV::SessionDescription { mode, secret_key } => {
                        &&& *final(self) == *old(self)
                        &&& if mode != "xsalsa20_poly1305"@ {
                            r is RejectDescription
                        } else {
                            r matches ControlAction::DeliverKey(k) && k@ == secret_key
                        }
                    },
                    _ => r is Continue && *final(self) == *old(self),
                }
            }),
    {
        match event {
            VoiceEvent::Ready(ready) => {
                if !modes_supported(&ready.modes) {
                    proof {
                        let ghost mv = ready.modes@.map_values(|s: String| s@);
                        assert forall|i: int|
                            0 <= i < mv.len() implies #[trigger] mv[i] != "xsalsa20_poly1305"@ by {
                            assert(mv[i] == ready.modes@[i]@);
                        }
                    }
                    ControlAction::RejectModes
                } else {
                    proof {
                        let w = choose|i: int|
                            0 <= i < ready.modes@.len() && (#[trigger] ready.modes@[i])@
                                == "xsalsa20_poly1305"@;
                        assert(ready.modes@.map_values(|s: String| s@)[w]
                            == "xsalsa20_poly1305"@);
                    }
                    self.state = ControlState::Connected;
                    self.ssrc = Some(ready.ssrc);
                    ControlAction::OpenTransport { ip: ready.ip, port: ready.port, ssrc: ready.ssrc }
                }
            },
            VoiceEvent::SessionDescription(desc) => {
                if !str_eq(desc.mode.as_str(), "xsalsa20_poly1305") {
                    ControlAction::RejectDescription
                } else {
                    ControlAction::DeliverKey(desc.secret_key)
                }
            },
            _ => ControlAction::Continue,
        }
    }

    /// The commands to send once address discovery yields the externally
    /// observed address: select the transport, then announce speaking with
    /// the microphone flag. Sent at most once per session.
    pub fn on_address_discovered(&mut self, address: String, port: u16) -> (r: Option<
        (VoiceCommand, VoiceCommand),
    >)
        ensures
            old(self).external_sent ==> (r is None && *final(self) == *old(self)),
            !old(self).external_sent ==> (final(self).external_sent && (match r {
                Some(p) => p.0 matches VoiceCommand::SelectProtocol { address: a, port: pt }
                    && a@ == address@ && pt == port && (p.1 matches VoiceCommand::Speaking {
                    speaking,
                    delay,
                    ssrc,
                } && speaking == 1 && delay == 0 && Some(ssrc) == old(self).ssrc),
                None => old(self).ssrc is None,
            })),
    {
        if self.external_sent {
            return None;
        }
        self.external_sent = true;
        match self.ssrc {
            Some(ssrc) => Some(
                (
                    VoiceCommand::SelectProtocol { address, port },
                    VoiceCommand::Speaking { speaking: 1, delay: 0, ssrc },
                ),
            ),
            None => None,
        }
    }
}


/// True when the endpoint text ends in the default TLS port suffix.
pub open spec fn has_port_suffix(s: Seq<char>) -> bool {
    s.len() >= 4 && s[s.len() - 4] == ':' && s[s.len() - 3] == '4' && s[s.len() - 2] == '4'
        && s[s.len() - 1] == '3'
}

/// The host to dial: the advertised endpoint stripped of a trailing ":443".
pub open spec fn spec_endpoint_host(s: Seq<char>) -> Seq<char> {
    if has_port_suffix(s) {
        s.take(s.len() - 4)
    } else {
        s
    }
}

/// Strips a trailing ":443" off the advertised endpoint.
pub fn endpoint_host(endpoint: &str) -> (r: String)
    ensures
        r@ == spec_endpoint_host(endpoint@),
{
    let cs = crate::text::str_chars(endpoint);
    let n = cs.len();
    let cut = n >= 4 && cs[n - 4] == ':' && cs[n - 3] == '4' && cs[n - 2] == '4' && cs[n - 1]
        == '3';
    if cut {
        let mut head: Vec<char> = Vec::new();
        let mut i: usize = 0;
        while i < n - 4
            invariant
                n == cs@.len(),
                n >= 4,
                0 <= i <= n - 4,
                head@ == cs@.take(i as int),
            decreases n - 4 - i,
        {
            head.push(cs[i]);
            proof {
                assert(head@ =~= cs@.take(i + 1));
            }
            i = i + 1;
        }
        crate::text::chars_to_string(&head)
    } else {
        crate::text::chars_to_string(&cs)
    }
}

/// The voice gateway URL: the endpoint stripped of a trailing ":443", at
/// protocol version four.
pub open spec fn spec_voice_gateway_url(endpoint: Seq<char>) -> Seq<char> {
    "wss://"@ + spec_endpoint_host(endpoint) + "/?v=4"@
}

/// Builds the voice gateway URL to dial.
pub fn voice_gateway_url(endpoint: &str) -> (r: String)
    ensures
        r@ == spec_voice_gateway_url(endpoint@),
{
    let host = endpoint_host(endpoint);
    let mut out: Vec<char> = Vec::new();
    push_str_chars(&mut out, "wss://");
    proof {
        crate::text::seq_cat_empty_left("wss://"@);
    }
    push_str_chars(&mut out, host.as_str());
    push_str_chars(&mut out, "/?v=4");
    chars_to_string(&out)
}

/// The handshake command for a voice connection: resume an interrupted
/// session with the credential triple, or identify a new one.
pub fn voice_handshake_command(cred: &Credentials, resume: bool) -> (r: VoiceCommand)
    ensures
        resume ==> (r matches VoiceCommand::Resume { server_id, session_id, token } && server_id
            == cred.guild_id && session_id@ == cred.session_id@ && token@ == cred.token@),
        !resume ==> (r matches VoiceCommand::Identify { server_id, user_id, session_id, token }
            && server_id == cred.guild_id && user_id == cred.user_id && session_id@
            == cred.session_id@ && token@ == cred.token@),
{
    if resume {
        VoiceCommand::Resume {
            server_id: cred.guild_id,
            session_id: cred.session_id.clone(),
            token: cred.token.clone(),
        }
    } else {
        VoiceCommand::Identify {
            server_id: cred.guild_id,
            user_id: cred.user_id,
            session_id: cred.session_id.clone(),
            token: cred.token.clone(),
        }
    }
}

/// Digests the reply to the voice handshake: a resume must be answered by a
/// resumed frame and yields no ready data; a new session must be answered by
/// the ready frame, which is handed back. Anything else is the wrong event.
pub fn after_voice_handshake(resume: bool, event: VoiceEvent) -> (r: Result<
    Option<VoiceReady>,
    crate::voice::Error,
>)
    ensures
        resume ==> (if event is Resumed {
            r matches Ok(o) && o is None
        } else {
            r matches Err(e) && e is UnexpectedEvent
        }),
        !resume ==> (match event {
            VoiceEvent::Ready(ready) => r matches Ok(o) && (o matches Some(x) && x == ready),
            _ => r matches Err(e) && e is UnexpectedEvent,
        }),
{
    if resume {
        match event {
            VoiceEvent::Resumed => Ok(None),
            _ => Err(crate::voice::Error::UnexpectedEvent),
        }
    } else {
        match event {
            VoiceEvent::Ready(ready) => Ok(Some(ready)),
            _ => Err(crate::voice::Error::UnexpectedEvent),
        }
    }
}

/// The voice heartbeat counter: its payload increments by one on each send.
pub struct VoiceHeartbeat {
    pub count: u64,
}

impl VoiceHeartbeat {
    pub fn new() -> (r: VoiceHeartbeat)
        ensures
            r.count == 0,
    {
        VoiceHeartbeat { count: 0 }
    }

    /// The next heartbeat to send; the counter advances with it.
    pub fn next(&mut self) -> (r: VoiceCommand)
        requires
            old(self).count < u64::MAX,
        ensures
            final(self).count == old(self).count + 1,
            r matches VoiceCommand::Heartbeat { count } && count == old(self).count + 1,
    {
        self.count = self.count + 1;
        VoiceCommand::Heartbeat { count: self.count }
    }
}

} // verus!
