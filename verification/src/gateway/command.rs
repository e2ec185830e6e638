//! Outbound gateway commands and their wire encoding.
//!
//! Each command serializes as the JSON object `{"op": <opcode>, "d": <body>}`.
//! The encoder is specified character for character: [`render_command`] is the
//! exact text sent on the wire.

use vstd::prelude::*;

use super::Properties;
use crate::intents::Intents;
use crate::snowflake::Snowflake;
use crate::text::{chars_to_string, jstr, push_digits, push_json_string, push_str_chars,
    seq_cat_assoc, seq_cat_empty_left, seq_cat_empty_right, spec_digits};

verus! {

/// The periodic heartbeat; its body is the last sequence seen.
pub struct Heartbeat {
    pub sequence: u64,
}

/// An activity entry of a presence; its fields are unused here.
pub struct Activity {}

/// The presence carried by a status update.
pub struct Presence {
    pub since: Option<u64>,
    pub game: Option<Activity>,
    pub status: String,
    pub afk: bool,
}

/// Opens a new session.
pub struct Identify {
    pub token: String,
    pub properties: Properties,
    pub compress: Option<bool>,
    pub large_threshold: Option<u8>,
    pub shard: Option<(u8, u8)>,
    pub presence: Option<Presence>,
    pub guild_subscriptions: Option<bool>,
    pub intents: Option<Intents>,
}

impl Identify {
    /// A plain identify: no compression, no shard, and the constructor's own
    /// intent set — the guild group without webhooks and typing
    /// notifications, the decimal 2015.
    pub fn new(token: String, properties: Properties) -> (r: Identify)
        ensures
            r.token == token,
            r.properties == properties,
            r.compress is None,
            r.large_threshold is None,
            r.shard is None,
            r.presence is None,
            r.guild_subscriptions is None,
            r.intents matches Some(i) && i.bits == 2015u16,
    {
        let intents = Intents::guild_all().toggle(Intents::guild_webhooks()).toggle(
            Intents::guild_message_typing(),
        );
        proof {
            assert(4095u16 ^ (1u16 << 5) ^ (1u16 << 11) == 2015u16) by (bit_vector);
        }
        Identify {
            token,
            properties,
            compress: None,
            large_threshold: None,
            shard: None,
            presence: None,
            guild_subscriptions: None,
            intents: Some(intents),
        }
    }
}

/// Resumes an earlier session from the last sequence seen.
pub struct Resume {
    pub token: String,
    pub session_id: String,
    pub seq: u64,
}

impl Resume {
    pub fn new(token: String, session_id: String, seq: u64) -> (r: Resume)
        ensures
            r.token == token,
            r.session_id == session_id,
            r.seq == seq,
    {
        Resume { token, session_id, seq }
    }
}

/// Asks the server to stream a guild's full member list.
pub struct RequestGuildMembers {
    pub guild_id: Snowflake,
    pub query: String,
    pub limit: u64,
    pub presences: Option<bool>,
    pub user_ids: Vec<Snowflake>,
    pub nonce: Option<String>,
}

/// Joins, moves within, or leaves a guild's voice channels.
pub struct UpdateVoiceState {
    pub guild_id: Snowflake,
    pub channel_id: Option<Snowflake>,
    pub self_mute: bool,
    pub self_deaf: bool,
}

/// Publishes the account's own status.
pub struct UpdateStatus {}

/// An outbound command with its associated opcode.
pub enum Command {
    Identify(Identify),
    Resume(Resume),
    Heartbeat(Heartbeat),
    RequestGuildMembers(RequestGuildMembers),
    UpdateVoiceState(UpdateVoiceState),
    UpdateStatus(UpdateStatus),
}

impl Command {
    /// The opcode under which this command is sent.
    pub fn op(&self) -> (r: u8)
        ensures
            r == spec_op(*self),
    {
        match self {
            Command::Identify(_) => 2,
            Command::Resume(_) => 6,
            Command::Heartbeat(_) => 1,
            Command::RequestGuildMembers(_) => 8,
            Command::UpdateVoiceState(_) => 4,
            Command::UpdateStatus(_) => 3,
        }
    }

    pub fn is_heartbeat(&self) -> (r: bool)
        ensures
            r == (*self is Heartbeat),
    {
        match self {
            Command::Heartbeat(_) => true,
            _ => false,
        }
    }

    /// The heartbeat command carrying `sequence`.
    pub fn heartbeat(sequence: u64) -> (r: Command)
        ensures
            r matches Command::Heartbeat(h) && h.sequence == sequence,
    {
        Command::Heartbeat(Heartbeat { sequence })
    }
}

pub open spec fn spec_op(c: Command) -> u8 {
    match c {
        Command::Identify(_) => 2,
        Command::Resume(_) => 6,
        Command::Heartbeat(_) => 1,
        Command::RequestGuildMembers(_) => 8,
        Command::UpdateVoiceState(_) => 4,
        Command::UpdateStatus(_) => 3,
    }
}

pub open spec fn render_bool(b: bool) -> Seq<char> {
    if b {
        "true"@
    } else {
        "false"@
    }
}

/// An id rendered as a decimal string token.
pub open spec fn qid(n: u64) -> Seq<char> {
    seq!['"'] + spec_digits(n) + seq!['"']
}

/// The members of an id array, comma separated.
pub open spec fn render_id_items(ids: Seq<u64>) -> Seq<char>
    decreases ids.len(),
{
    if ids.len() == 0 {
        Seq::empty()
    } else if ids.len() == 1 {
        qid(ids.last())
    } else {
        render_id_items(ids.drop_last()) + seq![','] + qid(ids.last())
    }
}

pub open spec fn render_properties(p: Properties) -> Seq<char> {
    "{\"$os\":"@ + jstr(p.os@) + ",\"$browser\":"@ + jstr(p.browser@) + ",\"$device\":"@ + jstr(
        p.device@,
    ) + "}"@
}

pub open spec fn render_presence(p: Presence) -> Seq<char> {
    "{\"since\":"@ + (match p.since {
        Some(n) => spec_digits(n),
        None => "null"@,
    }) + ",\"game\":"@ + (match p.game {
        Some(_) => "{}"@,
        None => "null"@,
    }) + ",\"status\":"@ + jstr(p.status@) + ",\"afk\":"@ + render_bool(p.afk) + "}"@
}

pub open spec fn render_identify(c: Identify) -> Seq<char> {
    "{\"op\":2,\"d\":{\"token\":"@ + jstr(c.token@) + ",\"properties\":"@ + render_properties(
        c.properties,
    ) + seg_compress(c.compress) + seg_large_threshold(c.large_threshold) + seg_shard(c.shard)
        + seg_presence(c.presence) + seg_guild_subscriptions(c.guild_subscriptions) + seg_intents(
        c.intents,
    ) + "}}"@
}

pub open spec fn seg_compress(o: Option<bool>) -> Seq<char> {
    match o {
        Some(b) => ",\"compress\":"@ + render_bool(b),
        None => Seq::empty(),
    }
}

pub open spec fn seg_large_threshold(o: Option<u8>) -> Seq<char> {
    match o {
        Some(n) => ",\"large_threshold\":"@ + spec_digits(n as u64),
        None => Seq::empty(),
    }
}

pub open spec fn seg_shard(o: Option<(u8, u8)>) -> Seq<char> {
    match o {
        Some(p) => ",\"shard\":["@ + spec_digits(p.0 as u64) + seq![','] + spec_digits(p.1 as u64)
            + seq![']'],
        None => Seq::empty(),
    }
}

pub open spec fn seg_presence(o: Option<Presence>) -> Seq<char> {
    match o {
        Some(p) => ",\"presence\":"@ + render_presence(p),
        None => Seq::empty(),
    }
}

pub open spec fn seg_guild_subscriptions(o: Option<bool>) -> Seq<char> {
    match o {
        Some(b) => ",\"guild_subscriptions\":"@ + render_bool(b),
        None => Seq::empty(),
    }
}

pub open spec fn seg_intents(o: Option<Intents>) -> Seq<char> {
    match o {
        Some(i) => ",\"intents\":"@ + spec_digits(i.bits as u64),
        None => Seq::empty(),
    }
}

pub open spec fn render_resume(c: Resume) -> Seq<char> {
    "{\"op\":6,\"d\":{\"token\":"@ + jstr(c.token@) + ",\"session_id\":"@ + jstr(c.session_id@)
        + ",\"seq\":"@ + spec_digits(c.seq) + "}}"@
}

pub open spec fn render_heartbeat(c: Heartbeat) -> Seq<char> {
    "{\"op\":1,\"d\":"@ + spec_digits(c.sequence) + "}"@
}

pub open spec fn render_request_guild_members(c: RequestGuildMembers) -> Seq<char> {
    "{\"op\":8,\"d\":{\"guild_id\":"@ + qid(c.guild_id.value) + ",\"query\":"@ + jstr(c.query@)
        + ",\"limit\":"@ + spec_digits(c.limit) + seg_presences(c.presences)
        + ",\"user_ids\":["@ + render_id_items(c.user_ids@.map_values(|x: Snowflake| x.value))
        + "]"@ + seg_nonce(c.nonce) + "}}"@
}

pub open spec fn seg_presences(o: Option<bool>) -> Seq<char> {
    match o {
        Some(b) => ",\"presences\":"@ + render_bool(b),
        None => Seq::empty(),
    }
}

pub open spec fn seg_nonce(o: Option<String>) -> Seq<char> {
    match o {
        Some(s) => ",\"nonce\":"@ + jstr(s@),
        None => Seq::empty(),
    }
}

pub open spec fn render_update_voice_state(c: UpdateVoiceState) -> Seq<char> {
    "{\"op\":4,\"d\":{\"guild_id\":"@ + qid(c.guild_id.value) + ",\"channel_id\":"@ + (
    match c.channel_id {
        Some(g) => qid(g.value),
        None => "null"@,
    }) + ",\"self_mute\":"@ + render_bool(c.self_mute) + ",\"self_deaf\":"@ + render_bool(
        c.self_deaf,
    ) + "}}"@
}

/// The exact wire text of a command.
pub open spec fn render_command(c: Command) -> Seq<char> {
    match c {
        Command::Identify(x) => render_identify(x),
        Command::Resume(x) => render_resume(x),
        Command::Heartbeat(x) => render_heartbeat(x),
        Command::RequestGuildMembers(x) => render_request_guild_members(x),
        Command::UpdateVoiceState(x) => render_update_voice_state(x),
        Command::UpdateStatus(_) => "{\"op\":3,\"d\":{}}"@,
    }
}

fn push_bool(out: &mut Vec<char>, b: bool)
    ensures
        final(out)@ == old(out)@ + render_bool(b),
{
    if b {
        push_str_chars(out, "true");
    } else {
        push_str_chars(out, "false");
    }
}

pub(crate) fn push_qid(out: &mut Vec<char>, n: u64)
    ensures
        final(out)@ == old(out)@ + qid(n),
{
    out.push('"');
    push_digits(out, n);
    out.push('"');
    proof {
        assert(out@ =~= old(out)@ + qid(n));
    }
}

fn push_properties(out: &mut Vec<char>, p: &Properties)
    ensures
        final(out)@ == old(out)@ + render_properties(*p),
{
    let ghost base = out@;
    let ghost mut acc: Seq<char> = "{\"$os\":"@;
    push_str_chars(out, "{\"$os\":");
    push_json_string(out, p.os.as_str());
    proof {
        seq_cat_assoc(base, acc, jstr(p.os@));
        acc = acc + jstr(p.os@);
    }
    push_str_chars(out, ",\"$browser\":");
    proof {
        seq_cat_assoc(base, acc, ",\"$browser\":"@);
        acc = acc + ",\"$browser\":"@;
    }
    push_json_string(out, p.browser.as_str());
    proof {
        seq_cat_assoc(base, acc, jstr(p.browser@));
        acc = acc + jstr(p.browser@);
    }
    push_str_chars(out, ",\"$device\":");
    proof {
        seq_cat_assoc(base, acc, ",\"$device\":"@);
        acc = acc + ",\"$device\":"@;
    }
    push_json_string(out, p.device.as_str());
    proof {
        seq_cat_assoc(base, acc, jstr(p.device@));
        acc = acc + jstr(p.device@);
    }
    push_str_chars(out, "}");
    proof {
        seq_cat_assoc(base, acc, "}"@);
        acc = acc + "}"@;
        assert(out@ == base + render_properties(*p));
    }
}

fn push_presence(out: &mut Vec<char>, p: &Presence)
    ensures
        final(out)@ == old(out)@ + render_presence(*p),
{
    let ghost base = out@;
    let ghost mut acc: Seq<char> = "{\"since\":"@;
    push_str_chars(out, "{\"since\":");
    match p.since {
        Some(n) => push_digits(out, n),
        None => push_str_chars(out, "null"),
    }
    proof {
        let piece = match p.since {
            Some(n) => spec_digits(n),
            None => "null"@,
        };
        seq_cat_assoc(base, acc, piece);
        acc = acc + piece;
    }
    push_str_chars(out, ",\"game\":");
    proof {
        seq_cat_assoc(base, acc, ",\"game\":"@);
        acc = acc + ",\"game\":"@;
    }
    match p.game {
        Some(_) => push_str_chars(out, "{}"),
        None => push_str_chars(out, "null"),
    }
    proof {
        let piece = match p.game {
            Some(_) => "{}"@,
            None => "null"@,
        };
        seq_cat_assoc(base, acc, piece);
        acc = acc + piece;
    }
    push_str_chars(out, ",\"status\":");
    proof {
        seq_cat_assoc(base, acc, ",\"status\":"@);
        acc = acc + ",\"status\":"@;
    }
    push_json_string(out, p.status.as_str());
    proof {
        seq_cat_assoc(base, acc, jstr(p.status@));
        acc = acc + jstr(p.status@);
    }
    push_str_chars(out, ",\"afk\":");
    proof {
        seq_cat_assoc(base, acc, ",\"afk\":"@);
        acc = acc + ",\"afk\":"@;
    }
    push_bool(out, p.afk);
    proof {
        seq_cat_assoc(base, acc, render_bool(p.afk));
        acc = acc + render_bool(p.afk);
    }
    push_str_chars(out, "}");
    proof {
        seq_cat_assoc(base, acc, "}"@);
        acc = acc + "}"@;
        assert(out@ == base + render_presence(*p));
    }
}

fn push_seg_compress(out: &mut Vec<char>, o: Option<bool>)
    ensures
        final(out)@ == old(out)@ + seg_compress(o),
{
    match o {
        Some(b) => {
            push_str_chars(out, ",\"compress\":");
            push_bool(out, b);
            proof {
                seq_cat_assoc(old(out)@, ",\"compress\":"@, render_bool(b));
            }
        },
        None => {
            proof {
                seq_cat_empty_right(out@);
            }
        },
    }
}

fn push_seg_large_threshold(out: &mut Vec<char>, o: Option<u8>)
    ensures
        final(out)@ == old(out)@ + seg_large_threshold(o),
{
    match o {
        Some(n) => {
            push_str_chars(out, ",\"large_threshold\":");
            push_digits(out, n as u64);
            proof {
                seq_cat_assoc(old(out)@, ",\"large_threshold\":"@, spec_digits(n as u64));
            }
        },
        None => {
            proof {
                seq_cat_empty_right(out@);
            }
        },
    }
}

fn push_seg_shard(out: &mut Vec<char>, o: Option<(u8, u8)>)
    ensures
        final(out)@ == old(out)@ + seg_shard(o),
{
    match o {
        Some(p) => {
            let ghost base = out@;
            let ghost mut acc: Seq<char> = ",\"shard\":["@;
            push_str_chars(out, ",\"shard\":[");
            push_digits(out, p.0 as u64);
            proof {
                seq_cat_assoc(base, acc, spec_digits(p.0 as u64));
                acc = acc + spec_digits(p.0 as u64);
            }
            out.push(',');
            proof {
                assert(out@ =~= base + (acc + seq![',']));
                acc = acc + seq![','];
            }
            push_digits(out, p.1 as u64);
            proof {
                seq_cat_assoc(base, acc, spec_digits(p.1 as u64));
                acc = acc + spec_digits(p.1 as u64);
            }
            out.push(']');
            proof {
                assert(out@ =~= base + (acc + seq![']']));
                acc = acc + seq![']'];
                assert(out@ == base + seg_shard(o));
            }
        },
        None => {
            proof {
                seq_cat_empty_right(out@);
            }
        },
    }
}

fn push_seg_presence(out: &mut Vec<char>, o: &Option<Presence>)
    ensures
        final(out)@ == old(out)@ + (match *o {
            Some(p) => seg_presence(Some(p)),
            None => Seq::<char>::empty(),
        }),
{
    match o {
        Some(p) => {
            push_str_chars(out, ",\"presence\":");
            push_presence(out, p);
            proof {
                seq_cat_assoc(old(out)@, ",\"presence\":"@, render_presence(*p));
            }
        },
        None => {
            proof {
                seq_cat_empty_right(out@);
            }
        },
    }
}

fn push_seg_guild_subscriptions(out: &mut Vec<char>, o: Option<bool>)
    ensures
        final(out)@ == old(out)@ + seg_guild_subscriptions(o),
{
    match o {
        Some(b) => {
            push_str_chars(out, ",\"guild_subscriptions\":");
            push_bool(out, b);
            proof {
                seq_cat_assoc(old(out)@, ",\"guild_subscriptions\":"@, render_bool(b));
            }
        },
        None => {
            proof {
                seq_cat_empty_right(out@);
            }
        },
    }
}

fn push_seg_intents(out: &mut Vec<char>, o: Option<Intents>)
    ensures
        final(out)@ == old(out)@ + seg_intents(o),
{
    match o {
        Some(i) => {
            push_str_chars(out, ",\"intents\":");
            push_digits(out, i.bits as u64);
            proof {
                seq_cat_assoc(old(out)@, ",\"intents\":"@, spec_digits(i.bits as u64));
            }
        },
        None => {
            proof {
                seq_cat_empty_right(out@);
            }
        },
    }
}

fn push_seg_presences(out: &mut Vec<char>, o: Option<bool>)
    ensures
        final(out)@ == old(out)@ + seg_presences(o),
{
    match o {
        Some(b) => {
            push_str_chars(out, ",\"presences\":");
            push_bool(out, b);
            proof {
                seq_cat_assoc(old(out)@, ",\"presences\":"@, render_bool(b));
            }
        },
        None => {
            proof {
                seq_cat_empty_right(out@);
            }
        },
    }
}

fn push_seg_nonce(out: &mut Vec<char>, o: &Option<String>)
    ensures
        final(out)@ == old(out)@ + (match *o {
            Some(s) => seg_nonce(Some(s)),
            None => Seq::<char>::empty(),
        }),
{
    match o {
        Some(s) => {
            push_str_chars(out, ",\"nonce\":");
            push_json_string(out, s.as_str());
            proof {
                seq_cat_assoc(old(out)@, ",\"nonce\":"@, jstr(s@));
            }
        },
        None => {
            proof {
                seq_cat_empty_right(out@);
            }
        },
    }
}

fn push_id_items(out: &mut Vec<char>, ids: &Vec<Snowflake>)
    ensures
        final(out)@ == old(out)@ + render_id_items(ids@.map_values(|x: Snowflake| x.value)),
{
    let ghost idsv = ids@.map_values(|x: Snowflake| x.value);
    let mut i: usize = 0;
    proof {
        seq_cat_empty_right(out@);
        assert(render_id_items(idsv.take(0)) =~= Seq::<char>::empty());
    }
    while i < ids.len()
        invariant
            0 <= i <= ids@.len(),
            idsv == ids@.map_values(|x: Snowflake| x.value),
            out@ == old(out)@ + render_id_items(idsv.take(i as int)),
        decreases ids@.len() - i,
    {
        proof {
            assert(idsv.take(i + 1).drop_last() =~= idsv.take(i as int));
            assert(idsv.take(i + 1).last() == idsv[i as int]);
        }
        if i > 0 {
            out.push(',');
            push_qid(out, ids[i].value);
            proof {
                assert(out@ =~= old(out)@ + render_id_items(idsv.take(i + 1)));
            }
        } else {
            push_qid(out, ids[i].value);
            proof {
                assert(idsv.take(1).len() == 1);
                assert(out@ =~= old(out)@ + render_id_items(idsv.take(i + 1)));
            }
        }
        i = i + 1;
    }
    proof {
        assert(idsv.take(i as int) =~= idsv);
    }
}

/// Encodes a command as its exact wire text.
pub fn encode_command(c: &Command) -> (r: String)
    ensures
        r@ == render_command(*c),
{
    let mut out: Vec<char> = Vec::new();
    match c {
        Command::Heartbeat(h) => {
            push_str_chars(&mut out, "{\"op\":1,\"d\":");
            proof {
                seq_cat_empty_left("{\"op\":1,\"d\":"@);
            }
            push_digits(&mut out, h.sequence);
            push_str_chars(&mut out, "}");
            proof {
                assert(out@ == render_command(*c));
            }
        },
        Command::Resume(x) => {
            let ghost mut acc: Seq<char> = "{\"op\":6,\"d\":{\"token\":"@;
            push_str_chars(&mut out, "{\"op\":6,\"d\":{\"token\":");
            proof {
                seq_cat_empty_left(acc);
            }
            push_json_string(&mut out, x.token.as_str());
            proof {
                acc = acc + jstr(x.token@);
            }
            push_str_chars(&mut out, ",\"session_id\":");
            proof {
                acc = acc + ",\"session_id\":"@;
            }
            push_json_string(&mut out, x.session_id.as_str());
            proof {
                acc = acc + jstr(x.session_id@);
            }
            push_str_chars(&mut out, ",\"seq\":");
            proof {
                acc = acc + ",\"seq\":"@;
            }
            push_digits(&mut out, x.seq);
            proof {
                acc = acc + spec_digits(x.seq);
            }
            push_str_chars(&mut out, "}}");
            proof {
                acc = acc + "}}"@;
                assert(out@ == render_command(*c));
            }
        },
        Command::Identify(x) => {
            push_str_chars(&mut out, "{\"op\":2,\"d\":{\"token\":");
            proof {
                seq_cat_empty_left("{\"op\":2,\"d\":{\"token\":"@);
            }
            push_json_string(&mut out, x.token.as_str());
            push_str_chars(&mut out, ",\"properties\":");
            push_properties(&mut out, &x.properties);
            push_seg_compress(&mut out, x.compress);
            push_seg_large_threshold(&mut out, x.large_threshold);
            push_seg_shard(&mut out, x.shard);
            push_seg_presence(&mut out, &x.presence);
            push_seg_guild_subscriptions(&mut out, x.guild_subscriptions);
            push_seg_intents(&mut out, x.intents);
            push_str_chars(&mut out, "}}");
            proof {
                assert(out@ == render_command(*c));
            }
        },
        Command::RequestGuildMembers(x) => {
            push_str_chars(&mut out, "{\"op\":8,\"d\":{\"guild_id\":");
            proof {
                seq_cat_empty_left("{\"op\":8,\"d\":{\"guild_id\":"@);
            }
            push_qid(&mut out, x.guild_id.value);
            push_str_chars(&mut out, ",\"query\":");
            push_json_string(&mut out, x.query.as_str());
            push_str_chars(&mut out, ",\"limit\":");
            push_digits(&mut out, x.limit);
            push_seg_presences(&mut out, x.presences);
            push_str_chars(&mut out, ",\"user_ids\":[");
            push_id_items(&mut out, &x.user_ids);
            push_str_chars(&mut out, "]");
            push_seg_nonce(&mut out, &x.nonce);
            push_str_chars(&mut out, "}}");
            proof {
                assert(out@ == render_command(*c));
            }
        },
        Command::UpdateVoiceState(x) => {
            push_str_chars(&mut out, "{\"op\":4,\"d\":{\"guild_id\":");
            proof {
                seq_cat_empty_left("{\"op\":4,\"d\":{\"guild_id\":"@);
            }
            push_qid(&mut out, x.guild_id.value);
            push_str_chars(&mut out, ",\"channel_id\":");
            match x.channel_id {
                Some(g) => push_qid(&mut out, g.value),
                None => push_str_chars(&mut out, "null"),
            }
            push_str_chars(&mut out, ",\"self_mute\":");
            push_bool(&mut out, x.self_mute);
            push_str_chars(&mut out, ",\"self_deaf\":");
            push_bool(&mut out, x.self_deaf);
            push_str_chars(&mut out, "}}");
            proof {
                assert(out@ == render_command(*c));
            }
        },
        Command::UpdateStatus(_) => {
            push_str_chars(&mut out, "{\"op\":3,\"d\":{}}");
            proof {
                seq_cat_empty_left("{\"op\":3,\"d\":{}}"@);
            }
        },
    }
    chars_to_string(&out)
}

} // verus!
