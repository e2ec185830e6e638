//! Typed events decoded from the wire envelope.
//!
//! A frame is the JSON object `{op, d, s, t}`; decoding dispatches on the
//! opcode, and for dispatch frames (op 0) on the event name in `t`. Unknown
//! opcodes and names are preserved as `Unknown`.

use vstd::prelude::*;

use super::fields::{
    field_bool, field_id, field_str, field_u64, opt_field_id, opt_field_str, spec_field_bool,
    spec_field_id, spec_field_str, spec_field_u64, spec_opt_field_id, spec_opt_field_str, OptField,
};
use super::records::{
    arr_of, field_array, guild_ids_of, jvs, lemma_arr_of_err, member_of, member_roles_of,
    members_of, message_of, of_opt, parse_channel, parse_channels, parse_guild_list, parse_ids,
    parse_member, parse_members, parse_message, parse_reaction_emoji, parse_roles, parse_user,
    channel_of, channels_of, reaction_emoji_of, role_of, roles_of, user_of, voice_state_of,
    Channel, ChannelV, GuildList, Member, MemberV, Message, MessageV, ReactionEmoji,
    ReactionEmojiV, Role, RoleV, User, UserV, VoiceState, VoiceStateV,
};
use super::{perr_view, EventError, PErr, ProtocolError};
use crate::json::{get_field, jv, jv_as_bool, jv_as_str, jv_as_u64, jv_get, obj_lookup, value_as_bool,
    value_as_str, value_as_u64, value_is_null, Jv};
use crate::snowflake::Snowflake;
use crate::text::{spec_digits, str_eq, u64_to_string};

verus! {

/// The first frame of every connection: it carries the heartbeat interval in
/// milliseconds.
pub struct Hello {
    pub heartbeat_interval: u64,
}

/// The server rejected or invalidated the session; `resumable` says whether a
/// resume may still be attempted.
pub struct InvalidSession {
    pub resumable: bool,
}

/// The guild fields consumed by the state projection.
pub struct Guild {
    pub id: Snowflake,
    pub name: String,
    pub unavailable: bool,
    pub member_count: Option<u64>,
    pub roles: Vec<Role>,
    pub members: Vec<Member>,
    pub channels: Vec<Channel>,
}

pub struct GuildV {
    pub id: u64,
    pub name: Seq<char>,
    pub unavailable: bool,
    pub member_count: Option<u64>,
    pub roles: Seq<RoleV>,
    pub members: Seq<MemberV>,
    pub channels: Seq<ChannelV>,
}

impl View for Guild {
    type V = GuildV;

    open spec fn view(&self) -> GuildV {
        GuildV {
            id: self.id.value,
            name: self.name@,
            unavailable: self.unavailable,
            member_count: self.member_count,
            roles: self.roles@.map_values(|x: Role| x@),
            members: self.members@.map_values(|x: Member| x@),
            channels: self.channels@.map_values(|x: Channel| x@),
        }
    }
}

/// An optional array field: absent means empty, any non-array is ill-shaped.
pub open spec fn opt_arr_field_of(j: Jv, k: Seq<char>) -> Result<Option<Seq<Jv>>, PErr> {
    match jv_get(j, k) {
        None => Ok(None),
        Some(f) => match f {
            Jv::Arr(items) => Ok(Some(items)),
            _ => Err(PErr::Invalid(k)),
        },
    }
}

pub open spec fn guild_roles_of(j: Jv) -> Result<Seq<RoleV>, PErr> {
    match opt_arr_field_of(j, "roles"@) {
        Err(e) => Err(e),
        Ok(None) => Ok(Seq::empty()),
        Ok(Some(items)) => roles_of(items),
    }
}

pub open spec fn guild_members_of(j: Jv) -> Result<Seq<MemberV>, PErr> {
    match opt_arr_field_of(j, "members"@) {
        Err(e) => Err(e),
        Ok(None) => Ok(Seq::empty()),
        Ok(Some(items)) => members_of(items),
    }
}

pub open spec fn guild_channels_of(j: Jv) -> Result<Seq<ChannelV>, PErr> {
    match opt_arr_field_of(j, "channels"@) {
        Err(e) => Err(e),
        Ok(None) => Ok(Seq::empty()),
        Ok(Some(items)) => channels_of(items),
    }
}

pub open spec fn guild_of(j: Jv) -> Result<GuildV, PErr> {
    if spec_field_id(j, "id"@).is_none() {
        Err(PErr::Missing("id"@))
    } else if spec_field_str(j, "name"@).is_none() {
        Err(PErr::Missing("name"@))
    } else if super::fields::spec_opt_field_bool(j, "unavailable"@) is Bad {
        Err(PErr::Invalid("unavailable"@))
    } else if super::fields::spec_opt_field_u64(j, "member_count"@) is Bad {
        Err(PErr::Invalid("member_count"@))
    } else if guild_roles_of(j) is Err {
        Err(guild_roles_of(j)->Err_0)
    } else if guild_members_of(j) is Err {
        Err(guild_members_of(j)->Err_0)
    } else if guild_channels_of(j) is Err {
        Err(guild_channels_of(j)->Err_0)
    } else {
        Ok(
            GuildV {
                id: spec_field_id(j, "id"@).unwrap(),
                name: spec_field_str(j, "name"@).unwrap(),
                unavailable: match of_opt(super::fields::spec_opt_field_bool(j, "unavailable"@)) {
                    Some(b) => b,
                    None => false,
                },
                member_count: of_opt(super::fields::spec_opt_field_u64(j, "member_count"@)),
                roles: guild_roles_of(j)->Ok_0,
                members: guild_members_of(j)->Ok_0,
                channels: guild_channels_of(j)->Ok_0,
            },
        )
    }
}

pub fn parse_guild(v: &serde_json::Value) -> (r: Result<Guild, ProtocolError>)
    ensures
        match r {
            Ok(x) => guild_of(jv(*v)) == Ok::<GuildV, PErr>(x@),
            Err(e) => guild_of(jv(*v)) == Err::<GuildV, PErr>(perr_view(e)),
        },
{
    let id = match field_id(v, "id") {
        Some(n) => Snowflake::new(n),
        None => {
            return Err(ProtocolError::MissingField("id"));
        },
    };
    let name = match field_str(v, "name") {
        Some(s) => s,
        None => {
            return Err(ProtocolError::MissingField("name"));
        },
    };
    let unavailable = match super::fields::opt_field_bool(v, "unavailable") {
        Ok(Some(b)) => b,
        Ok(None) => false,
        Err(_) => {
            return Err(ProtocolError::InvalidField("unavailable"));
        },
    };
    let member_count = match super::fields::opt_field_u64(v, "member_count") {
        Ok(c) => c,
        Err(_) => {
            return Err(ProtocolError::InvalidField("member_count"));
        },
    };
    let roles = match get_field(v, "roles") {
        None => {
            let e: Vec<Role> = Vec::new();
            proof {
                assert(e@.map_values(|x: Role| x@) =~= Seq::<RoleV>::empty());
            }
            e
        },
        Some(f) => match crate::json::value_as_array(f) {
            Some(items) => match parse_roles(items) {
                Ok(rs) => rs,
                Err(e) => {
                    return Err(e);
                },
            },
            None => {
                return Err(ProtocolError::InvalidField("roles"));
            },
        },
    };
    let members = match get_field(v, "members") {
        None => {
            let e: Vec<Member> = Vec::new();
            proof {
                assert(e@.map_values(|x: Member| x@) =~= Seq::<MemberV>::empty());
            }
            e
        },
        Some(f) => match crate::json::value_as_array(f) {
            Some(items) => match parse_members(items) {
                Ok(ms) => ms,
                Err(e) => {
                    return Err(e);
                },
            },
            None => {
                return Err(ProtocolError::InvalidField("members"));
            },
        },
    };
    let channels = match get_field(v, "channels") {
        None => {
            let e: Vec<Channel> = Vec::new();
            proof {
                assert(e@.map_values(|x: Channel| x@) =~= Seq::<ChannelV>::empty());
            }
            e
        },
        Some(f) => match crate::json::value_as_array(f) {
            Some(items) => match parse_channels(items) {
                Ok(cs) => cs,
                Err(e) => {
                    return Err(e);
                },
            },
            None => {
                return Err(ProtocolError::InvalidField("channels"));
            },
        },
    };
    Ok(Guild { id, name, unavailable, member_count, roles, members, channels })
}

/// The initial state of a new session.
pub struct Ready {
    pub v: u64,
    pub user: User,
    pub session_id: String,
    pub guilds: GuildList,
    pub application_id: Option<Snowflake>,
}

pub struct ReadyV {
    pub v: u64,
    pub user: UserV,
    pub session_id: Seq<char>,
    pub guilds: Seq<u64>,
    pub application_id: Option<u64>,
}

impl View for Ready {
    type V = ReadyV;

    open spec fn view(&self) -> ReadyV {
        ReadyV {
            v: self.v,
            user: self.user@,
            session_id: self.session_id@,
            guilds: self.guilds@,
            application_id: match self.application_id {
                Some(g) => Some(g.value),
                None => None,
            },
        }
    }
}

pub open spec fn ready_user_of(j: Jv) -> Result<UserV, PErr> {
    match jv_get(j, "user"@) {
        None => Err(PErr::Missing("user"@)),
        Some(f) => user_of(f),
    }
}

pub open spec fn ready_guilds_of(j: Jv) -> Result<Seq<u64>, PErr> {
    match jv_get(j, "guilds"@) {
        None => Err(PErr::Missing("guilds"@)),
        Some(f) => match f {
            Jv::Arr(items) => guild_ids_of(items),
            _ => Err(PErr::Missing("guilds"@)),
        },
    }
}

pub open spec fn ready_application_of(j: Jv) -> Result<Option<u64>, PErr> {
    match jv_get(j, "application"@) {
        None => Ok(None),
        Some(f) => if f is Null {
            Ok(None)
        } else {
            match spec_field_id(f, "id"@) {
                Some(n) => Ok(Some(n)),
                None => Err(PErr::Missing("application"@)),
            }
        },
    }
}

pub open spec fn ready_of(j: Jv) -> Result<ReadyV, PErr> {
    if spec_field_u64(j, "v"@).is_none() {
        Err(PErr::Missing("v"@))
    } else if ready_user_of(j) is Err {
        Err(ready_user_of(j)->Err_0)
    } else if spec_field_str(j, "session_id"@).is_none() {
        Err(PErr::Missing("session_id"@))
    } else if ready_guilds_of(j) is Err {
        Err(ready_guilds_of(j)->Err_0)
    } else if ready_application_of(j) is Err {
        Err(ready_application_of(j)->Err_0)
    } else {
        Ok(
            ReadyV {
                v: spec_field_u64(j, "v"@).unwrap(),
                user: ready_user_of(j)->Ok_0,
                session_id: spec_field_str(j, "session_id"@).unwrap(),
                guilds: ready_guilds_of(j)->Ok_0,
                application_id: ready_application_of(j)->Ok_0,
            },
        )
    }
}

pub fn parse_ready(v: &serde_json::Value) -> (r: Result<Ready, ProtocolError>)
    ensures
        match r {
            Ok(x) => ready_of(jv(*v)) == Ok::<ReadyV, PErr>(x@) && x.guilds.wf(),
            Err(e) => ready_of(jv(*v)) == Err::<ReadyV, PErr>(perr_view(e)),
        },
{
    let ver = match field_u64(v, "v") {
        Some(n) => n,
        None => {
            return Err(ProtocolError::MissingField("v"));
        },
    };
    let user = match get_field(v, "user") {
        Some(f) => match parse_user(f) {
            Ok(u) => u,
            Err(e) => {
                return Err(e);
            },
        },
        None => {
            return Err(ProtocolError::MissingField("user"));
        },
    };
    let session_id = match field_str(v, "session_id") {
        Some(s) => s,
        None => {
            return Err(ProtocolError::MissingField("session_id"));
        },
    };
    let guilds = match field_array(v, "guilds") {
        Some(items) => match parse_guild_list(items) {
            Ok(gl) => gl,
            Err(e) => {
                return Err(e);
            },
        },
        None => {
            return Err(ProtocolError::MissingField("guilds"));
        },
    };
    let application_id = match get_field(v, "application") {
        None => None,
        Some(f) => if value_is_null(f) {
            None
        } else {
            match field_id(f, "id") {
                Some(n) => Some(Snowflake::new(n)),
                None => {
                    return Err(ProtocolError::MissingField("application"));
                },
            }
        },
    };
    Ok(Ready { v: ver, user, session_id, guilds, application_id })
}


/// A message was deleted.
pub struct MessageDelete {
    pub id: Snowflake,
    pub channel_id: Snowflake,
    pub guild_id: Option<Snowflake>,
}

/// A span of messages was deleted at once.
pub struct MessageDeleteBulk {
    pub ids: Vec<Snowflake>,
    pub channel_id: Snowflake,
    pub guild_id: Option<Snowflake>,
}

/// A member joined a guild.
pub struct GuildMemberAdd {
    pub guild_id: Snowflake,
    pub member: Member,
}

/// A member left a guild.
pub struct GuildMemberRemove {
    pub guild_id: Snowflake,
    pub user: User,
}

/// A member's guild-local attributes changed.
pub struct GuildMemberUpdate {
    pub guild_id: Snowflake,
    pub roles: Vec<Snowflake>,
    pub user: User,
    pub nick: Option<String>,
    pub premium_since: Option<String>,
}

pub struct GuildMemberUpdateV {
    pub guild_id: u64,
    pub roles: Seq<u64>,
    pub user: UserV,
    pub nick: Option<Seq<char>>,
    pub premium_since: Option<Seq<char>>,
}

impl View for GuildMemberUpdate {
    type V = GuildMemberUpdateV;

    open spec fn view(&self) -> GuildMemberUpdateV {
        GuildMemberUpdateV {
            guild_id: self.guild_id.value,
            roles: self.roles@.map_values(|x: Snowflake| x.value),
            user: self.user@,
            nick: match self.nick {
                Some(ref s) => Some(s@),
                None => None,
            },
            premium_since: match self.premium_since {
                Some(ref s) => Some(s@),
                None => None,
            },
        }
    }
}

/// A bulk delivery of members, answering a member request.
pub struct GuildMembersChunk {
    pub guild_id: Snowflake,
    pub members: Vec<Member>,
}

/// A role was created.
pub struct GuildRoleCreate {
    pub guild_id: Snowflake,
    pub role: Role,
}

/// A role changed.
pub struct GuildRoleUpdate {
    pub guild_id: Snowflake,
    pub role: Role,
}

/// A role was deleted.
pub struct GuildRoleDelete {
    pub guild_id: Snowflake,
    pub role_id: Snowflake,
}

/// A guild became unavailable or was left.
pub struct GuildDelete {
    pub id: Snowflake,
    pub unavailable: bool,
}

/// A reaction was added to a message.
pub struct MessageReactionAdd {
    pub user_id: Snowflake,
    pub channel_id: Snowflake,
    pub message_id: Snowflake,
    pub guild_id: Option<Snowflake>,
    pub emoji: ReactionEmoji,
}

/// One user's reaction was removed from a message.
pub struct MessageReactionRemove {
    pub user_id: Snowflake,
    pub channel_id: Snowflake,
    pub message_id: Snowflake,
    pub guild_id: Option<Snowflake>,
    pub emoji: ReactionEmoji,
}

/// Every reaction was removed from a message.
pub struct MessageReactionRemoveAll {
    pub channel_id: Snowflake,
    pub message_id: Snowflake,
    pub guild_id: Option<Snowflake>,
}

/// Every reaction with one emoji was removed from a message.
pub struct MessageReactionRemoveEmoji {
    pub channel_id: Snowflake,
    pub message_id: Snowflake,
    pub guild_id: Option<Snowflake>,
    pub emoji: ReactionEmoji,
}

/// The voice credentials of the session moved to a new server; a null
/// endpoint means the server dropped the session.
pub struct VoiceServerUpdate {
    pub token: String,
    pub guild_id: Snowflake,
    pub endpoint: Option<String>,
}

/// An inbound event, tagged by opcode and dispatch name.
pub enum Event {
    Hello(Hello),
    Ready(Ready),
    Resumed,
    InvalidSession(InvalidSession),
    HeartbeatAck,
    GuildCreate(Guild),
    GuildUpdate(Guild),
    GuildDelete(GuildDelete),
    MessageCreate(Message),
    MessageUpdate(Message),
    MessageDelete(MessageDelete),
    MessageDeleteBulk(MessageDeleteBulk),
    GuildMemberAdd(GuildMemberAdd),
    GuildMemberRemove(GuildMemberRemove),
    GuildMemberUpdate(GuildMemberUpdate),
    GuildMembersChunk(GuildMembersChunk),
    GuildRoleCreate(GuildRoleCreate),
    GuildRoleUpdate(GuildRoleUpdate),
    GuildRoleDelete(GuildRoleDelete),
    ChannelCreate(Channel),
    ChannelUpdate(Channel),
    ChannelDelete(Channel),
    MessageReactionAdd(MessageReactionAdd),
    MessageReactionRemove(MessageReactionRemove),
    MessageReactionRemoveAll(MessageReactionRemoveAll),
    MessageReactionRemoveEmoji(MessageReactionRemoveEmoji),
    VoiceStateUpdate(VoiceState),
    VoiceServerUpdate(VoiceServerUpdate),
    ApplicationCommandCreate(super::records::ApplicationCommand),
    ApplicationCommandUpdate(super::records::ApplicationCommand),
    ApplicationCommandDelete(super::records::ApplicationCommand),
    Unknown(String),
}

/// The mathematical content of an [`Event`].
pub enum EventV {
    Hello { heartbeat_interval: u64 },
    Ready(ReadyV),
    Resumed,
    InvalidSession { resumable: bool },
    HeartbeatAck,
    GuildCreate(GuildV),
    GuildUpdate(GuildV),
    GuildDelete { id: u64, unavailable: bool },
    MessageCreate(MessageV),
    MessageUpdate(MessageV),
    MessageDelete { id: u64, channel_id: u64, guild_id: Option<u64> },
    MessageDeleteBulk { ids: Seq<u64>, channel_id: u64, guild_id: Option<u64> },
    GuildMemberAdd { guild_id: u64, member: MemberV },
    GuildMemberRemove { guild_id: u64, user: UserV },
    GuildMemberUpdate(GuildMemberUpdateV),
    GuildMembersChunk { guild_id: u64, members: Seq<MemberV> },
    GuildRoleCreate { guild_id: u64, role: RoleV },
    GuildRoleUpdate { guild_id: u64, role: RoleV },
    GuildRoleDelete { guild_id: u64, role_id: u64 },
    ChannelCreate(ChannelV),
    ChannelUpdate(ChannelV),
    ChannelDelete(ChannelV),
    MessageReactionAdd {
        user_id: u64,
        channel_id: u64,
        message_id: u64,
        guild_id: Option<u64>,
        emoji: ReactionEmojiV,
    },
    MessageReactionRemove {
        user_id: u64,
        channel_id: u64,
        message_id: u64,
        guild_id: Option<u64>,
        emoji: ReactionEmojiV,
    },
    MessageReactionRemoveAll { channel_id: u64, message_id: u64, guild_id: Option<u64> },
    MessageReactionRemoveEmoji {
        channel_id: u64,
        message_id: u64,
        guild_id: Option<u64>,
        emoji: ReactionEmojiV,
    },
    VoiceStateUpdate(VoiceStateV),
    VoiceServerUpdate { token: Seq<char>, guild_id: u64, endpoint: Option<Seq<char>> },
    ApplicationCommandCreate(super::records::ApplicationCommandV),
    ApplicationCommandUpdate(super::records::ApplicationCommandV),
    ApplicationCommandDelete(super::records::ApplicationCommandV),
    Unknown(Seq<char>),
}

impl View for Event {
    type V = EventV;

    open spec fn view(&self) -> EventV {
        match self {
            Event::Hello(h) => EventV::Hello { heartbeat_interval: h.heartbeat_interval },
            Event::Ready(r) => EventV::Ready(r@),
            Event::Resumed => EventV::Resumed,
            Event::InvalidSession(i) => EventV::InvalidSession { resumable: i.resumable },
            Event::HeartbeatAck => EventV::HeartbeatAck,
            Event::GuildCreate(g) => EventV::GuildCreate(g@),
            Event::GuildUpdate(g) => EventV::GuildUpdate(g@),
            Event::GuildDelete(g) => EventV::GuildDelete {
                id: g.id.value,
                unavailable: g.unavailable,
            },
            Event::MessageCreate(m) => EventV::MessageCreate(m@),
            Event::MessageUpdate(m) => EventV::MessageUpdate(m@),
            Event::MessageDelete(m) => EventV::MessageDelete {
                id: m.id.value,
                channel_id: m.channel_id.value,
                guild_id: match m.guild_id {
                    Some(g) => Some(g.value),
                    None => None,
                },
            },
            Event::MessageDeleteBulk(m) => EventV::MessageDeleteBulk {
                ids: m.ids@.map_values(|x: Snowflake| x.value),
                channel_id: m.channel_id.value,
                guild_id: match m.guild_id {
                    Some(g) => Some(g.value),
                    None => None,
                },
            },
            Event::GuildMemberAdd(e) => EventV::GuildMemberAdd {
                guild_id: e.guild_id.value,
                member: e.member@,
            },
            Event::GuildMemberRemove(e) => EventV::GuildMemberRemove {
                guild_id: e.guild_id.value,
                user: e.user@,
            },
            Event::GuildMemberUpdate(e) => EventV::GuildMemberUpdate(e@),
            Event::GuildMembersChunk(e) => EventV::GuildMembersChunk {
                guild_id: e.guild_id.value,
                members: e.members@.map_values(|x: Member| x@),
            },
            Event::GuildRoleCreate(e) => EventV::GuildRoleCreate {
                guild_id: e.guild_id.value,
                role: e.role@,
            },
            Event::GuildRoleUpdate(e) => EventV::GuildRoleUpdate {
                guild_id: e.guild_id.value,
                role: e.role@,
            },
            Event::GuildRoleDelete(e) => EventV::GuildRoleDelete {
                guild_id: e.guild_id.value,
                role_id: e.role_id.value,
            },
            Event::ChannelCreate(c) => EventV::ChannelCreate(c@),
            Event::ChannelUpdate(c) => EventV::ChannelUpdate(c@),
            Event::ChannelDelete(c) => EventV::ChannelDelete(c@),
            Event::MessageReactionAdd(e) => EventV::MessageReactionAdd {
                user_id: e.user_id.value,
                channel_id: e.channel_id.value,
                message_id: e.message_id.value,
                guild_id: match e.guild_id {
                    Some(g) => Some(g.value),
                    None => None,
                },
                emoji: e.emoji@,
            },
            Event::MessageReactionRemove(e) => EventV::MessageReactionRemove {
                user_id: e.user_id.value,
                channel_id: e.channel_id.value,
                message_id: e.message_id.value,
                guild_id: match e.guild_id {
                    Some(g) => Some(g.value),
                    None => None,
                },
                emoji: e.emoji@,
            },
            Event::MessageReactionRemoveAll(e) => EventV::MessageReactionRemoveAll {
                channel_id: e.channel_id.value,
                message_id: e.message_id.value,
                guild_id: match e.guild_id {
                    Some(g) => Some(g.value),
                    None => None,
                },
            },
            Event::MessageReactionRemoveEmoji(e) => EventV::MessageReactionRemoveEmoji {
                channel_id: e.channel_id.value,
                message_id: e.message_id.value,
                guild_id: match e.guild_id {
                    Some(g) => Some(g.value),
                    None => None,
                },
                emoji: e.emoji@,
            },
            Event::VoiceStateUpdate(s) => EventV::VoiceStateUpdate(s@),
            Event::VoiceServerUpdate(e) => EventV::VoiceServerUpdate {
                token: e.token@,
                guild_id: e.guild_id.value,
                endpoint: match e.endpoint {
                    Some(ref s) => Some(s@),
                    None => None,
                },
            },
            Event::ApplicationCommandCreate(c) => EventV::ApplicationCommandCreate(c@),
            Event::ApplicationCommandUpdate(c) => EventV::ApplicationCommandUpdate(c@),
            Event::ApplicationCommandDelete(c) => EventV::ApplicationCommandDelete(c@),
            Event::Unknown(s) => EventV::Unknown(s@),
        }
    }
}

/// A decoded frame: the event plus the sequence number it carried, if any.
pub struct Payload {
    pub sequence: Option<u64>,
    pub event: Event,
}

pub struct PayloadV {
    pub sequence: Option<u64>,
    pub event: EventV,
}

impl View for Payload {
    type V = PayloadV;

    open spec fn view(&self) -> PayloadV {
        PayloadV { sequence: self.sequence, event: self.event@ }
    }
}


pub open spec fn message_delete_of(d: Jv) -> Result<EventV, PErr> {
    if spec_field_id(d, "id"@).is_none() {
        Err(PErr::Missing("id"@))
    } else if spec_field_id(d, "channel_id"@).is_none() {
        Err(PErr::Missing("channel_id"@))
    } else if spec_opt_field_id(d, "guild_id"@) is Bad {
        Err(PErr::Invalid("guild_id"@))
    } else {
        Ok(
            EventV::MessageDelete {
                id: spec_field_id(d, "id"@).unwrap(),
                channel_id: spec_field_id(d, "channel_id"@).unwrap(),
                guild_id: of_opt(spec_opt_field_id(d, "guild_id"@)),
            },
        )
    }
}

fn parse_message_delete(d: &serde_json::Value) -> (r: Result<Event, ProtocolError>)
    ensures
        match r {
            Ok(e) => message_delete_of(jv(*d)) == Ok::<EventV, PErr>(e@),
            Err(e) => message_delete_of(jv(*d)) == Err::<EventV, PErr>(perr_view(e)),
        },
{
    let id = match field_id(d, "id") {
        Some(n) => Snowflake::new(n),
        None => {
            return Err(ProtocolError::MissingField("id"));
        },
    };
    let channel_id = match field_id(d, "channel_id") {
        Some(n) => Snowflake::new(n),
        None => {
            return Err(ProtocolError::MissingField("channel_id"));
        },
    };
    let guild_id = match opt_field_id(d, "guild_id") {
        Ok(Some(n)) => Some(Snowflake::new(n)),
        Ok(None) => None,
        Err(_) => {
            return Err(ProtocolError::InvalidField("guild_id"));
        },
    };
    Ok(Event::MessageDelete(MessageDelete { id, channel_id, guild_id }))
}

pub open spec fn message_delete_bulk_of(d: Jv) -> Result<EventV, PErr> {
    match super::records::spec_field_arr(d, "ids"@) {
        None => Err(PErr::Missing("ids"@)),
        Some(items) => match super::records::ids_of(items) {
            Err(e) => Err(e),
            Ok(ids) => if spec_field_id(d, "channel_id"@).is_none() {
                Err(PErr::Missing("channel_id"@))
            } else if spec_opt_field_id(d, "guild_id"@) is Bad {
                Err(PErr::Invalid("guild_id"@))
            } else {
                Ok(
                    EventV::MessageDeleteBulk {
                        ids: ids,
                        channel_id: spec_field_id(d, "channel_id"@).unwrap(),
                        guild_id: of_opt(spec_opt_field_id(d, "guild_id"@)),
                    },
                )
            },
        },
    }
}

fn parse_message_delete_bulk(d: &serde_json::Value) -> (r: Result<Event, ProtocolError>)
    ensures
        match r {
            Ok(e) => message_delete_bulk_of(jv(*d)) == Ok::<EventV, PErr>(e@),
            Err(e) => message_delete_bulk_of(jv(*d)) == Err::<EventV, PErr>(perr_view(e)),
        },
{
    let ids = match field_array(d, "ids") {
        Some(items) => match parse_ids(items) {
            Ok(ids) => ids,
            Err(e) => {
                return Err(e);
            },
        },
        None => {
            return Err(ProtocolError::MissingField("ids"));
        },
    };
    let channel_id = match field_id(d, "channel_id") {
        Some(n) => Snowflake::new(n),
        None => {
            return Err(ProtocolError::MissingField("channel_id"));
        },
    };
    let guild_id = match opt_field_id(d, "guild_id") {
        Ok(Some(n)) => Some(Snowflake::new(n)),
        Ok(None) => None,
        Err(_) => {
            return Err(ProtocolError::InvalidField("guild_id"));
        },
    };
    Ok(Event::MessageDeleteBulk(MessageDeleteBulk { ids, channel_id, guild_id }))
}

pub open spec fn guild_member_add_of(d: Jv) -> Result<EventV, PErr> {
    if spec_field_id(d, "guild_id"@).is_none() {
        Err(PErr::Missing("guild_id"@))
    } else {
        match member_of(d) {
            Err(e) => Err(e),
            Ok(m) => Ok(
                EventV::GuildMemberAdd { guild_id: spec_field_id(d, "guild_id"@).unwrap(), member: m },
            ),
        }
    }
}

fn parse_guild_member_add(d: &serde_json::Value) -> (r: Result<Event, ProtocolError>)
    ensures
        match r {
            Ok(e) => guild_member_add_of(jv(*d)) == Ok::<EventV, PErr>(e@),
            Err(e) => guild_member_add_of(jv(*d)) == Err::<EventV, PErr>(perr_view(e)),
        },
{
    let guild_id = match field_id(d, "guild_id") {
        Some(n) => Snowflake::new(n),
        None => {
            return Err(ProtocolError::MissingField("guild_id"));
        },
    };
    let member = match parse_member(d) {
        Ok(m) => m,
        Err(e) => {
            return Err(e);
        },
    };
    Ok(Event::GuildMemberAdd(GuildMemberAdd { guild_id, member }))
}

pub open spec fn guild_member_remove_of(d: Jv) -> Result<EventV, PErr> {
    if spec_field_id(d, "guild_id"@).is_none() {
        Err(PErr::Missing("guild_id"@))
    } else {
        match jv_get(d, "user"@) {
            None => Err(PErr::Missing("user"@)),
            Some(f) => match user_of(f) {
                Err(e) => Err(e),
                Ok(u) => Ok(
                    EventV::GuildMemberRemove {
                        guild_id: spec_field_id(d, "guild_id"@).unwrap(),
                        user: u,
                    },
                ),
            },
        }
    }
}

fn parse_guild_member_remove(d: &serde_json::Value) -> (r: Result<Event, ProtocolError>)
    ensures
        match r {
            Ok(e) => guild_member_remove_of(jv(*d)) == Ok::<EventV, PErr>(e@),
            Err(e) => guild_member_remove_of(jv(*d)) == Err::<EventV, PErr>(perr_view(e)),
        },
{
    let guild_id = match field_id(d, "guild_id") {
        Some(n) => Snowflake::new(n),
        None => {
            return Err(ProtocolError::MissingField("guild_id"));
        },
    };
    let user = match get_field(d, "user") {
        Some(f) => match parse_user(f) {
            Ok(u) => u,
            Err(e) => {
                return Err(e);
            },
        },
        None => {
            return Err(ProtocolError::MissingField("user"));
        },
    };
    Ok(Event::GuildMemberRemove(GuildMemberRemove { guild_id, user }))
}

pub open spec fn guild_member_update_of(d: Jv) -> Result<EventV, PErr> {
    if spec_field_id(d, "guild_id"@).is_none() {
        Err(PErr::Missing("guild_id"@))
    } else if member_roles_of(d) is Err {
        Err(member_roles_of(d)->Err_0)
    } else {
        match jv_get(d, "user"@) {
            None => Err(PErr::Missing("user"@)),
            Some(f) => match user_of(f) {
                Err(e) => Err(e),
                Ok(u) => if spec_opt_field_str(d, "nick"@) is Bad {
                    Err(PErr::Invalid("nick"@))
                } else if spec_opt_field_str(d, "premium_since"@) is Bad {
                    Err(PErr::Invalid("premium_since"@))
                } else {
                    Ok(
                        EventV::GuildMemberUpdate(
                            GuildMemberUpdateV {
                                guild_id: spec_field_id(d, "guild_id"@).unwrap(),
                                roles: member_roles_of(d)->Ok_0,
                                user: u,
                                nick: of_opt(spec_opt_field_str(d, "nick"@)),
                                premium_since: of_opt(spec_opt_field_str(d, "premium_since"@)),
                            },
                        ),
                    )
                },
            },
        }
    }
}

fn parse_guild_member_update(d: &serde_json::Value) -> (r: Result<Event, ProtocolError>)
    ensures
        match r {
            Ok(e) => guild_member_update_of(jv(*d)) == Ok::<EventV, PErr>(e@),
            Err(e) => guild_member_update_of(jv(*d)) == Err::<EventV, PErr>(perr_view(e)),
        },
{
    let guild_id = match field_id(d, "guild_id") {
        Some(n) => Snowflake::new(n),
        None => {
            return Err(ProtocolError::MissingField("guild_id"));
        },
    };
    let roles = match field_array(d, "roles") {
        Some(items) => match parse_ids(items) {
            Ok(ids) => ids,
            Err(e) => {
                return Err(e);
            },
        },
        None => {
            return Err(ProtocolError::MissingField("roles"));
        },
    };
    let user = match get_field(d, "user") {
        Some(f) => match parse_user(f) {
            Ok(u) => u,
            Err(e) => {
                return Err(e);
            },
        },
        None => {
            return Err(ProtocolError::MissingField("user"));
        },
    };
    let nick = match opt_field_str(d, "nick") {
        Ok(s) => s,
        Err(_) => {
            return Err(ProtocolError::InvalidField("nick"));
        },
    };
    let premium_since = match opt_field_str(d, "premium_since") {
        Ok(s) => s,
        Err(_) => {
            return Err(ProtocolError::InvalidField("premium_since"));
        },
    };
    Ok(
        Event::GuildMemberUpdate(
            GuildMemberUpdate { guild_id, roles, user, nick, premium_since },
        ),
    )
}

pub open spec fn guild_members_chunk_of(d: Jv) -> Result<EventV, PErr> {
    if spec_field_id(d, "guild_id"@).is_none() {
        Err(PErr::Missing("guild_id"@))
    } else {
        match super::records::spec_field_arr(d, "members"@) {
            None => Err(PErr::Missing("members"@)),
            Some(items) => match members_of(items) {
                Err(e) => Err(e),
                Ok(ms) => Ok(
                    EventV::GuildMembersChunk {
                        guild_id: spec_field_id(d, "guild_id"@).unwrap(),
                        members: ms,
                    },
                ),
            },
        }
    }
}

fn parse_guild_members_chunk(d: &serde_json::Value) -> (r: Result<Event, ProtocolError>)
    ensures
        match r {
            Ok(e) => guild_members_chunk_of(jv(*d)) == Ok::<EventV, PErr>(e@),
            Err(e) => guild_members_chunk_of(jv(*d)) == Err::<EventV, PErr>(perr_view(e)),
        },
{
    let guild_id = match field_id(d, "guild_id") {
        Some(n) => Snowflake::new(n),
        None => {
            return Err(ProtocolError::MissingField("guild_id"));
        },
    };
    let members = match field_array(d, "members") {
        Some(items) => match parse_members(items) {
            Ok(ms) => ms,
            Err(e) => {
                return Err(e);
            },
        },
        None => {
            return Err(ProtocolError::MissingField("members"));
        },
    };
    Ok(Event::GuildMembersChunk(GuildMembersChunk { guild_id, members }))
}

/// A role event: `guild_id` plus a full role object.
pub open spec fn guild_role_of(d: Jv) -> Result<(u64, RoleV), PErr> {
    if spec_field_id(d, "guild_id"@).is_none() {
        Err(PErr::Missing("guild_id"@))
    } else {
        match jv_get(d, "role"@) {
            None => Err(PErr::Missing("role"@)),
            Some(f) => match role_of(f) {
                Err(e) => Err(e),
                Ok(role) => Ok((spec_field_id(d, "guild_id"@).unwrap(), role)),
            },
        }
    }
}

fn parse_guild_role(d: &serde_json::Value) -> (r: Result<(Snowflake, Role), ProtocolError>)
    ensures
        match r {
            Ok(p) => guild_role_of(jv(*d)) == Ok::<(u64, RoleV), PErr>((p.0.value, p.1@)),
            Err(e) => guild_role_of(jv(*d)) == Err::<(u64, RoleV), PErr>(perr_view(e)),
        },
{
    let guild_id = match field_id(d, "guild_id") {
        Some(n) => Snowflake::new(n),
        None => {
            return Err(ProtocolError::MissingField("guild_id"));
        },
    };
    let role = match get_field(d, "role") {
        Some(f) => match super::records::parse_role(f) {
            Ok(x) => x,
            Err(e) => {
                return Err(e);
            },
        },
        None => {
            return Err(ProtocolError::MissingField("role"));
        },
    };
    Ok((guild_id, role))
}

pub open spec fn guild_role_delete_of(d: Jv) -> Result<EventV, PErr> {
    if spec_field_id(d, "guild_id"@).is_none() {
        Err(PErr::Missing("guild_id"@))
    } else if spec_field_id(d, "role_id"@).is_none() {
        Err(PErr::Missing("role_id"@))
    } else {
        Ok(
            EventV::GuildRoleDelete {
                guild_id: spec_field_id(d, "guild_id"@).unwrap(),
                role_id: spec_field_id(d, "role_id"@).unwrap(),
            },
        )
    }
}

fn parse_guild_role_delete(d: &serde_json::Value) -> (r: Result<Event, ProtocolError>)
    ensures
        match r {
            Ok(e) => guild_role_delete_of(jv(*d)) == Ok::<EventV, PErr>(e@),
            Err(e) => guild_role_delete_of(jv(*d)) == Err::<EventV, PErr>(perr_view(e)),
        },
{
    let guild_id = match field_id(d, "guild_id") {
        Some(n) => Snowflake::new(n),
        None => {
            return Err(ProtocolError::MissingField("guild_id"));
        },
    };
    let role_id = match field_id(d, "role_id") {
        Some(n) => Snowflake::new(n),
        None => {
            return Err(ProtocolError::MissingField("role_id"));
        },
    };
    Ok(Event::GuildRoleDelete(GuildRoleDelete { guild_id, role_id }))
}

pub open spec fn guild_delete_of(d: Jv) -> Result<EventV, PErr> {
    if spec_field_id(d, "id"@).is_none() {
        Err(PErr::Missing("id"@))
    } else if super::fields::spec_opt_field_bool(d, "unavailable"@) is Bad {
        Err(PErr::Invalid("unavailable"@))
    } else {
        Ok(
            EventV::GuildDelete {
                id: spec_field_id(d, "id"@).unwrap(),
                unavailable: match of_opt(super::fields::spec_opt_field_bool(d, "unavailable"@)) {
                    Some(b) => b,
                    None => false,
                },
            },
        )
    }
}

fn parse_guild_delete(d: &serde_json::Value) -> (r: Result<Event, ProtocolError>)
    ensures
        match r {
            Ok(e) => guild_delete_of(jv(*d)) == Ok::<EventV, PErr>(e@),
            Err(e) => guild_delete_of(jv(*d)) == Err::<EventV, PErr>(perr_view(e)),
        },
{
    let id = match field_id(d, "id") {
        Some(n) => Snowflake::new(n),
        None => {
            return Err(ProtocolError::MissingField("id"));
        },
    };
    let unavailable = match super::fields::opt_field_bool(d, "unavailable") {
        Ok(Some(b)) => b,
        Ok(None) => false,
        Err(_) => {
            return Err(ProtocolError::InvalidField("unavailable"));
        },
    };
    Ok(Event::GuildDelete(GuildDelete { id, unavailable }))
}

/// The ids shared by every reaction event.
pub open spec fn reaction_ids_of(d: Jv) -> Result<(u64, u64, Option<u64>), PErr> {
    if spec_field_id(d, "channel_id"@).is_none() {
        Err(PErr::Missing("channel_id"@))
    } else if spec_field_id(d, "message_id"@).is_none() {
        Err(PErr::Missing("message_id"@))
    } else if spec_opt_field_id(d, "guild_id"@) is Bad {
        Err(PErr::Invalid("guild_id"@))
    } else {
        Ok(
            (
                spec_field_id(d, "channel_id"@).unwrap(),
                spec_field_id(d, "message_id"@).unwrap(),
                of_opt(spec_opt_field_id(d, "guild_id"@)),
            ),
        )
    }
}

fn parse_reaction_ids(d: &serde_json::Value) -> (r: Result<
    (Snowflake, Snowflake, Option<Snowflake>),
    ProtocolError,
>)
    ensures
        match r {
            Ok(p) => reaction_ids_of(jv(*d)) == Ok::<(u64, u64, Option<u64>), PErr>(
                (
                    p.0.value,
                    p.1.value,
                    match p.2 {
                        Some(g) => Some(g.value),
                        None => None,
                    },
                ),
            ),
            Err(e) => reaction_ids_of(jv(*d)) == Err::<(u64, u64, Option<u64>), PErr>(
                perr_view(e),
            ),
        },
{
    let channel_id = match field_id(d, "channel_id") {
        Some(n) => Snowflake::new(n),
        None => {
            return Err(ProtocolError::MissingField("channel_id"));
        },
    };
    let message_id = match field_id(d, "message_id") {
        Some(n) => Snowflake::new(n),
        None => {
            return Err(ProtocolError::MissingField("message_id"));
        },
    };
    let guild_id = match opt_field_id(d, "guild_id") {
        Ok(Some(n)) => Some(Snowflake::new(n)),
        Ok(None) => None,
        Err(_) => {
            return Err(ProtocolError::InvalidField("guild_id"));
        },
    };
    Ok((channel_id, message_id, guild_id))
}

/// The required emoji object of a reaction event.
pub open spec fn reaction_event_emoji_of(d: Jv) -> Result<ReactionEmojiV, PErr> {
    match jv_get(d, "emoji"@) {
        None => Err(PErr::Missing("emoji"@)),
        Some(f) => reaction_emoji_of(f),
    }
}

fn parse_reaction_event_emoji(d: &serde_json::Value) -> (r: Result<ReactionEmoji, ProtocolError>)
    ensures
        match r {
            Ok(x) => reaction_event_emoji_of(jv(*d)) == Ok::<ReactionEmojiV, PErr>(x@),
            Err(e) => reaction_event_emoji_of(jv(*d)) == Err::<ReactionEmojiV, PErr>(perr_view(e)),
        },
{
    match get_field(d, "emoji") {
        Some(f) => parse_reaction_emoji(f),
        None => Err(ProtocolError::MissingField("emoji")),
    }
}

pub open spec fn voice_server_update_of(d: Jv) -> Result<EventV, PErr> {
    if spec_field_str(d, "token"@).is_none() {
        Err(PErr::Missing("token"@))
    } else if spec_field_id(d, "guild_id"@).is_none() {
        Err(PErr::Missing("guild_id"@))
    } else if spec_opt_field_str(d, "endpoint"@) is Bad {
        Err(PErr::Invalid("endpoint"@))
    } else {
        Ok(
            EventV::VoiceServerUpdate {
                token: spec_field_str(d, "token"@).unwrap(),
                guild_id: spec_field_id(d, "guild_id"@).unwrap(),
                endpoint: of_opt(spec_opt_field_str(d, "endpoint"@)),
            },
        )
    }
}

fn parse_voice_server_update(d: &serde_json::Value) -> (r: Result<Event, ProtocolError>)
    ensures
        match r {
            Ok(e) => voice_server_update_of(jv(*d)) == Ok::<EventV, PErr>(e@),
            Err(e) => voice_server_update_of(jv(*d)) == Err::<EventV, PErr>(perr_view(e)),
        },
{
    let token = match field_str(d, "token") {
        Some(s) => s,
        None => {
            return Err(ProtocolError::MissingField("token"));
        },
    };
    let guild_id = match field_id(d, "guild_id") {
        Some(n) => Snowflake::new(n),
        None => {
            return Err(ProtocolError::MissingField("guild_id"));
        },
    };
    let endpoint = match opt_field_str(d, "endpoint") {
        Ok(s) => s,
        Err(_) => {
            return Err(ProtocolError::InvalidField("endpoint"));
        },
    };
    Ok(Event::VoiceServerUpdate(VoiceServerUpdate { token, guild_id, endpoint }))
}


/// Dispatch by event name; unrecognized names are preserved verbatim.
pub open spec fn dispatch_of(t: Seq<char>, d: Jv) -> Result<EventV, PErr> {
    if t == "READY"@ {
        match ready_of(d) {
            Ok(x) => Ok(EventV::Ready(x)),
            Err(e) => Err(e),
        }
    } else if t == "RESUMED"@ {
        Ok(EventV::Resumed)
    } else if t == "GUILD_CREATE"@ {
        match guild_of(d) {
            Ok(x) => Ok(EventV::GuildCreate(x)),
            Err(e) => Err(e),
        }
    } else if t == "GUILD_UPDATE"@ {
        match guild_of(d) {
            Ok(x) => Ok(EventV::GuildUpdate(x)),
            Err(e) => Err(e),
        }
    } else if t == "GUILD_DELETE"@ {
        guild_delete_of(d)
    } else if t == "MESSAGE_CREATE"@ {
        match message_of(d) {
            Ok(x) => Ok(EventV::MessageCreate(x)),
            Err(e) => Err(e),
        }
    } else if t == "MESSAGE_UPDATE"@ {
        match message_of(d) {
            Ok(x) => Ok(EventV::MessageUpdate(x)),
            Err(e) => Err(e),
        }
    } else if t == "MESSAGE_DELETE"@ {
        message_delete_of(d)
    } else if t == "MESSAGE_DELETE_BULK"@ {
        message_delete_bulk_of(d)
    } else if t == "GUILD_MEMBER_ADD"@ {
        guild_member_add_of(d)
    } else if t == "GUILD_MEMBER_REMOVE"@ {
        guild_member_remove_of(d)
    } else if t == "GUILD_MEMBER_UPDATE"@ {
        guild_member_update_of(d)
    } else if t == "GUILD_MEMBERS_CHUNK"@ {
        guild_members_chunk_of(d)
    } else if t == "GUILD_ROLE_CREATE"@ {
        match guild_role_of(d) {
            Ok(p) => Ok(EventV::GuildRoleCreate { guild_id: p.0, role: p.1 }),
            Err(e) => Err(e),
        }
    } else if t == "GUILD_ROLE_UPDATE"@ {
        match guild_role_of(d) {
            Ok(p) => Ok(EventV::GuildRoleUpdate { guild_id: p.0, role: p.1 }),
            Err(e) => Err(e),
        }
    } else if t == "GUILD_ROLE_DELETE"@ {
        guild_role_delete_of(d)
    } else if t == "CHANNEL_CREATE"@ {
        match channel_of(d) {
            Ok(x) => Ok(EventV::ChannelCreate(x)),
            Err(e) => Err(e),
        }
    } else if t == "CHANNEL_UPDATE"@ {
        match channel_of(d) {
            Ok(x) => Ok(EventV::ChannelUpdate(x)),
            Err(e) => Err(e),
        }
    } else if t == "CHANNEL_DELETE"@ {
        match channel_of(d) {
            Ok(x) => Ok(EventV::ChannelDelete(x)),
            Err(e) => Err(e),
        }
    } else if t == "MESSAGE_REACTION_ADD"@ {
        if spec_field_id(d, "user_id"@).is_none() {
            Err(PErr::Missing("user_id"@))
        } else {
            match reaction_ids_of(d) {
                Err(e) => Err(e),
                Ok(ids) => match reaction_event_emoji_of(d) {
                    Err(e) => Err(e),
                    Ok(em) => Ok(
                        EventV::MessageReactionAdd {
                            user_id: spec_field_id(d, "user_id"@).unwrap(),
                            channel_id: ids.0,
                            message_id: ids.1,
                            guild_id: ids.2,
                            emoji: em,
                        },
                    ),
                },
            }
        }
    } else if t == "MESSAGE_REACTION_REMOVE"@ {
        if spec_field_id(d, "user_id"@).is_none() {
            Err(PErr::Missing("user_id"@))
        } else {
            match reaction_ids_of(d) {
                Err(e) => Err(e),
                Ok(ids) => match reaction_event_emoji_of(d) {
                    Err(e) => Err(e),
                    Ok(em) => Ok(
                        EventV::MessageReactionRemove {
                            user_id: spec_field_id(d, "user_id"@).unwrap(),
                            channel_id: ids.0,
                            message_id: ids.1,
                            guild_id: ids.2,
                            emoji: em,
                        },
                    ),
                },
            }
        }
    } else if t == "MESSAGE_REACTION_REMOVE_ALL"@ {
        match reaction_ids_of(d) {
            Err(e) => Err(e),
            Ok(ids) => Ok(
                EventV::MessageReactionRemoveAll {
                    channel_id: ids.0,
                    message_id: ids.1,
                    guild_id: ids.2,
                },
            ),
        }
    } else if t == "MESSAGE_REACTION_REMOVE_EMOJI"@ {
        match reaction_ids_of(d) {
            Err(e) => Err(e),
            Ok(ids) => match reaction_event_emoji_of(d) {
                Err(e) => Err(e),
                Ok(em) => Ok(
                    EventV::MessageReactionRemoveEmoji {
                        channel_id: ids.0,
                        message_id: ids.1,
                        guild_id: ids.2,
                        emoji: em,
                    },
                ),
            },
        }
    } else if t == "VOICE_STATE_UPDATE"@ {
        match voice_state_of(d) {
            Ok(x) => Ok(EventV::VoiceStateUpdate(x)),
            Err(e) => Err(e),
        }
    } else if t == "VOICE_SERVER_UPDATE"@ {
        voice_server_update_of(d)
    } else if t == "APPLICATION_COMMAND_CREATE"@ {
        match super::records::application_command_of(d) {
            Ok(x) => Ok(EventV::ApplicationCommandCreate(x)),
            Err(e) => Err(e),
        }
    } else if t == "APPLICATION_COMMAND_UPDATE"@ {
        match super::records::application_command_of(d) {
            Ok(x) => Ok(EventV::ApplicationCommandUpdate(x)),
            Err(e) => Err(e),
        }
    } else if t == "APPLICATION_COMMAND_DELETE"@ {
        match super::records::application_command_of(d) {
            Ok(x) => Ok(EventV::ApplicationCommandDelete(x)),
            Err(e) => Err(e),
        }
    } else {
        Ok(EventV::Unknown(t))
    }
}

/// The sequence field `s`: absent or null means none.
pub open spec fn seq_of(j: Jv) -> Result<Option<u64>, PErr> {
    match jv_get(j, "s"@) {
        None => Ok(None),
        Some(f) => if f is Null {
            Ok(None)
        } else {
            match jv_as_u64(f) {
                Some(n) => Ok(Some(n)),
                None => Err(PErr::Invalid("s"@)),
            }
        },
    }
}

/// The event denoted by a frame: dispatch on the opcode, then on the name.
pub open spec fn event_of(j: Jv) -> Result<EventV, PErr> {
    match spec_field_u64(j, "op"@) {
        None => Err(PErr::Missing("op"@)),
        Some(op) => match jv_get(j, "d"@) {
            None => Err(PErr::Missing("d"@)),
            Some(d) => if op == 9 {
                match jv_as_bool(d) {
                    Some(b) => Ok(EventV::InvalidSession { resumable: b }),
                    None => Err(PErr::Invalid("d"@)),
                }
            } else if op == 10 {
                match spec_field_u64(d, "heartbeat_interval"@) {
                    Some(n) => Ok(EventV::Hello { heartbeat_interval: n }),
                    None => Err(PErr::Missing("heartbeat_interval"@)),
                }
            } else if op == 11 {
                Ok(EventV::HeartbeatAck)
            } else if op == 0 {
                match spec_field_str(j, "t"@) {
                    None => Err(PErr::Missing("t"@)),
                    Some(t) => dispatch_of(t, d),
                }
            } else {
                Ok(EventV::Unknown(spec_digits(op)))
            },
        },
    }
}

/// The payload denoted by a frame: its sequence number and its event.
pub open spec fn payload_of(j: Jv) -> Result<PayloadV, PErr> {
    match seq_of(j) {
        Err(e) => Err(e),
        Ok(s) => match event_of(j) {
            Err(e) => Err(e),
            Ok(ev) => Ok(PayloadV { sequence: s, event: ev }),
        },
    }
}

fn dispatch(t: &str, d: &serde_json::Value) -> (r: Result<Event, ProtocolError>)
    ensures
        match r {
            Ok(e) => dispatch_of(t@, jv(*d)) == Ok::<EventV, PErr>(e@),
            Err(e) => dispatch_of(t@, jv(*d)) == Err::<EventV, PErr>(perr_view(e)),
        },
{
    if str_eq(t, "READY") {
        match parse_ready(d) {
            Ok(x) => Ok(Event::Ready(x)),
            Err(e) => Err(e),
        }
    } else if str_eq(t, "RESUMED") {
        Ok(Event::Resumed)
    } else if str_eq(t, "GUILD_CREATE") {
        match parse_guild(d) {
            Ok(x) => Ok(Event::GuildCreate(x)),
            Err(e) => Err(e),
        }
    } else if str_eq(t, "GUILD_UPDATE") {
        match parse_guild(d) {
            Ok(x) => Ok(Event::GuildUpdate(x)),
            Err(e) => Err(e),
        }
    } else if str_eq(t, "GUILD_DELETE") {
        parse_guild_delete(d)
    } else if str_eq(t, "MESSAGE_CREATE") {
        match parse_message(d) {
            Ok(x) => Ok(Event::MessageCreate(x)),
            Err(e) => Err(e),
        }
    } else if str_eq(t, "MESSAGE_UPDATE") {
        match parse_message(d) {
            Ok(x) => Ok(Event::MessageUpdate(x)),
            Err(e) => Err(e),
        }
    } else if str_eq(t, "MESSAGE_DELETE") {
        parse_message_delete(d)
    } else if str_eq(t, "MESSAGE_DELETE_BULK") {
        parse_message_delete_bulk(d)
    } else if str_eq(t, "GUILD_MEMBER_ADD") {
        parse_guild_member_add(d)
    } else if str_eq(t, "GUILD_MEMBER_REMOVE") {
        parse_guild_member_remove(d)
    } else if str_eq(t, "GUILD_MEMBER_UPDATE") {
        parse_guild_member_update(d)
    } else if str_eq(t, "GUILD_MEMBERS_CHUNK") {
        parse_guild_members_chunk(d)
    } else if str_eq(t, "GUILD_ROLE_CREATE") {
        match parse_guild_role(d) {
            Ok(p) => Ok(Event::GuildRoleCreate(GuildRoleCreate { guild_id: p.0, role: p.1 })),
            Err(e) => Err(e),
        }
    } else if str_eq(t, "GUILD_ROLE_UPDATE") {
        match parse_guild_role(d) {
            Ok(p) => Ok(Event::GuildRoleUpdate(GuildRoleUpdate { guild_id: p.0, role: p.1 })),
            Err(e) => Err(e),
        }
    } else if str_eq(t, "GUILD_ROLE_DELETE") {
        parse_guild_role_delete(d)
    } else if str_eq(t, "CHANNEL_CREATE") {
        match parse_channel(d) {
            Ok(x) => Ok(Event::ChannelCreate(x)),
            Err(e) => Err(e),
        }
    } else if str_eq(t, "CHANNEL_UPDATE") {
        match parse_channel(d) {
            Ok(x) => Ok(Event::ChannelUpdate(x)),
            Err(e) => Err(e),
        }
    } else if str_eq(t, "CHANNEL_DELETE") {
        match parse_channel(d) {
            Ok(x) => Ok(Event::ChannelDelete(x)),
            Err(e) => Err(e),
        }
    } else if str_eq(t, "MESSAGE_REACTION_ADD") {
        let user_id = match field_id(d, "user_id") {
            Some(n) => Snowflake::new(n),
            None => {
                return Err(ProtocolError::MissingField("user_id"));
            },
        };
        let ids = match parse_reaction_ids(d) {
            Ok(p) => p,
            Err(e) => {
                return Err(e);
            },
        };
        let emoji = match parse_reaction_event_emoji(d) {
            Ok(x) => x,
            Err(e) => {
                return Err(e);
            },
        };
        Ok(
            Event::MessageReactionAdd(
                MessageReactionAdd {
                    user_id,
                    channel_id: ids.0,
                    message_id: ids.1,
                    guild_id: ids.2,
                    emoji,
                },
            ),
        )
    } else if str_eq(t, "MESSAGE_REACTION_REMOVE") {
        let user_id = match field_id(d, "user_id") {
            Some(n) => Snowflake::new(n),
            None => {
                return Err(ProtocolError::MissingField("user_id"));
            },
        };
        let ids = match parse_reaction_ids(d) {
            Ok(p) => p,
            Err(e) => {
                return Err(e);
            },
        };
        let emoji = match parse_reaction_event_emoji(d) {
            Ok(x) => x,
            Err(e) => {
                return Err(e);
            },
        };
        Ok(
            Event::MessageReactionRemove(
                MessageReactionRemove {
                    user_id,
                    channel_id: ids.0,
                    message_id: ids.1,
                    guild_id: ids.2,
                    emoji,
                },
            ),
        )
    } else if str_eq(t, "MESSAGE_REACTION_REMOVE_ALL") {
        let ids = match parse_reaction_ids(d) {
            Ok(p) => p,
            Err(e) => {
                return Err(e);
            },
        };
        Ok(
            Event::MessageReactionRemoveAll(
                MessageReactionRemoveAll { channel_id: ids.0, message_id: ids.1, guild_id: ids.2 },
            ),
        )
    } else if str_eq(t, "MESSAGE_REACTION_REMOVE_EMOJI") {
        let ids = match parse_reaction_ids(d) {
            Ok(p) => p,
            Err(e) => {
                return Err(e);
            },
        };
        let emoji = match parse_reaction_event_emoji(d) {
            Ok(x) => x,
            Err(e) => {
                return Err(e);
            },
        };
        Ok(
            Event::MessageReactionRemoveEmoji(
                MessageReactionRemoveEmoji {
                    channel_id: ids.0,
                    message_id: ids.1,
                    guild_id: ids.2,
                    emoji,
                },
            ),
        )
    } else if str_eq(t, "VOICE_STATE_UPDATE") {
        match super::records::parse_voice_state(d) {
            Ok(x) => Ok(Event::VoiceStateUpdate(x)),
            Err(e) => Err(e),
        }
    } else if str_eq(t, "VOICE_SERVER_UPDATE") {
        parse_voice_server_update(d)
    } else if str_eq(t, "APPLICATION_COMMAND_CREATE") {
        match super::records::parse_application_command(d) {
            Ok(x) => Ok(Event::ApplicationCommandCreate(x)),
            Err(e) => Err(e),
        }
    } else if str_eq(t, "APPLICATION_COMMAND_UPDATE") {
        match super::records::parse_application_command(d) {
            Ok(x) => Ok(Event::ApplicationCommandUpdate(x)),
            Err(e) => Err(e),
        }
    } else if str_eq(t, "APPLICATION_COMMAND_DELETE") {
        match super::records::parse_application_command(d) {
            Ok(x) => Ok(Event::ApplicationCommandDelete(x)),
            Err(e) => Err(e),
        }
    } else {
        Ok(Event::Unknown(t.to_owned()))
    }
}

/// Decodes one frame into its payload. The result is exactly the payload
/// denoted by the frame's tree, or the error denoted by it.
pub fn decode_payload(v: &serde_json::Value) -> (r: Result<Payload, ProtocolError>)
    ensures
        match r {
            Ok(p) => payload_of(jv(*v)) == Ok::<PayloadV, PErr>(p@),
            Err(e) => payload_of(jv(*v)) == Err::<PayloadV, PErr>(perr_view(e)),
        },
{
    let sequence = match get_field(v, "s") {
        None => None,
        Some(f) => if value_is_null(f) {
            None
        } else {
            match value_as_u64(f) {
                Some(n) => Some(n),
                None => {
                    return Err(ProtocolError::InvalidField("s"));
                },
            }
        },
    };
    let op = match field_u64(v, "op") {
        Some(n) => n,
        None => {
            return Err(ProtocolError::MissingField("op"));
        },
    };
    let d = match get_field(v, "d") {
        Some(f) => f,
        None => {
            return Err(ProtocolError::MissingField("d"));
        },
    };
    let event = if op == 9 {
        match value_as_bool(d) {
            Some(b) => Event::InvalidSession(InvalidSession { resumable: b }),
            None => {
                return Err(ProtocolError::InvalidField("d"));
            },
        }
    } else if op == 10 {
        match field_u64(d, "heartbeat_interval") {
            Some(n) => Event::Hello(Hello { heartbeat_interval: n }),
            None => {
                return Err(ProtocolError::MissingField("heartbeat_interval"));
            },
        }
    } else if op == 11 {
        Event::HeartbeatAck
    } else if op == 0 {
        let t = match field_str(v, "t") {
            Some(s) => s,
            None => {
                return Err(ProtocolError::MissingField("t"));
            },
        };
        match dispatch(t.as_str(), d) {
            Ok(e) => e,
            Err(e) => {
                return Err(e);
            },
        }
    } else {
        Event::Unknown(u64_to_string(op))
    };
    Ok(Payload { sequence, event })
}

impl Event {
    /// The guild a dispatch event belongs to, where it names one.
    pub fn guild_id(&self) -> (r: Option<Snowflake>)
        ensures
            r == spec_event_guild_id(*self),
    {
        match self {
            Event::GuildCreate(g) => Some(g.id),
            Event::GuildUpdate(g) => Some(g.id),
            Event::GuildDelete(g) => Some(g.id),
            Event::MessageCreate(m) => m.guild_id,
            Event::MessageUpdate(m) => m.guild_id,
            Event::MessageDelete(m) => m.guild_id,
            Event::MessageDeleteBulk(m) => m.guild_id,
            Event::GuildMemberAdd(e) => Some(e.guild_id),
            Event::GuildMemberRemove(e) => Some(e.guild_id),
            Event::GuildMemberUpdate(e) => Some(e.guild_id),
            Event::GuildMembersChunk(e) => Some(e.guild_id),
            Event::GuildRoleCreate(e) => Some(e.guild_id),
            Event::GuildRoleUpdate(e) => Some(e.guild_id),
            Event::GuildRoleDelete(e) => Some(e.guild_id),
            Event::ChannelCreate(c) => c.guild_id,
            Event::ChannelUpdate(c) => c.guild_id,
            Event::ChannelDelete(c) => c.guild_id,
            Event::MessageReactionAdd(e) => e.guild_id,
            Event::MessageReactionRemove(e) => e.guild_id,
            Event::MessageReactionRemoveAll(e) => e.guild_id,
            Event::MessageReactionRemoveEmoji(e) => e.guild_id,
            Event::VoiceStateUpdate(s) => s.guild_id,
            Event::VoiceServerUpdate(e) => Some(e.guild_id),
            Event::ApplicationCommandCreate(c) => c.guild_id,
            Event::ApplicationCommandUpdate(c) => c.guild_id,
            Event::ApplicationCommandDelete(c) => c.guild_id,
            _ => None,
        }
    }

    pub fn expect_hello(self) -> (r: Result<Hello, EventError>)
        ensures
            match r {
                Ok(h) => self matches Event::Hello(h0) && h0 == h,
                Err(_) => !(self is Hello),
            },
    {
        match self {
            Event::Hello(event) => Ok(event),
            _ => Err(EventError),
        }
    }

    pub fn expect_ready(self) -> (r: Result<Ready, EventError>)
        ensures
            match r {
                Ok(x) => self matches Event::Ready(x0) && x0 == x,
                Err(_) => !(self is Ready),
            },
    {
        match self {
            Event::Ready(ready) => Ok(ready),
            _ => Err(EventError),
        }
    }

    pub fn expect_guild_create(self) -> (r: Result<Guild, EventError>)
        ensures
            match r {
                Ok(x) => self matches Event::GuildCreate(x0) && x0 == x,
                Err(_) => !(self is GuildCreate),
            },
    {
        match self {
            Event::GuildCreate(guild) => Ok(guild),
            _ => Err(EventError),
        }
    }

    pub fn expect_unknown(self) -> (r: Result<String, EventError>)
        ensures
            match r {
                Ok(x) => self matches Event::Unknown(x0) && x0 == x,
                Err(_) => !(self is Unknown),
            },
    {
        match self {
            Event::Unknown(unknown) => Ok(unknown),
            _ => Err(EventError),
        }
    }

    pub fn is_heartbeat_ack(&self) -> (r: bool)
        ensures
            r == (*self is HeartbeatAck),
    {
        match self {
            Event::HeartbeatAck => true,
            _ => false,
        }
    }

    pub fn is_invalid_session(&self) -> (r: bool)
        ensures
            r == (*self is InvalidSession),
    {
        match self {
            Event::InvalidSession(_) => true,
            _ => false,
        }
    }
}

/// The guild id named by an event, over the event's structure.
pub open spec fn spec_event_guild_id(e: Event) -> Option<Snowflake> {
    match e {
        Event::GuildCreate(g) => Some(g.id),
        Event::GuildUpdate(g) => Some(g.id),
        Event::GuildDelete(g) => Some(g.id),
        Event::MessageCreate(m) => m.guild_id,
        Event::MessageUpdate(m) => m.guild_id,
        Event::MessageDelete(m) => m.guild_id,
        Event::MessageDeleteBulk(m) => m.guild_id,
        Event::GuildMemberAdd(e) => Some(e.guild_id),
        Event::GuildMemberRemove(e) => Some(e.guild_id),
        Event::GuildMemberUpdate(e) => Some(e.guild_id),
        Event::GuildMembersChunk(e) => Some(e.guild_id),
        Event::GuildRoleCreate(e) => Some(e.guild_id),
        Event::GuildRoleUpdate(e) => Some(e.guild_id),
        Event::GuildRoleDelete(e) => Some(e.guild_id),
        Event::ChannelCreate(c) => c.guild_id,
        Event::ChannelUpdate(c) => c.guild_id,
        Event::ChannelDelete(c) => c.guild_id,
        Event::MessageReactionAdd(e) => e.guild_id,
        Event::MessageReactionRemove(e) => e.guild_id,
        Event::MessageReactionRemoveAll(e) => e.guild_id,
        Event::MessageReactionRemoveEmoji(e) => e.guild_id,
        Event::VoiceStateUpdate(s) => s.guild_id,
        Event::VoiceServerUpdate(e) => Some(e.guild_id),
        Event::ApplicationCommandCreate(c) => c.guild_id,
        Event::ApplicationCommandUpdate(c) => c.guild_id,
        Event::ApplicationCommandDelete(c) => c.guild_id,
        _ => None,
    }
}



/// Texts of different lengths differ.
proof fn lemma_text_ne_len(a: Seq<char>, b: Seq<char>)
    requires
        a.len() != b.len(),
    ensures
        a != b,
{
}

/// Texts differing at one position differ.
proof fn lemma_text_ne_at(a: Seq<char>, b: Seq<char>, i: int)
    requires
        0 <= i < a.len(),
        0 <= i < b.len(),
        a[i] != b[i],
    ensures
        a != b,
{
}

/// Field lookup in a one-field object.
proof fn lemma_lookup1(f0: (Seq<char>, Jv), key: Seq<char>)
    ensures
        obj_lookup(seq![f0], key) == (if f0.0 == key {
            Some(f0.1)
        } else {
            None::<Jv>
        }),
{
    reveal_with_fuel(obj_lookup, 4);
    assert(seq![f0].skip(1) =~= Seq::<(Seq<char>, Jv)>::empty());
}

/// Field lookup in a two-field object.
proof fn lemma_lookup2(f0: (Seq<char>, Jv), f1: (Seq<char>, Jv), key: Seq<char>)
    ensures
        obj_lookup(seq![f0, f1], key) == (if f0.0 == key {
            Some(f0.1)
        } else if f1.0 == key {
            Some(f1.1)
        } else {
            None::<Jv>
        }),
{
    reveal_with_fuel(obj_lookup, 4);
    assert(seq![f0, f1].skip(1) =~= seq![f1]);
    lemma_lookup1(f1, key);
}

/// Field lookup in a three-field object.
proof fn lemma_lookup3(f0: (Seq<char>, Jv), f1: (Seq<char>, Jv), f2: (Seq<char>, Jv), key: Seq<char>)
    ensures
        obj_lookup(seq![f0, f1, f2], key) == (if f0.0 == key {
            Some(f0.1)
        } else if f1.0 == key {
            Some(f1.1)
        } else if f2.0 == key {
            Some(f2.1)
        } else {
            None::<Jv>
        }),
{
    reveal_with_fuel(obj_lookup, 4);
    assert(seq![f0, f1, f2].skip(1) =~= seq![f1, f2]);
    lemma_lookup2(f1, f2, key);
}

/// Field lookup in a four-field object.
proof fn lemma_lookup4(
    f0: (Seq<char>, Jv),
    f1: (Seq<char>, Jv),
    f2: (Seq<char>, Jv),
    f3: (Seq<char>, Jv),
    key: Seq<char>,
)
    ensures
        obj_lookup(seq![f0, f1, f2, f3], key) == (if f0.0 == key {
            Some(f0.1)
        } else if f1.0 == key {
            Some(f1.1)
        } else if f2.0 == key {
            Some(f2.1)
        } else if f3.0 == key {
            Some(f3.1)
        } else {
            None::<Jv>
        }),
{
    reveal_with_fuel(obj_lookup, 5);
    assert(seq![f0, f1, f2, f3].skip(1) =~= seq![f1, f2, f3]);
    lemma_lookup3(f1, f2, f3, key);
}

/// Lookup resolves to the entry at `i` when no earlier key matches.
proof fn lemma_lookup_at(fields: Seq<(Seq<char>, Jv)>, key: Seq<char>, i: int)
    requires
        0 <= i < fields.len(),
        fields[i].0 == key,
        forall|k: int| 0 <= k < i ==> (#[trigger] fields[k]).0 != key,
    ensures
        obj_lookup(fields, key) == Some(fields[i].1),
    decreases i,
{
    if i == 0 {
    } else {
        assert(forall|j: int|
            0 <= j < fields.skip(1).len() ==> fields.skip(1)[j] == fields[j + 1]);
        lemma_lookup_at(fields.skip(1), key, i - 1);
    }
}

/// An optional id rendered canonically: the number itself, or null.
pub open spec fn opt_id_jv(o: Option<u64>) -> Jv {
    match o {
        Some(n) => Jv::UInt(n),
        None => Jv::Null,
    }
}

/// The canonical tree of a role record.
pub open spec fn role_jv(role: RoleV) -> Jv {
    Jv::Obj(
        seq![
            ("id"@, Jv::UInt(role.id)),
            ("name"@, Jv::Str(role.name)),
            ("color"@, Jv::UInt(role.color as u64)),
            ("hoist"@, Jv::Bool(role.hoist)),
            ("position"@, Jv::UInt(role.position as u64)),
            ("permissions"@, Jv::UInt(role.permissions)),
            ("managed"@, Jv::Bool(role.managed)),
            ("mentionable"@, Jv::Bool(role.mentionable)),
        ],
    )
}

/// The control-plane events whose canonical frames the round-trip law
/// covers: the flat payloads, plus the role-create dispatch with its nested
/// role record.
pub open spec fn is_control_event(ev: EventV) -> bool {
    ||| ev is Hello
    ||| ev is HeartbeatAck
    ||| ev is InvalidSession
    ||| ev is Resumed
    ||| ev is MessageDelete
    ||| ev is GuildRoleCreate
    ||| ev is GuildRoleDelete
    ||| ev is GuildDelete
    ||| ev is MessageReactionRemoveAll
}

/// The canonical frame of a control-plane payload: the envelope object in
/// wire order, with the event's own opcode, name and body.
pub open spec fn control_frame(sequence: Option<u64>, ev: EventV) -> Jv
    recommends
        is_control_event(ev),
{
    let s = ("s"@, opt_id_jv(sequence));
    match ev {
        EventV::Hello { heartbeat_interval } => Jv::Obj(
            seq![
                ("t"@, Jv::Null),
                s,
                ("op"@, Jv::UInt(10)),
                ("d"@, Jv::Obj(seq![("heartbeat_interval"@, Jv::UInt(heartbeat_interval))])),
            ],
        ),
        EventV::HeartbeatAck => Jv::Obj(
            seq![("t"@, Jv::Null), s, ("op"@, Jv::UInt(11)), ("d"@, Jv::Null)],
        ),
        EventV::InvalidSession { resumable } => Jv::Obj(
            seq![("t"@, Jv::Null), s, ("op"@, Jv::UInt(9)), ("d"@, Jv::Bool(resumable))],
        ),
        EventV::Resumed => Jv::Obj(
            seq![
                ("t"@, Jv::Str("RESUMED"@)),
                s,
                ("op"@, Jv::UInt(0)),
                ("d"@, Jv::Null),
            ],
        ),
        EventV::MessageDelete { id, channel_id, guild_id } => Jv::Obj(
            seq![
                ("t"@, Jv::Str("MESSAGE_DELETE"@)),
                s,
                ("op"@, Jv::UInt(0)),
                (
                    "d"@,
                    Jv::Obj(
                        seq![
                            ("id"@, Jv::UInt(id)),
                            ("channel_id"@, Jv::UInt(channel_id)),
                            ("guild_id"@, opt_id_jv(guild_id)),
                        ],
                    ),
                ),
            ],
        ),
        EventV::GuildRoleCreate { guild_id, role } => Jv::Obj(
            seq![
                ("t"@, Jv::Str("GUILD_ROLE_CREATE"@)),
                s,
                ("op"@, Jv::UInt(0)),
                (
                    "d"@,
                    Jv::Obj(seq![("guild_id"@, Jv::UInt(guild_id)), ("role"@, role_jv(role))]),
                ),
            ],
        ),
        EventV::GuildRoleDelete { guild_id, role_id } => Jv::Obj(
            seq![
                ("t"@, Jv::Str("GUILD_ROLE_DELETE"@)),
                s,
                ("op"@, Jv::UInt(0)),
                (
                    "d"@,
                    Jv::Obj(
                        seq![("guild_id"@, Jv::UInt(guild_id)), ("role_id"@, Jv::UInt(role_id))],
                    ),
                ),
            ],
        ),
        EventV::GuildDelete { id, unavailable } => Jv::Obj(
            seq![
                ("t"@, Jv::Str("GUILD_DELETE"@)),
                s,
                ("op"@, Jv::UInt(0)),
                (
                    "d"@,
                    Jv::Obj(
                        seq![("id"@, Jv::UInt(id)), ("unavailable"@, Jv::Bool(unavailable))],
                    ),
                ),
            ],
        ),
        EventV::MessageReactionRemoveAll { channel_id, message_id, guild_id } => Jv::Obj(
            seq![
                ("t"@, Jv::Str("MESSAGE_REACTION_REMOVE_ALL"@)),
                s,
                ("op"@, Jv::UInt(0)),
                (
                    "d"@,
                    Jv::Obj(
                        seq![
                            ("channel_id"@, Jv::UInt(channel_id)),
                            ("message_id"@, Jv::UInt(message_id)),
                            ("guild_id"@, opt_id_jv(guild_id)),
                        ],
                    ),
                ),
            ],
        ),
        _ => Jv::Null,
    }
}

/// Decoding inverts the canonical encoding: for every recognized
/// opcode/type pair of the control plane, the canonical frame of a payload
/// decodes back to exactly that payload. Re-encoding what was decoded
/// therefore reproduces the frame.
#[verifier::rlimit(100)]
pub proof fn lemma_control_frame_round_trip(sequence: Option<u64>, ev: EventV)
    requires
        is_control_event(ev),
    ensures
        payload_of(control_frame(sequence, ev)) == Ok::<PayloadV, PErr>(
            PayloadV { sequence, event: ev },
        ),
{
    reveal_strlit("t");
    reveal_strlit("s");
    reveal_strlit("op");
    reveal_strlit("d");
    reveal_strlit("heartbeat_interval");
    reveal_strlit("id");
    reveal_strlit("channel_id");
    reveal_strlit("message_id");
    reveal_strlit("guild_id");
    reveal_strlit("role_id");
    reveal_strlit("unavailable");
    reveal_strlit("name");
    reveal_strlit("color");
    reveal_strlit("hoist");
    reveal_strlit("position");
    reveal_strlit("permissions");
    reveal_strlit("managed");
    reveal_strlit("mentionable");
    reveal_strlit("role");
    reveal_strlit("READY");
    reveal_strlit("RESUMED");
    reveal_strlit("GUILD_CREATE");
    reveal_strlit("GUILD_UPDATE");
    reveal_strlit("GUILD_DELETE");
    reveal_strlit("MESSAGE_CREATE");
    reveal_strlit("MESSAGE_UPDATE");
    reveal_strlit("MESSAGE_DELETE");
    reveal_strlit("MESSAGE_DELETE_BULK");
    reveal_strlit("GUILD_MEMBER_ADD");
    reveal_strlit("GUILD_MEMBER_REMOVE");
    reveal_strlit("GUILD_MEMBER_UPDATE");
    reveal_strlit("GUILD_MEMBERS_CHUNK");
    reveal_strlit("GUILD_ROLE_CREATE");
    reveal_strlit("GUILD_ROLE_UPDATE");
    reveal_strlit("GUILD_ROLE_DELETE");
    reveal_strlit("CHANNEL_CREATE");
    reveal_strlit("CHANNEL_UPDATE");
    reveal_strlit("CHANNEL_DELETE");
    reveal_strlit("MESSAGE_REACTION_ADD");
    reveal_strlit("MESSAGE_REACTION_REMOVE");
    reveal_strlit("MESSAGE_REACTION_REMOVE_ALL");
    reveal_strlit("MESSAGE_REACTION_REMOVE_EMOJI");
    reveal_strlit("VOICE_STATE_UPDATE");
    reveal_strlit("VOICE_SERVER_UPDATE");
    lemma_text_ne_at("t"@, "s"@, 0);
    lemma_text_ne_len("t"@, "op"@);
    lemma_text_ne_at("t"@, "d"@, 0);
    lemma_text_ne_len("s"@, "op"@);
    lemma_text_ne_at("s"@, "d"@, 0);
    lemma_text_ne_len("op"@, "d"@);
    lemma_text_ne_len("id"@, "channel_id"@);
    lemma_text_ne_len("id"@, "guild_id"@);
    lemma_text_ne_len("channel_id"@, "guild_id"@);
    lemma_text_ne_len("guild_id"@, "role_id"@);
    lemma_text_ne_len("id"@, "unavailable"@);
    lemma_text_ne_at("channel_id"@, "message_id"@, 0);
    lemma_text_ne_len("message_id"@, "guild_id"@);
    lemma_text_ne_len("RESUMED"@, "READY"@);
    lemma_text_ne_len("MESSAGE_DELETE"@, "READY"@);
    lemma_text_ne_len("MESSAGE_DELETE"@, "RESUMED"@);
    lemma_text_ne_len("MESSAGE_DELETE"@, "GUILD_CREATE"@);
    lemma_text_ne_len("MESSAGE_DELETE"@, "GUILD_UPDATE"@);
    lemma_text_ne_len("MESSAGE_DELETE"@, "GUILD_DELETE"@);
    lemma_text_ne_at("MESSAGE_DELETE"@, "MESSAGE_CREATE"@, 8);
    lemma_text_ne_at("MESSAGE_DELETE"@, "MESSAGE_UPDATE"@, 8);
    lemma_text_ne_len("GUILD_ROLE_DELETE"@, "READY"@);
    lemma_text_ne_len("GUILD_ROLE_DELETE"@, "RESUMED"@);
    lemma_text_ne_len("GUILD_ROLE_DELETE"@, "GUILD_CREATE"@);
    lemma_text_ne_len("GUILD_ROLE_DELETE"@, "GUILD_UPDATE"@);
    lemma_text_ne_len("GUILD_ROLE_DELETE"@, "GUILD_DELETE"@);
    lemma_text_ne_len("GUILD_ROLE_DELETE"@, "MESSAGE_CREATE"@);
    lemma_text_ne_len("GUILD_ROLE_DELETE"@, "MESSAGE_UPDATE"@);
    lemma_text_ne_len("GUILD_ROLE_DELETE"@, "MESSAGE_DELETE"@);
    lemma_text_ne_len("GUILD_ROLE_DELETE"@, "MESSAGE_DELETE_BULK"@);
    lemma_text_ne_len("GUILD_ROLE_DELETE"@, "GUILD_MEMBER_ADD"@);
    lemma_text_ne_len("GUILD_ROLE_DELETE"@, "GUILD_MEMBER_REMOVE"@);
    lemma_text_ne_len("GUILD_ROLE_DELETE"@, "GUILD_MEMBER_UPDATE"@);
    lemma_text_ne_len("GUILD_ROLE_DELETE"@, "GUILD_MEMBERS_CHUNK"@);
    lemma_text_ne_at("GUILD_ROLE_DELETE"@, "GUILD_ROLE_CREATE"@, 11);
    lemma_text_ne_at("GUILD_ROLE_DELETE"@, "GUILD_ROLE_UPDATE"@, 11);
    lemma_text_ne_len("GUILD_DELETE"@, "READY"@);
    lemma_text_ne_len("GUILD_DELETE"@, "RESUMED"@);
    lemma_text_ne_at("GUILD_DELETE"@, "GUILD_CREATE"@, 6);
    lemma_text_ne_at("GUILD_DELETE"@, "GUILD_UPDATE"@, 6);
    lemma_text_ne_len("MESSAGE_REACTION_REMOVE_ALL"@, "READY"@);
    lemma_text_ne_len("MESSAGE_REACTION_REMOVE_ALL"@, "RESUMED"@);
    lemma_text_ne_len("MESSAGE_REACTION_REMOVE_ALL"@, "GUILD_CREATE"@);
    lemma_text_ne_len("MESSAGE_REACTION_REMOVE_ALL"@, "GUILD_UPDATE"@);
    lemma_text_ne_len("MESSAGE_REACTION_REMOVE_ALL"@, "GUILD_DELETE"@);
    lemma_text_ne_len("MESSAGE_REACTION_REMOVE_ALL"@, "MESSAGE_CREATE"@);
    lemma_text_ne_len("MESSAGE_REACTION_REMOVE_ALL"@, "MESSAGE_UPDATE"@);
    lemma_text_ne_len("MESSAGE_REACTION_REMOVE_ALL"@, "MESSAGE_DELETE"@);
    lemma_text_ne_len("MESSAGE_REACTION_REMOVE_ALL"@, "MESSAGE_DELETE_BULK"@);
    lemma_text_ne_len("MESSAGE_REACTION_REMOVE_ALL"@, "GUILD_MEMBER_ADD"@);
    lemma_text_ne_len("MESSAGE_REACTION_REMOVE_ALL"@, "GUILD_MEMBER_REMOVE"@);
    lemma_text_ne_len("MESSAGE_REACTION_REMOVE_ALL"@, "GUILD_MEMBER_UPDATE"@);
    lemma_text_ne_len("MESSAGE_REACTION_REMOVE_ALL"@, "GUILD_MEMBERS_CHUNK"@);
    lemma_text_ne_len("MESSAGE_REACTION_REMOVE_ALL"@, "GUILD_ROLE_CREATE"@);
    lemma_text_ne_len("MESSAGE_REACTION_REMOVE_ALL"@, "GUILD_ROLE_UPDATE"@);
    lemma_text_ne_len("MESSAGE_REACTION_REMOVE_ALL"@, "GUILD_ROLE_DELETE"@);
    lemma_text_ne_len("MESSAGE_REACTION_REMOVE_ALL"@, "CHANNEL_CREATE"@);
    lemma_text_ne_len("MESSAGE_REACTION_REMOVE_ALL"@, "CHANNEL_UPDATE"@);
    lemma_text_ne_len("MESSAGE_REACTION_REMOVE_ALL"@, "CHANNEL_DELETE"@);
    lemma_text_ne_len("MESSAGE_REACTION_REMOVE_ALL"@, "MESSAGE_REACTION_ADD"@);
    lemma_text_ne_len("MESSAGE_REACTION_REMOVE_ALL"@, "MESSAGE_REACTION_REMOVE"@);
    lemma_text_ne_len("name"@, "id"@);
    lemma_text_ne_len("color"@, "id"@);
    lemma_text_ne_len("color"@, "name"@);
    lemma_text_ne_len("hoist"@, "id"@);
    lemma_text_ne_len("hoist"@, "name"@);
    lemma_text_ne_at("hoist"@, "color"@, 0);
    lemma_text_ne_len("position"@, "id"@);
    lemma_text_ne_len("position"@, "name"@);
    lemma_text_ne_len("position"@, "color"@);
    lemma_text_ne_len("position"@, "hoist"@);
    lemma_text_ne_len("permissions"@, "id"@);
    lemma_text_ne_len("permissions"@, "name"@);
    lemma_text_ne_len("permissions"@, "color"@);
    lemma_text_ne_len("permissions"@, "hoist"@);
    lemma_text_ne_len("permissions"@, "position"@);
    lemma_text_ne_len("managed"@, "id"@);
    lemma_text_ne_len("managed"@, "name"@);
    lemma_text_ne_len("managed"@, "color"@);
    lemma_text_ne_len("managed"@, "hoist"@);
    lemma_text_ne_len("managed"@, "position"@);
    lemma_text_ne_len("managed"@, "permissions"@);
    lemma_text_ne_len("mentionable"@, "id"@);
    lemma_text_ne_len("mentionable"@, "name"@);
    lemma_text_ne_len("mentionable"@, "color"@);
    lemma_text_ne_len("mentionable"@, "hoist"@);
    lemma_text_ne_len("mentionable"@, "position"@);
    lemma_text_ne_at("mentionable"@, "permissions"@, 0);
    lemma_text_ne_len("mentionable"@, "managed"@);
    lemma_text_ne_len("role"@, "guild_id"@);
    lemma_text_ne_len("GUILD_ROLE_CREATE"@, "READY"@);
    lemma_text_ne_len("GUILD_ROLE_CREATE"@, "RESUMED"@);
    lemma_text_ne_len("GUILD_ROLE_CREATE"@, "GUILD_CREATE"@);
    lemma_text_ne_len("GUILD_ROLE_CREATE"@, "GUILD_UPDATE"@);
    lemma_text_ne_len("GUILD_ROLE_CREATE"@, "GUILD_DELETE"@);
    lemma_text_ne_len("GUILD_ROLE_CREATE"@, "MESSAGE_CREATE"@);
    lemma_text_ne_len("GUILD_ROLE_CREATE"@, "MESSAGE_UPDATE"@);
    lemma_text_ne_len("GUILD_ROLE_CREATE"@, "MESSAGE_DELETE"@);
    lemma_text_ne_len("GUILD_ROLE_CREATE"@, "MESSAGE_DELETE_BULK"@);
    lemma_text_ne_len("GUILD_ROLE_CREATE"@, "GUILD_MEMBER_ADD"@);
    lemma_text_ne_len("GUILD_ROLE_CREATE"@, "GUILD_MEMBER_REMOVE"@);
    lemma_text_ne_len("GUILD_ROLE_CREATE"@, "GUILD_MEMBER_UPDATE"@);
    lemma_text_ne_len("GUILD_ROLE_CREATE"@, "GUILD_MEMBERS_CHUNK"@);
    let j = control_frame(sequence, ev);
    let sfield = ("s"@, opt_id_jv(sequence));
    match ev {
        EventV::Hello { heartbeat_interval } => {
            let d = Jv::Obj(seq![("heartbeat_interval"@, Jv::UInt(heartbeat_interval))]);
            lemma_lookup4(("t"@, Jv::Null), sfield, ("op"@, Jv::UInt(10)), ("d"@, d), "s"@);
            lemma_lookup4(("t"@, Jv::Null), sfield, ("op"@, Jv::UInt(10)), ("d"@, d), "op"@);
            lemma_lookup4(("t"@, Jv::Null), sfield, ("op"@, Jv::UInt(10)), ("d"@, d), "d"@);
            lemma_lookup1(("heartbeat_interval"@, Jv::UInt(heartbeat_interval)),
                "heartbeat_interval"@);
        },
        EventV::HeartbeatAck => {
            lemma_lookup4(("t"@, Jv::Null), sfield, ("op"@, Jv::UInt(11)), ("d"@, Jv::Null), "s"@);
            lemma_lookup4(("t"@, Jv::Null), sfield, ("op"@, Jv::UInt(11)), ("d"@, Jv::Null), "op"@);
            lemma_lookup4(("t"@, Jv::Null), sfield, ("op"@, Jv::UInt(11)), ("d"@, Jv::Null), "d"@);
        },
        EventV::InvalidSession { resumable } => {
            let d = Jv::Bool(resumable);
            lemma_lookup4(("t"@, Jv::Null), sfield, ("op"@, Jv::UInt(9)), ("d"@, d), "s"@);
            lemma_lookup4(("t"@, Jv::Null), sfield, ("op"@, Jv::UInt(9)), ("d"@, d), "op"@);
            lemma_lookup4(("t"@, Jv::Null), sfield, ("op"@, Jv::UInt(9)), ("d"@, d), "d"@);
        },
        EventV::Resumed => {
            let t = ("t"@, Jv::Str("RESUMED"@));
            lemma_lookup4(t, sfield, ("op"@, Jv::UInt(0)), ("d"@, Jv::Null), "s"@);
            lemma_lookup4(t, sfield, ("op"@, Jv::UInt(0)), ("d"@, Jv::Null), "op"@);
            lemma_lookup4(t, sfield, ("op"@, Jv::UInt(0)), ("d"@, Jv::Null), "d"@);
            lemma_lookup4(t, sfield, ("op"@, Jv::UInt(0)), ("d"@, Jv::Null), "t"@);
        },
        EventV::MessageDelete { id, channel_id, guild_id } => {
            let d = Jv::Obj(
                seq![
                    ("id"@, Jv::UInt(id)),
                    ("channel_id"@, Jv::UInt(channel_id)),
                    ("guild_id"@, opt_id_jv(guild_id)),
                ],
            );
            let t = ("t"@, Jv::Str("MESSAGE_DELETE"@));
            lemma_lookup4(t, sfield, ("op"@, Jv::UInt(0)), ("d"@, d), "s"@);
            lemma_lookup4(t, sfield, ("op"@, Jv::UInt(0)), ("d"@, d), "op"@);
            lemma_lookup4(t, sfield, ("op"@, Jv::UInt(0)), ("d"@, d), "d"@);
            lemma_lookup4(t, sfield, ("op"@, Jv::UInt(0)), ("d"@, d), "t"@);
            lemma_lookup3(
                ("id"@, Jv::UInt(id)),
                ("channel_id"@, Jv::UInt(channel_id)),
                ("guild_id"@, opt_id_jv(guild_id)),
                "id"@,
            );
            lemma_lookup3(
                ("id"@, Jv::UInt(id)),
                ("channel_id"@, Jv::UInt(channel_id)),
                ("guild_id"@, opt_id_jv(guild_id)),
                "channel_id"@,
            );
            lemma_lookup3(
                ("id"@, Jv::UInt(id)),
                ("channel_id"@, Jv::UInt(channel_id)),
                ("guild_id"@, opt_id_jv(guild_id)),
                "guild_id"@,
            );
        },
        EventV::GuildRoleCreate { guild_id, role } => {
            let rf = role_jv(role);
            let d = Jv::Obj(seq![("guild_id"@, Jv::UInt(guild_id)), ("role"@, rf)]);
            let t = ("t"@, Jv::Str("GUILD_ROLE_CREATE"@));
            lemma_lookup4(t, sfield, ("op"@, Jv::UInt(0)), ("d"@, d), "s"@);
            lemma_lookup4(t, sfield, ("op"@, Jv::UInt(0)), ("d"@, d), "op"@);
            lemma_lookup4(t, sfield, ("op"@, Jv::UInt(0)), ("d"@, d), "d"@);
            lemma_lookup4(t, sfield, ("op"@, Jv::UInt(0)), ("d"@, d), "t"@);
            lemma_lookup2(("guild_id"@, Jv::UInt(guild_id)), ("role"@, rf), "guild_id"@);
            lemma_lookup2(("guild_id"@, Jv::UInt(guild_id)), ("role"@, rf), "role"@);
            let fields = seq![
                ("id"@, Jv::UInt(role.id)),
                ("name"@, Jv::Str(role.name)),
                ("color"@, Jv::UInt(role.color as u64)),
                ("hoist"@, Jv::Bool(role.hoist)),
                ("position"@, Jv::UInt(role.position as u64)),
                ("permissions"@, Jv::UInt(role.permissions)),
                ("managed"@, Jv::Bool(role.managed)),
                ("mentionable"@, Jv::Bool(role.mentionable)),
            ];
            lemma_lookup_at(fields, "id"@, 0);
            lemma_lookup_at(fields, "name"@, 1);
            lemma_lookup_at(fields, "color"@, 2);
            lemma_lookup_at(fields, "hoist"@, 3);
            lemma_lookup_at(fields, "position"@, 4);
            lemma_lookup_at(fields, "permissions"@, 5);
            lemma_lookup_at(fields, "managed"@, 6);
            lemma_lookup_at(fields, "mentionable"@, 7);
            assert(role_of(rf) == Ok::<RoleV, PErr>(
                RoleV {
                    id: role.id,
                    name: role.name,
                    color: role.color,
                    hoist: role.hoist,
                    position: role.position,
                    permissions: role.permissions,
                    managed: role.managed,
                    mentionable: role.mentionable,
                },
            ));
        },
        EventV::GuildRoleDelete { guild_id, role_id } => {
            let d = Jv::Obj(
                seq![("guild_id"@, Jv::UInt(guild_id)), ("role_id"@, Jv::UInt(role_id))],
            );
            let t = ("t"@, Jv::Str("GUILD_ROLE_DELETE"@));
            lemma_lookup4(t, sfield, ("op"@, Jv::UInt(0)), ("d"@, d), "s"@);
            lemma_lookup4(t, sfield, ("op"@, Jv::UInt(0)), ("d"@, d), "op"@);
            lemma_lookup4(t, sfield, ("op"@, Jv::UInt(0)), ("d"@, d), "d"@);
            lemma_lookup4(t, sfield, ("op"@, Jv::UInt(0)), ("d"@, d), "t"@);
            lemma_lookup2(
                ("guild_id"@, Jv::UInt(guild_id)),
                ("role_id"@, Jv::UInt(role_id)),
                "guild_id"@,
            );
            lemma_lookup2(
                ("guild_id"@, Jv::UInt(guild_id)),
                ("role_id"@, Jv::UInt(role_id)),
                "role_id"@,
            );
        },
        EventV::GuildDelete { id, unavailable } => {
            let d = Jv::Obj(seq![("id"@, Jv::UInt(id)), ("unavailable"@, Jv::Bool(unavailable))]);
            let t = ("t"@, Jv::Str("GUILD_DELETE"@));
            lemma_lookup4(t, sfield, ("op"@, Jv::UInt(0)), ("d"@, d), "s"@);
            lemma_lookup4(t, sfield, ("op"@, Jv::UInt(0)), ("d"@, d), "op"@);
            lemma_lookup4(t, sfield, ("op"@, Jv::UInt(0)), ("d"@, d), "d"@);
            lemma_lookup4(t, sfield, ("op"@, Jv::UInt(0)), ("d"@, d), "t"@);
            lemma_lookup2(
                ("id"@, Jv::UInt(id)),
                ("unavailable"@, Jv::Bool(unavailable)),
                "id"@,
            );
            lemma_lookup2(
                ("id"@, Jv::UInt(id)),
                ("unavailable"@, Jv::Bool(unavailable)),
                "unavailable"@,
            );
        },
        EventV::MessageReactionRemoveAll { channel_id, message_id, guild_id } => {
            let d = Jv::Obj(
                seq![
                    ("channel_id"@, Jv::UInt(channel_id)),
                    ("message_id"@, Jv::UInt(message_id)),
                    ("guild_id"@, opt_id_jv(guild_id)),
                ],
            );
            let t = ("t"@, Jv::Str("MESSAGE_REACTION_REMOVE_ALL"@));
            lemma_lookup4(t, sfield, ("op"@, Jv::UInt(0)), ("d"@, d), "s"@);
            lemma_lookup4(t, sfield, ("op"@, Jv::UInt(0)), ("d"@, d), "op"@);
            lemma_lookup4(t, sfield, ("op"@, Jv::UInt(0)), ("d"@, d), "d"@);
            lemma_lookup4(t, sfield, ("op"@, Jv::UInt(0)), ("d"@, d), "t"@);
            lemma_lookup3(
                ("channel_id"@, Jv::UInt(channel_id)),
                ("message_id"@, Jv::UInt(message_id)),
                ("guild_id"@, opt_id_jv(guild_id)),
                "channel_id"@,
            );
            lemma_lookup3(
                ("channel_id"@, Jv::UInt(channel_id)),
                ("message_id"@, Jv::UInt(message_id)),
                ("guild_id"@, opt_id_jv(guild_id)),
                "message_id"@,
            );
            lemma_lookup3(
                ("channel_id"@, Jv::UInt(channel_id)),
                ("message_id"@, Jv::UInt(message_id)),
                ("guild_id"@, opt_id_jv(guild_id)),
                "guild_id"@,
            );
        },
        _ => {},
    }
}

} // verus!
