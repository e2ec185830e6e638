//! The wire record types carried inside dispatch events, with their
//! mathematical views and their parsers from JSON trees.
//!
//! Parsers return `MissingField(name)` when a required field is absent or of
//! the wrong shape, and `InvalidField(name)` when an optional field is
//! present with the wrong shape.

use vstd::prelude::*;

use super::fields::{
    field_bool, field_id, field_str, field_u64, id_value, opt_field_bool, opt_field_id,
    opt_field_str, opt_field_u64, spec_field_bool, spec_field_id, spec_field_str, spec_field_u64,
    spec_id, spec_opt_field_bool, spec_opt_field_id, spec_opt_field_str, spec_opt_field_u64,
    OptField,
};
use super::{
    channel_type_from_code, message_type_from_code, perr_view, ChannelType, MessageType, PErr,
    ProtocolError,
};
use crate::json::{get_field, jv, jv_get, value_as_array, value_is_null, Jv};
use crate::snowflake::Snowflake;

verus! {

/// Folds an element parser over the elements of a JSON array; the error of
/// the earliest ill-shaped element wins.
pub open spec fn arr_of<T>(items: Seq<Jv>, f: spec_fn(Jv) -> Result<T, PErr>) -> Result<
    Seq<T>,
    PErr,
>
    decreases items.len(),
{
    if items.len() == 0 {
        Ok(Seq::empty())
    } else {
        match arr_of(items.drop_last(), f) {
            Ok(rs) => match f(items.last()) {
                Ok(x) => Ok(rs.push(x)),
                Err(e) => Err(e),
            },
            Err(e) => Err(e),
        }
    }
}

/// An ill-shaped element keeps the whole array ill-shaped, whatever follows.
pub proof fn lemma_arr_of_err<T>(items: Seq<Jv>, f: spec_fn(Jv) -> Result<T, PErr>, k: int)
    requires
        0 <= k <= items.len(),
        arr_of(items.take(k), f) is Err,
    ensures
        arr_of(items, f) == arr_of(items.take(k), f),
    decreases items.len() - k,
{
    if k < items.len() {
        assert(items.take(k + 1).drop_last() =~= items.take(k));
        lemma_arr_of_err(items, f, k + 1);
    } else {
        assert(items.take(k) =~= items);
    }
}

pub open spec fn of_opt<T>(f: OptField<T>) -> Option<T> {
    match f {
        OptField::Val(x) => Some(x),
        _ => None,
    }
}

/// The tree contents of a `Seq` of parsed values.
pub open spec fn jvs(items: Seq<serde_json::Value>) -> Seq<Jv> {
    items.map_values(|x: serde_json::Value| jv(x))
}

/// A platform account.
pub struct User {
    pub id: Snowflake,
    pub username: String,
    pub discriminator: String,
    pub avatar: Option<String>,
    pub bot: Option<bool>,
    pub system: Option<bool>,
}

pub struct UserV {
    pub id: u64,
    pub username: Seq<char>,
    pub discriminator: Seq<char>,
    pub avatar: Option<Seq<char>>,
    pub bot: Option<bool>,
    pub system: Option<bool>,
}

impl View for User {
    type V = UserV;

    open spec fn view(&self) -> UserV {
        UserV {
            id: self.id.value,
            username: self.username@,
            discriminator: self.discriminator@,
            avatar: match self.avatar {
                Some(ref s) => Some(s@),
                None => None,
            },
            bot: self.bot,
            system: self.system,
        }
    }
}

pub open spec fn user_of(j: Jv) -> Result<UserV, PErr> {
    if spec_field_id(j, "id"@).is_none() {
        Err(PErr::Missing("id"@))
    } else if spec_field_str(j, "username"@).is_none() {
        Err(PErr::Missing("username"@))
    } else if spec_field_str(j, "discriminator"@).is_none() {
        Err(PErr::Missing("discriminator"@))
    } else if spec_opt_field_str(j, "avatar"@) is Bad {
        Err(PErr::Invalid("avatar"@))
    } else if spec_opt_field_bool(j, "bot"@) is Bad {
        Err(PErr::Invalid("bot"@))
    } else if spec_opt_field_bool(j, "system"@) is Bad {
        Err(PErr::Invalid("system"@))
    } else {
        Ok(
            UserV {
                id: spec_field_id(j, "id"@).unwrap(),
                username: spec_field_str(j, "username"@).unwrap(),
                discriminator: spec_field_str(j, "discriminator"@).unwrap(),
                avatar: of_opt(spec_opt_field_str(j, "avatar"@)),
                bot: of_opt(spec_opt_field_bool(j, "bot"@)),
                system: of_opt(spec_opt_field_bool(j, "system"@)),
            },
        )
    }
}

pub fn parse_user(v: &serde_json::Value) -> (r: Result<User, ProtocolError>)
    ensures
        match r {
            Ok(u) => user_of(jv(*v)) == Ok::<UserV, PErr>(u@),
            Err(e) => user_of(jv(*v)) == Err::<UserV, PErr>(perr_view(e)),
        },
{
    let id = match field_id(v, "id") {
        Some(n) => Snowflake::new(n),
        None => {
            return Err(ProtocolError::MissingField("id"));
        },
    };
    let username = match field_str(v, "username") {
        Some(s) => s,
        None => {
            return Err(ProtocolError::MissingField("username"));
        },
    };
    let discriminator = match field_str(v, "discriminator") {
        Some(s) => s,
        None => {
            return Err(ProtocolError::MissingField("discriminator"));
        },
    };
    let avatar = match opt_field_str(v, "avatar") {
        Ok(a) => a,
        Err(_) => {
            return Err(ProtocolError::InvalidField("avatar"));
        },
    };
    let bot = match opt_field_bool(v, "bot") {
        Ok(b) => b,
        Err(_) => {
            return Err(ProtocolError::InvalidField("bot"));
        },
    };
    let system = match opt_field_bool(v, "system") {
        Ok(b) => b,
        Err(_) => {
            return Err(ProtocolError::InvalidField("system"));
        },
    };
    Ok(User { id, username, discriminator, avatar, bot, system })
}

/// A role, with its display and permission attributes.
pub struct Role {
    pub id: Snowflake,
    pub name: String,
    pub color: u32,
    pub hoist: bool,
    pub position: u16,
    pub permissions: u64,
    pub managed: bool,
    pub mentionable: bool,
}

pub struct RoleV {
    pub id: u64,
    pub name: Seq<char>,
    pub color: u32,
    pub hoist: bool,
    pub position: u16,
    pub permissions: u64,
    pub managed: bool,
    pub mentionable: bool,
}

impl View for Role {
    type V = RoleV;

    open spec fn view(&self) -> RoleV {
        RoleV {
            id: self.id.value,
            name: self.name@,
            color: self.color,
            hoist: self.hoist,
            position: self.position,
            permissions: self.permissions,
            managed: self.managed,
            mentionable: self.mentionable,
        }
    }
}

pub open spec fn role_of(j: Jv) -> Result<RoleV, PErr> {
    if spec_field_id(j, "id"@).is_none() {
        Err(PErr::Missing("id"@))
    } else if spec_field_str(j, "name"@).is_none() {
        Err(PErr::Missing("name"@))
    } else if spec_field_u64(j, "color"@).is_none() || spec_field_u64(j, "color"@).unwrap()
        > u32::MAX {
        Err(PErr::Missing("color"@))
    } else if spec_field_bool(j, "hoist"@).is_none() {
        Err(PErr::Missing("hoist"@))
    } else if spec_field_u64(j, "position"@).is_none() || spec_field_u64(j, "position"@).unwrap()
        > u16::MAX {
        Err(PErr::Missing("position"@))
    } else if spec_field_id(j, "permissions"@).is_none() {
        Err(PErr::Missing("permissions"@))
    } else if spec_field_bool(j, "managed"@).is_none() {
        Err(PErr::Missing("managed"@))
    } else if spec_field_bool(j, "mentionable"@).is_none() {
        Err(PErr::Missing("mentionable"@))
    } else {
        Ok(
            RoleV {
                id: spec_field_id(j, "id"@).unwrap(),
                name: spec_field_str(j, "name"@).unwrap(),
                color: spec_field_u64(j, "color"@).unwrap() as u32,
                hoist: spec_field_bool(j, "hoist"@).unwrap(),
                position: spec_field_u64(j, "position"@).unwrap() as u16,
                permissions: spec_field_id(j, "permissions"@).unwrap(),
                managed: spec_field_bool(j, "managed"@).unwrap(),
                mentionable: spec_field_bool(j, "mentionable"@).unwrap(),
            },
        )
    }
}

pub fn parse_role(v: &serde_json::Value) -> (r: Result<Role, ProtocolError>)
    ensures
        match r {
            Ok(x) => role_of(jv(*v)) == Ok::<RoleV, PErr>(x@),
            Err(e) => role_of(jv(*v)) == Err::<RoleV, PErr>(perr_view(e)),
        },
{
    let id = match field_id(v, "id") {
        Some(n) => Snowflake::new(n),
        None => {
            return Err(ProtocolError::MissingField("id"));
        },
    };
    let name = match field_str(v, "name") {
        Some(s) => s,
        None => {
            return Err(ProtocolError::MissingField("name"));
        },
    };
    let color = match field_u64(v, "color") {
        Some(n) if n <= u32::MAX as u64 => n as u32,
        _ => {
            return Err(ProtocolError::MissingField("color"));
        },
    };
    let hoist = match field_bool(v, "hoist") {
        Some(b) => b,
        None => {
            return Err(ProtocolError::MissingField("hoist"));
        },
    };
    let position = match field_u64(v, "position") {
        Some(n) if n <= u16::MAX as u64 => n as u16,
        _ => {
            return Err(ProtocolError::MissingField("position"));
        },
    };
    let permissions = match field_id(v, "permissions") {
        Some(n) => n,
        None => {
            return Err(ProtocolError::MissingField("permissions"));
        },
    };
    let managed = match field_bool(v, "managed") {
        Some(b) => b,
        None => {
            return Err(ProtocolError::MissingField("managed"));
        },
    };
    let mentionable = match field_bool(v, "mentionable") {
        Some(b) => b,
        None => {
            return Err(ProtocolError::MissingField("mentionable"));
        },
    };
    Ok(Role { id, name, color, hoist, position, permissions, managed, mentionable })
}

/// A guild channel or direct-message channel.
pub struct Channel {
    pub id: Snowflake,
    pub channel_type: ChannelType,
    pub guild_id: Option<Snowflake>,
    pub position: Option<u16>,
    pub name: Option<String>,
    pub topic: Option<String>,
    pub nsfw: Option<bool>,
    pub bitrate: Option<u32>,
    pub user_limit: Option<u16>,
    pub rate_limit_per_user: Option<u16>,
    pub parent_id: Option<Snowflake>,
}

pub struct ChannelV {
    pub id: u64,
    pub channel_type: ChannelType,
    pub guild_id: Option<u64>,
    pub position: Option<u16>,
    pub name: Option<Seq<char>>,
    pub topic: Option<Seq<char>>,
    pub nsfw: Option<bool>,
    pub bitrate: Option<u32>,
    pub user_limit: Option<u16>,
    pub rate_limit_per_user: Option<u16>,
    pub parent_id: Option<u64>,
}

impl View for Channel {
    type V = ChannelV;

    open spec fn view(&self) -> ChannelV {
        ChannelV {
            id: self.id.value,
            channel_type: self.channel_type,
            guild_id: match self.guild_id {
                Some(g) => Some(g.value),
                None => None,
            },
            position: self.position,
            name: match self.name {
                Some(ref s) => Some(s@),
                None => None,
            },
            topic: match self.topic {
                Some(ref s) => Some(s@),
                None => None,
            },
            nsfw: self.nsfw,
            bitrate: self.bitrate,
            user_limit: self.user_limit,
            rate_limit_per_user: self.rate_limit_per_user,
            parent_id: match self.parent_id {
                Some(g) => Some(g.value),
                None => None,
            },
        }
    }
}

pub open spec fn opt_u16_of(f: OptField<u64>) -> Option<Option<u16>> {
    match f {
        OptField::Absent => Some(None),
        OptField::Val(n) => if n <= u16::MAX {
            Some(Some(n as u16))
        } else {
            None
        },
        OptField::Bad => None,
    }
}

pub open spec fn opt_u32_of(f: OptField<u64>) -> Option<Option<u32>> {
    match f {
        OptField::Absent => Some(None),
        OptField::Val(n) => if n <= u32::MAX {
            Some(Some(n as u32))
        } else {
            None
        },
        OptField::Bad => None,
    }
}

pub open spec fn channel_of(j: Jv) -> Result<ChannelV, PErr> {
    if spec_field_id(j, "id"@).is_none() {
        Err(PErr::Missing("id"@))
    } else if spec_field_u64(j, "type"@).is_none() || channel_type_from_code(
        spec_field_u64(j, "type"@).unwrap(),
    ).is_none() {
        Err(PErr::Missing("type"@))
    } else if spec_opt_field_id(j, "guild_id"@) is Bad {
        Err(PErr::Invalid("guild_id"@))
    } else if opt_u16_of(spec_opt_field_u64(j, "position"@)).is_none() {
        Err(PErr::Invalid("position"@))
    } else if spec_opt_field_str(j, "name"@) is Bad {
        Err(PErr::Invalid("name"@))
    } else if spec_opt_field_str(j, "topic"@) is Bad {
        Err(PErr::Invalid("topic"@))
    } else if spec_opt_field_bool(j, "nsfw"@) is Bad {
        Err(PErr::Invalid("nsfw"@))
    } else if opt_u32_of(spec_opt_field_u64(j, "bitrate"@)).is_none() {
        Err(PErr::Invalid("bitrate"@))
    } else if opt_u16_of(spec_opt_field_u64(j, "user_limit"@)).is_none() {
        Err(PErr::Invalid("user_limit"@))
    } else if opt_u16_of(spec_opt_field_u64(j, "rate_limit_per_user"@)).is_none() {
        Err(PErr::Invalid("rate_limit_per_user"@))
    } else if spec_opt_field_id(j, "parent_id"@) is Bad {
        Err(PErr::Invalid("parent_id"@))
    } else {
        Ok(
            ChannelV {
                id: spec_field_id(j, "id"@).unwrap(),
                channel_type: channel_type_from_code(spec_field_u64(j, "type"@).unwrap()).unwrap(),
                guild_id: of_opt(spec_opt_field_id(j, "guild_id"@)),
                position: opt_u16_of(spec_opt_field_u64(j, "position"@)).unwrap(),
                name: of_opt(spec_opt_field_str(j, "name"@)),
                topic: of_opt(spec_opt_field_str(j, "topic"@)),
                nsfw: of_opt(spec_opt_field_bool(j, "nsfw"@)),
                bitrate: opt_u32_of(spec_opt_field_u64(j, "bitrate"@)).unwrap(),
                user_limit: opt_u16_of(spec_opt_field_u64(j, "user_limit"@)).unwrap(),
                rate_limit_per_user: opt_u16_of(
                    spec_opt_field_u64(j, "rate_limit_per_user"@),
                ).unwrap(),
                parent_id: of_opt(spec_opt_field_id(j, "parent_id"@)),
            },
        )
    }
}

pub fn parse_channel(v: &serde_json::Value) -> (r: Result<Channel, ProtocolError>)
    ensures
        match r {
            Ok(x) => channel_of(jv(*v)) == Ok::<ChannelV, PErr>(x@),
            Err(e) => channel_of(jv(*v)) == Err::<ChannelV, PErr>(perr_view(e)),
        },
{
    let id = match field_id(v, "id") {
        Some(n) => Snowflake::new(n),
        None => {
            return Err(ProtocolError::MissingField("id"));
        },
    };
    let channel_type = match field_u64(v, "type") {
        Some(code) => match ChannelType::from_code(code) {
            Some(t) => t,
            None => {
                return Err(ProtocolError::MissingField("type"));
            },
        },
        None => {
            return Err(ProtocolError::MissingField("type"));
        },
    };
    let guild_id = match opt_field_id(v, "guild_id") {
        Ok(g) => match g {
            Some(n) => Some(Snowflake::new(n)),
            None => None,
        },
        Err(_) => {
            return Err(ProtocolError::InvalidField("guild_id"));
        },
    };
    let position = match opt_field_u64(v, "position") {
        Ok(Some(n)) if n <= u16::MAX as u64 => Some(n as u16),
        Ok(Some(_)) => {
            return Err(ProtocolError::InvalidField("position"));
        },
        Ok(None) => None,
        Err(_) => {
            return Err(ProtocolError::InvalidField("position"));
        },
    };
    let name = match opt_field_str(v, "name") {
        Ok(s) => s,
        Err(_) => {
            return Err(ProtocolError::InvalidField("name"));
        },
    };
    let topic = match opt_field_str(v, "topic") {
        Ok(s) => s,
        Err(_) => {
            return Err(ProtocolError::InvalidField("topic"));
        },
    };
    let nsfw = match opt_field_bool(v, "nsfw") {
        Ok(b) => b,
        Err(_) => {
            return Err(ProtocolError::InvalidField("nsfw"));
        },
    };
    let bitrate = match opt_field_u64(v, "bitrate") {
        Ok(Some(n)) if n <= u32::MAX as u64 => Some(n as u32),
        Ok(Some(_)) => {
            return Err(ProtocolError::InvalidField("bitrate"));
        },
        Ok(None) => None,
        Err(_) => {
            return Err(ProtocolError::InvalidField("bitrate"));
        },
    };
    let user_limit = match opt_field_u64(v, "user_limit") {
        Ok(Some(n)) if n <= u16::MAX as u64 => Some(n as u16),
        Ok(Some(_)) => {
            return Err(ProtocolError::InvalidField("user_limit"));
        },
        Ok(None) => None,
        Err(_) => {
            return Err(ProtocolError::InvalidField("user_limit"));
        },
    };
    let rate_limit_per_user = match opt_field_u64(v, "rate_limit_per_user") {
        Ok(Some(n)) if n <= u16::MAX as u64 => Some(n as u16),
        Ok(Some(_)) => {
            return Err(ProtocolError::InvalidField("rate_limit_per_user"));
        },
        Ok(None) => None,
        Err(_) => {
            return Err(ProtocolError::InvalidField("rate_limit_per_user"));
        },
    };
    let parent_id = match opt_field_id(v, "parent_id") {
        Ok(g) => match g {
            Some(n) => Some(Snowflake::new(n)),
            None => None,
        },
        Err(_) => {
            return Err(ProtocolError::InvalidField("parent_id"));
        },
    };
    Ok(
        Channel {
            id,
            channel_type,
            guild_id,
            position,
            name,
            topic,
            nsfw,
            bitrate,
            user_limit,
            rate_limit_per_user,
            parent_id,
        },
    )
}

/// The elements of an array field, or none where the field is absent or not
/// an array.
pub open spec fn spec_field_arr(j: Jv, k: Seq<char>) -> Option<Seq<Jv>> {
    match jv_get(j, k) {
        Some(f) => match f {
            Jv::Arr(items) => Some(items),
            _ => None,
        },
        None => None,
    }
}

/// Reads a required array field.
pub fn field_array<'a>(v: &'a serde_json::Value, key: &str) -> (r: Option<
    &'a Vec<serde_json::Value>,
>)
    ensures
        match r {
            Some(a) => spec_field_arr(jv(*v), key@) == Some(jvs(a@)),
            None => spec_field_arr(jv(*v), key@).is_none(),
        },
{
    match get_field(v, key) {
        Some(f) => value_as_array(f),
        None => None,
    }
}

pub open spec fn roles_of(items: Seq<Jv>) -> Result<Seq<RoleV>, PErr> {
    arr_of(items, |j: Jv| role_of(j))
}

/// Parses the elements of a JSON array as roles.
pub fn parse_roles(items: &Vec<serde_json::Value>) -> (r: Result<Vec<Role>, ProtocolError>)
    ensures
        match r {
            Ok(rs) => roles_of(jvs(items@)) == Ok::<Seq<RoleV>, PErr>(
                rs@.map_values(|x: Role| x@),
            ),
            Err(e) => roles_of(jvs(items@)) == Err::<Seq<RoleV>, PErr>(perr_view(e)),
        },
{
    let ghost ji = jvs(items@);
    let mut out: Vec<Role> = Vec::new();
    let mut i: usize = 0;
    proof {
        assert(out@.map_values(|x: Role| x@) =~= Seq::<RoleV>::empty());
    }
    while i < items.len()
        invariant
            0 <= i <= items@.len(),
            ji == jvs(items@),
            arr_of(ji.take(i as int), |j: Jv| role_of(j)) == Ok::<Seq<RoleV>, PErr>(
                out@.map_values(|x: Role| x@),
            ),
        decreases items@.len() - i,
    {
        proof {
            assert(ji.take(i + 1).drop_last() =~= ji.take(i as int));
            assert(ji.take(i + 1).last() == ji[i as int]);
        }
        match parse_role(&items[i]) {
            Ok(role) => {
                proof {
                    assert(ji[i as int] == jv(items@[i as int]));
                }
                let ghost old_map = out@.map_values(|x: Role| x@);
                out.push(role);
                proof {
                    assert(out@.map_values(|x: Role| x@) =~= old_map.push(role@));
                    assert(arr_of(ji.take(i + 1), |j: Jv| role_of(j)) == Ok::<Seq<RoleV>, PErr>(
                        out@.map_values(|x: Role| x@),
                    ));
                }
            },
            Err(e) => {
                proof {
                    lemma_arr_of_err(ji, |j: Jv| role_of(j), i + 1);
                }
                return Err(e);
            },
        }
        i = i + 1;
    }
    proof {
        assert(ji.take(i as int) =~= ji);
    }
    Ok(out)
}

pub open spec fn channels_of(items: Seq<Jv>) -> Result<Seq<ChannelV>, PErr> {
    arr_of(items, |j: Jv| channel_of(j))
}

/// Parses the elements of a JSON array as channels.
pub fn parse_channels(items: &Vec<serde_json::Value>) -> (r: Result<Vec<Channel>, ProtocolError>)
    ensures
        match r {
            Ok(rs) => channels_of(jvs(items@)) == Ok::<Seq<ChannelV>, PErr>(
                rs@.map_values(|x: Channel| x@),
            ),
            Err(e) => channels_of(jvs(items@)) == Err::<Seq<ChannelV>, PErr>(perr_view(e)),
        },
{
    let ghost ji = jvs(items@);
    let mut out: Vec<Channel> = Vec::new();
    let mut i: usize = 0;
    proof {
        assert(out@.map_values(|x: Channel| x@) =~= Seq::<ChannelV>::empty());
    }
    while i < items.len()
        invariant
            0 <= i <= items@.len(),
            ji == jvs(items@),
            arr_of(ji.take(i as int), |j: Jv| channel_of(j)) == Ok::<Seq<ChannelV>, PErr>(
                out@.map_values(|x: Channel| x@),
            ),
        decreases items@.len() - i,
    {
        proof {
            assert(ji.take(i + 1).drop_last() =~= ji.take(i as int));
            assert(ji.take(i + 1).last() == ji[i as int]);
        }
        match parse_channel(&items[i]) {
            Ok(channel) => {
                proof {
                    assert(ji[i as int] == jv(items@[i as int]));
                }
                let ghost old_map = out@.map_values(|x: Channel| x@);
                out.push(channel);
                proof {
                    assert(out@.map_values(|x: Channel| x@) =~= old_map.push(channel@));
                    assert(arr_of(ji.take(i + 1), |j: Jv| channel_of(j)) == Ok::<Seq<ChannelV>, PErr>(
                        out@.map_values(|x: Channel| x@),
                    ));
                }
            },
            Err(e) => {
                proof {
                    lemma_arr_of_err(ji, |j: Jv| channel_of(j), i + 1);
                }
                return Err(e);
            },
        }
        i = i + 1;
    }
    proof {
        assert(ji.take(i as int) =~= ji);
    }
    Ok(out)
}

pub open spec fn users_of(items: Seq<Jv>) -> Result<Seq<UserV>, PErr> {
    arr_of(items, |j: Jv| user_of(j))
}

/// Parses the elements of a JSON array as users.
pub fn parse_users(items: &Vec<serde_json::Value>) -> (r: Result<Vec<User>, ProtocolError>)
    ensures
        match r {
            Ok(rs) => users_of(jvs(items@)) == Ok::<Seq<UserV>, PErr>(
                rs@.map_values(|x: User| x@),
            ),
            Err(e) => users_of(jvs(items@)) == Err::<Seq<UserV>, PErr>(perr_view(e)),
        },
{
    let ghost ji = jvs(items@);
    let mut out: Vec<User> = Vec::new();
    let mut i: usize = 0;
    proof {
        assert(out@.map_values(|x: User| x@) =~= Seq::<UserV>::empty());
    }
    while i < items.len()
        invariant
            0 <= i <= items@.len(),
            ji == jvs(items@),
            arr_of(ji.take(i as int), |j: Jv| user_of(j)) == Ok::<Seq<UserV>, PErr>(
                out@.map_values(|x: User| x@),
            ),
        decreases items@.len() - i,
    {
        proof {
            assert(ji.take(i + 1).drop_last() =~= ji.take(i as int));
            assert(ji.take(i + 1).last() == ji[i as int]);
        }
        match parse_user(&items[i]) {
            Ok(user) => {
                proof {
                    assert(ji[i as int] == jv(items@[i as int]));
                }
                let ghost old_map = out@.map_values(|x: User| x@);
                out.push(user);
                proof {
                    assert(out@.map_values(|x: User| x@) =~= old_map.push(user@));
                    assert(arr_of(ji.take(i + 1), |j: Jv| user_of(j)) == Ok::<Seq<UserV>, PErr>(
                        out@.map_values(|x: User| x@),
                    ));
                }
            },
            Err(e) => {
                proof {
                    lemma_arr_of_err(ji, |j: Jv| user_of(j), i + 1);
                }
                return Err(e);
            },
        }
        i = i + 1;
    }
    proof {
        assert(ji.take(i as int) =~= ji);
    }
    Ok(out)
}

/// An id element of an array: a number or a decimal string.
pub open spec fn id_of(j: Jv) -> Result<u64, PErr> {
    match spec_id(j) {
        Some(n) => Ok(n),
        None => Err(PErr::Invalid("id"@)),
    }
}

pub open spec fn ids_of(items: Seq<Jv>) -> Result<Seq<u64>, PErr> {
    arr_of(items, |j: Jv| id_of(j))
}

/// Parses the elements of a JSON array as ids.
pub fn parse_ids(items: &Vec<serde_json::Value>) -> (r: Result<Vec<Snowflake>, ProtocolError>)
    ensures
        match r {
            Ok(rs) => ids_of(jvs(items@)) == Ok::<Seq<u64>, PErr>(
                rs@.map_values(|x: Snowflake| x.value),
            ),
            Err(e) => ids_of(jvs(items@)) == Err::<Seq<u64>, PErr>(perr_view(e)),
        },
{
    let ghost ji = jvs(items@);
    let mut out: Vec<Snowflake> = Vec::new();
    let mut i: usize = 0;
    proof {
        assert(out@.map_values(|x: Snowflake| x.value) =~= Seq::<u64>::empty());
    }
    while i < items.len()
        invariant
            0 <= i <= items@.len(),
            ji == jvs(items@),
            arr_of(ji.take(i as int), |j: Jv| id_of(j)) == Ok::<Seq<u64>, PErr>(
                out@.map_values(|x: Snowflake| x.value),
            ),
        decreases items@.len() - i,
    {
        proof {
            assert(ji.take(i + 1).drop_last() =~= ji.take(i as int));
            assert(ji.take(i + 1).last() == ji[i as int]);
        }
        match id_value(&items[i]) {
            Some(n) => {
                proof {
                    assert(ji[i as int] == jv(items@[i as int]));
                }
                let ghost old_map = out@.map_values(|x: Snowflake| x.value);
                out.push(Snowflake::new(n));
                proof {
                    assert(out@.map_values(|x: Snowflake| x.value) =~= old_map.push(n));
                    assert(arr_of(ji.take(i + 1), |j: Jv| id_of(j)) == Ok::<Seq<u64>, PErr>(
                        out@.map_values(|x: Snowflake| x.value),
                    ));
                }
            },
            None => {
                proof {
                    lemma_arr_of_err(ji, |j: Jv| id_of(j), i + 1);
                }
                return Err(ProtocolError::InvalidField("id"));
            },
        }
        i = i + 1;
    }
    proof {
        assert(ji.take(i as int) =~= ji);
    }
    Ok(out)
}


/// A guild member: an account plus its guild-local attributes.
pub struct Member {
    pub user: Option<User>,
    pub nick: Option<String>,
    pub roles: Vec<Snowflake>,
    pub joined_at: String,
    pub hoisted_role: Option<Snowflake>,
    pub premium_since: Option<String>,
    pub deaf: bool,
    pub mute: bool,
}

pub struct MemberV {
    pub user: Option<UserV>,
    pub nick: Option<Seq<char>>,
    pub roles: Seq<u64>,
    pub joined_at: Seq<char>,
    pub hoisted_role: Option<u64>,
    pub premium_since: Option<Seq<char>>,
    pub deaf: bool,
    pub mute: bool,
}

impl View for Member {
    type V = MemberV;

    open spec fn view(&self) -> MemberV {
        MemberV {
            user: match self.user {
                Some(ref u) => Some(u@),
                None => None,
            },
            nick: match self.nick {
                Some(ref s) => Some(s@),
                None => None,
            },
            roles: self.roles@.map_values(|x: Snowflake| x.value),
            joined_at: self.joined_at@,
            hoisted_role: match self.hoisted_role {
                Some(g) => Some(g.value),
                None => None,
            },
            premium_since: match self.premium_since {
                Some(ref s) => Some(s@),
                None => None,
            },
            deaf: self.deaf,
            mute: self.mute,
        }
    }
}

/// The optional `user` object carried by a member record.
pub open spec fn member_user_of(j: Jv) -> Result<Option<UserV>, PErr> {
    match jv_get(j, "user"@) {
        None => Ok(None),
        Some(f) => if f is Null {
            Ok(None)
        } else {
            match user_of(f) {
                Ok(u) => Ok(Some(u)),
                Err(e) => Err(e),
            }
        },
    }
}

pub open spec fn member_roles_of(j: Jv) -> Result<Seq<u64>, PErr> {
    match spec_field_arr(j, "roles"@) {
        None => Err(PErr::Missing("roles"@)),
        Some(items) => ids_of(items),
    }
}

pub open spec fn member_of(j: Jv) -> Result<MemberV, PErr> {
    if member_user_of(j) is Err {
        Err(member_user_of(j)->Err_0)
    } else if spec_opt_field_str(j, "nick"@) is Bad {
        Err(PErr::Invalid("nick"@))
    } else if member_roles_of(j) is Err {
        Err(member_roles_of(j)->Err_0)
    } else if spec_field_str(j, "joined_at"@).is_none() {
        Err(PErr::Missing("joined_at"@))
    } else if spec_opt_field_id(j, "hoisted_role"@) is Bad {
        Err(PErr::Invalid("hoisted_role"@))
    } else if spec_opt_field_str(j, "premium_since"@) is Bad {
        Err(PErr::Invalid("premium_since"@))
    } else if spec_field_bool(j, "deaf"@).is_none() {
        Err(PErr::Missing("deaf"@))
    } else if spec_field_bool(j, "mute"@).is_none() {
        Err(PErr::Missing("mute"@))
    } else {
        Ok(
            MemberV {
                user: member_user_of(j)->Ok_0,
                nick: of_opt(spec_opt_field_str(j, "nick"@)),
                roles: member_roles_of(j)->Ok_0,
                joined_at: spec_field_str(j, "joined_at"@).unwrap(),
                hoisted_role: of_opt(spec_opt_field_id(j, "hoisted_role"@)),
                premium_since: of_opt(spec_opt_field_str(j, "premium_since"@)),
                deaf: spec_field_bool(j, "deaf"@).unwrap(),
                mute: spec_field_bool(j, "mute"@).unwrap(),
            },
        )
    }
}

pub fn parse_member(v: &serde_json::Value) -> (r: Result<Member, ProtocolError>)
    ensures
        match r {
            Ok(x) => member_of(jv(*v)) == Ok::<MemberV, PErr>(x@),
            Err(e) => member_of(jv(*v)) == Err::<MemberV, PErr>(perr_view(e)),
        },
{
    let user = match get_field(v, "user") {
        None => None,
        Some(f) => if value_is_null(f) {
            None
        } else {
            match parse_user(f) {
                Ok(u) => Some(u),
                Err(e) => {
                    return Err(e);
                },
            }
        },
    };
    let nick = match opt_field_str(v, "nick") {
        Ok(s) => s,
        Err(_) => {
            return Err(ProtocolError::InvalidField("nick"));
        },
    };
    let roles = match field_array(v, "roles") {
        Some(items) => match parse_ids(items) {
            Ok(ids) => ids,
            Err(e) => {
                return Err(e);
            },
        },
        None => {
            return Err(ProtocolError::MissingField("roles"));
        },
    };
    let joined_at = match field_str(v, "joined_at") {
        Some(s) => s,
        None => {
            return Err(ProtocolError::MissingField("joined_at"));
        },
    };
    let hoisted_role = match opt_field_id(v, "hoisted_role") {
        Ok(Some(n)) => Some(Snowflake::new(n)),
        Ok(None) => None,
        Err(_) => {
            return Err(ProtocolError::InvalidField("hoisted_role"));
        },
    };
    let premium_since = match opt_field_str(v, "premium_since") {
        Ok(s) => s,
        Err(_) => {
            return Err(ProtocolError::InvalidField("premium_since"));
        },
    };
    let deaf = match field_bool(v, "deaf") {
        Some(b) => b,
        None => {
            return Err(ProtocolError::MissingField("deaf"));
        },
    };
    let mute = match field_bool(v, "mute") {
        Some(b) => b,
        None => {
            return Err(ProtocolError::MissingField("mute"));
        },
    };
    Ok(Member { user, nick, roles, joined_at, hoisted_role, premium_since, deaf, mute })
}

pub open spec fn members_of(items: Seq<Jv>) -> Result<Seq<MemberV>, PErr> {
    arr_of(items, |j: Jv| member_of(j))
}

/// Parses the elements of a JSON array as members.
pub fn parse_members(items: &Vec<serde_json::Value>) -> (r: Result<Vec<Member>, ProtocolError>)
    ensures
        match r {
            Ok(rs) => members_of(jvs(items@)) == Ok::<Seq<MemberV>, PErr>(
                rs@.map_values(|x: Member| x@),
            ),
            Err(e) => members_of(jvs(items@)) == Err::<Seq<MemberV>, PErr>(perr_view(e)),
        },
{
    let ghost ji = jvs(items@);
    let mut out: Vec<Member> = Vec::new();
    let mut i: usize = 0;
    proof {
        assert(out@.map_values(|x: Member| x@) =~= Seq::<MemberV>::empty());
    }
    while i < items.len()
        invariant
            0 <= i <= items@.len(),
            ji == jvs(items@),
            arr_of(ji.take(i as int), |j: Jv| member_of(j)) == Ok::<Seq<MemberV>, PErr>(
                out@.map_values(|x: Member| x@),
            ),
        decreases items@.len() - i,
    {
        proof {
            assert(ji.take(i + 1).drop_last() =~= ji.take(i as int));
            assert(ji.take(i + 1).last() == ji[i as int]);
        }
        match parse_member(&items[i]) {
            Ok(member) => {
                proof {
                    assert(ji[i as int] == jv(items@[i as int]));
                }
                let ghost old_map = out@.map_values(|x: Member| x@);
                out.push(member);
                proof {
                    assert(out@.map_values(|x: Member| x@) =~= old_map.push(member@));
                    assert(arr_of(ji.take(i + 1), |j: Jv| member_of(j)) == Ok::<Seq<MemberV>, PErr>(
                        out@.map_values(|x: Member| x@),
                    ));
                }
            },
            Err(e) => {
                proof {
                    lemma_arr_of_err(ji, |j: Jv| member_of(j), i + 1);
                }
                return Err(e);
            },
        }
        i = i + 1;
    }
    proof {
        assert(ji.take(i as int) =~= ji);
    }
    Ok(out)
}

/// A custom emoji attached to a guild.
pub struct Emoji {
    pub id: Snowflake,
    pub name: String,
    pub animated: bool,
}

impl Emoji {
    pub fn new(id: Snowflake, name: String, animated: bool) -> (r: Emoji)
        ensures
            r.id == id,
            r.name == name,
            r.animated == animated,
    {
        Emoji { id, name, animated }
    }
}

/// The emoji carried by a reaction event: an id, a name, or both.
pub struct ReactionEmoji {
    pub id: Option<Snowflake>,
    pub name: Option<String>,
    pub animated: bool,
}

pub struct ReactionEmojiV {
    pub id: Option<u64>,
    pub name: Option<Seq<char>>,
    pub animated: bool,
}

impl View for ReactionEmoji {
    type V = ReactionEmojiV;

    open spec fn view(&self) -> ReactionEmojiV {
        ReactionEmojiV {
            id: match self.id {
                Some(g) => Some(g.value),
                None => None,
            },
            name: match self.name {
                Some(ref s) => Some(s@),
                None => None,
            },
            animated: self.animated,
        }
    }
}

pub open spec fn reaction_emoji_of(j: Jv) -> Result<ReactionEmojiV, PErr> {
    if spec_opt_field_id(j, "id"@) is Bad {
        Err(PErr::Invalid("id"@))
    } else if spec_opt_field_str(j, "name"@) is Bad {
        Err(PErr::Invalid("name"@))
    } else if spec_opt_field_bool(j, "animated"@) is Bad {
        Err(PErr::Invalid("animated"@))
    } else {
        Ok(
            ReactionEmojiV {
                id: of_opt(spec_opt_field_id(j, "id"@)),
                name: of_opt(spec_opt_field_str(j, "name"@)),
                animated: match of_opt(spec_opt_field_bool(j, "animated"@)) {
                    Some(b) => b,
                    None => false,
                },
            },
        )
    }
}

pub fn parse_reaction_emoji(v: &serde_json::Value) -> (r: Result<ReactionEmoji, ProtocolError>)
    ensures
        match r {
            Ok(x) => reaction_emoji_of(jv(*v)) == Ok::<ReactionEmojiV, PErr>(x@),
            Err(e) => reaction_emoji_of(jv(*v)) == Err::<ReactionEmojiV, PErr>(perr_view(e)),
        },
{
    let id = match opt_field_id(v, "id") {
        Ok(Some(n)) => Some(Snowflake::new(n)),
        Ok(None) => None,
        Err(_) => {
            return Err(ProtocolError::InvalidField("id"));
        },
    };
    let name = match opt_field_str(v, "name") {
        Ok(s) => s,
        Err(_) => {
            return Err(ProtocolError::InvalidField("name"));
        },
    };
    let animated = match opt_field_bool(v, "animated") {
        Ok(Some(b)) => b,
        Ok(None) => false,
        Err(_) => {
            return Err(ProtocolError::InvalidField("animated"));
        },
    };
    Ok(ReactionEmoji { id, name, animated })
}

/// A mention entry; the protocol leaves its contents unused here.
pub struct Mention {}

/// A channel referenced from a message's text.
pub struct ChannelMention {
    pub id: Snowflake,
    pub guild_id: Snowflake,
    pub channel_type: u8,
    pub name: String,
}

pub struct ChannelMentionV {
    pub id: u64,
    pub guild_id: u64,
    pub channel_type: u8,
    pub name: Seq<char>,
}

impl View for ChannelMention {
    type V = ChannelMentionV;

    open spec fn view(&self) -> ChannelMentionV {
        ChannelMentionV {
            id: self.id.value,
            guild_id: self.guild_id.value,
            channel_type: self.channel_type,
            name: self.name@,
        }
    }
}

pub open spec fn channel_mention_of(j: Jv) -> Result<ChannelMentionV, PErr> {
    if spec_field_id(j, "id"@).is_none() {
        Err(PErr::Missing("id"@))
    } else if spec_field_id(j, "guild_id"@).is_none() {
        Err(PErr::Missing("guild_id"@))
    } else if spec_field_u64(j, "type"@).is_none() || spec_field_u64(j, "type"@).unwrap()
        > u8::MAX {
        Err(PErr::Missing("type"@))
    } else if spec_field_str(j, "name"@).is_none() {
        Err(PErr::Missing("name"@))
    } else {
        Ok(
            ChannelMentionV {
                id: spec_field_id(j, "id"@).unwrap(),
                guild_id: spec_field_id(j, "guild_id"@).unwrap(),
                channel_type: spec_field_u64(j, "type"@).unwrap() as u8,
                name: spec_field_str(j, "name"@).unwrap(),
            },
        )
    }
}

pub fn parse_channel_mention(v: &serde_json::Value) -> (r: Result<ChannelMention, ProtocolError>)
    ensures
        match r {
            Ok(x) => channel_mention_of(jv(*v)) == Ok::<ChannelMentionV, PErr>(x@),
            Err(e) => channel_mention_of(jv(*v)) == Err::<ChannelMentionV, PErr>(perr_view(e)),
        },
{
    let id = match field_id(v, "id") {
        Some(n) => Snowflake::new(n),
        None => {
            return Err(ProtocolError::MissingField("id"));
        },
    };
    let guild_id = match field_id(v, "guild_id") {
        Some(n) => Snowflake::new(n),
        None => {
            return Err(ProtocolError::MissingField("guild_id"));
        },
    };
    let channel_type = match field_u64(v, "type") {
        Some(n) if n <= u8::MAX as u64 => n as u8,
        _ => {
            return Err(ProtocolError::MissingField("type"));
        },
    };
    let name = match field_str(v, "name") {
        Some(s) => s,
        None => {
            return Err(ProtocolError::MissingField("name"));
        },
    };
    Ok(ChannelMention { id, guild_id, channel_type, name })
}

pub open spec fn channel_mentions_of(items: Seq<Jv>) -> Result<Seq<ChannelMentionV>, PErr> {
    arr_of(items, |j: Jv| channel_mention_of(j))
}

/// Parses the elements of a JSON array as channel mentions.
pub fn parse_channel_mentions(items: &Vec<serde_json::Value>) -> (r: Result<
    Vec<ChannelMention>,
    ProtocolError,
>)
    ensures
        match r {
            Ok(rs) => channel_mentions_of(jvs(items@)) == Ok::<Seq<ChannelMentionV>, PErr>(
                rs@.map_values(|x: ChannelMention| x@),
            ),
            Err(e) => channel_mentions_of(jvs(items@)) == Err::<Seq<ChannelMentionV>, PErr>(
                perr_view(e),
            ),
        },
{
    let ghost ji = jvs(items@);
    let mut out: Vec<ChannelMention> = Vec::new();
    let mut i: usize = 0;
    proof {
        assert(out@.map_values(|x: ChannelMention| x@) =~= Seq::<ChannelMentionV>::empty());
    }
    while i < items.len()
        invariant
            0 <= i <= items@.len(),
            ji == jvs(items@),
            arr_of(ji.take(i as int), |j: Jv| channel_mention_of(j)) == Ok::<
                Seq<ChannelMentionV>,
                PErr,
            >(out@.map_values(|x: ChannelMention| x@)),
        decreases items@.len() - i,
    {
        proof {
            assert(ji.take(i + 1).drop_last() =~= ji.take(i as int));
            assert(ji.take(i + 1).last() == ji[i as int]);
        }
        match parse_channel_mention(&items[i]) {
            Ok(cm) => {
                proof {
                    assert(ji[i as int] == jv(items@[i as int]));
                }
                let ghost old_map = out@.map_values(|x: ChannelMention| x@);
                out.push(cm);
                proof {
                    assert(out@.map_values(|x: ChannelMention| x@) =~= old_map.push(cm@));
                    assert(arr_of(ji.take(i + 1), |j: Jv| channel_mention_of(j)) == Ok::<
                        Seq<ChannelMentionV>,
                        PErr,
                    >(out@.map_values(|x: ChannelMention| x@)));
                }
            },
            Err(e) => {
                proof {
                    lemma_arr_of_err(ji, |j: Jv| channel_mention_of(j), i + 1);
                }
                return Err(e);
            },
        }
        i = i + 1;
    }
    proof {
        assert(ji.take(i as int) =~= ji);
    }
    Ok(out)
}

/// The voice state of one user, as reported by the main gateway.
pub struct VoiceState {
    pub guild_id: Option<Snowflake>,
    pub channel_id: Option<Snowflake>,
    pub user_id: Snowflake,
    pub session_id: String,
}

pub struct VoiceStateV {
    pub guild_id: Option<u64>,
    pub channel_id: Option<u64>,
    pub user_id: u64,
    pub session_id: Seq<char>,
}

impl View for VoiceState {
    type V = VoiceStateV;

    open spec fn view(&self) -> VoiceStateV {
        VoiceStateV {
            guild_id: match self.guild_id {
                Some(g) => Some(g.value),
                None => None,
            },
            channel_id: match self.channel_id {
                Some(g) => Some(g.value),
                None => None,
            },
            user_id: self.user_id.value,
            session_id: self.session_id@,
        }
    }
}

pub open spec fn voice_state_of(j: Jv) -> Result<VoiceStateV, PErr> {
    if spec_opt_field_id(j, "guild_id"@) is Bad {
        Err(PErr::Invalid("guild_id"@))
    } else if spec_opt_field_id(j, "channel_id"@) is Bad {
        Err(PErr::Invalid("channel_id"@))
    } else if spec_field_id(j, "user_id"@).is_none() {
        Err(PErr::Missing("user_id"@))
    } else if spec_field_str(j, "session_id"@).is_none() {
        Err(PErr::Missing("session_id"@))
    } else {
        Ok(
            VoiceStateV {
                guild_id: of_opt(spec_opt_field_id(j, "guild_id"@)),
                channel_id: of_opt(spec_opt_field_id(j, "channel_id"@)),
                user_id: spec_field_id(j, "user_id"@).unwrap(),
                session_id: spec_field_str(j, "session_id"@).unwrap(),
            },
        )
    }
}

pub fn parse_voice_state(v: &serde_json::Value) -> (r: Result<VoiceState, ProtocolError>)
    ensures
        match r {
            Ok(x) => voice_state_of(jv(*v)) == Ok::<VoiceStateV, PErr>(x@),
            Err(e) => voice_state_of(jv(*v)) == Err::<VoiceStateV, PErr>(perr_view(e)),
        },
{
    let guild_id = match opt_field_id(v, "guild_id") {
        Ok(Some(n)) => Some(Snowflake::new(n)),
        Ok(None) => None,
        Err(_) => {
            return Err(ProtocolError::InvalidField("guild_id"));
        },
    };
    let channel_id = match opt_field_id(v, "channel_id") {
        Ok(Some(n)) => Some(Snowflake::new(n)),
        Ok(None) => None,
        Err(_) => {
            return Err(ProtocolError::InvalidField("channel_id"));
        },
    };
    let user_id = match field_id(v, "user_id") {
        Some(n) => Snowflake::new(n),
        None => {
            return Err(ProtocolError::MissingField("user_id"));
        },
    };
    let session_id = match field_str(v, "session_id") {
        Some(s) => s,
        None => {
            return Err(ProtocolError::MissingField("session_id"));
        },
    };
    Ok(VoiceState { guild_id, channel_id, user_id, session_id })
}


/// The member object carried inside a message, lacking the user.
pub struct MessageMember {
    pub nick: Option<String>,
    pub roles: Vec<Snowflake>,
    pub joined_at: String,
    pub hoisted_role: Option<Snowflake>,
    pub premium_since: Option<String>,
    pub deaf: bool,
    pub mute: bool,
}

pub struct MessageMemberV {
    pub nick: Option<Seq<char>>,
    pub roles: Seq<u64>,
    pub joined_at: Seq<char>,
    pub hoisted_role: Option<u64>,
    pub premium_since: Option<Seq<char>>,
    pub deaf: bool,
    pub mute: bool,
}

impl View for MessageMember {
    type V = MessageMemberV;

    open spec fn view(&self) -> MessageMemberV {
        MessageMemberV {
            nick: match self.nick {
                Some(ref s) => Some(s@),
                None => None,
            },
            roles: self.roles@.map_values(|x: Snowflake| x.value),
            joined_at: self.joined_at@,
            hoisted_role: match self.hoisted_role {
                Some(g) => Some(g.value),
                None => None,
            },
            premium_since: match self.premium_since {
                Some(ref s) => Some(s@),
                None => None,
            },
            deaf: self.deaf,
            mute: self.mute,
        }
    }
}

pub open spec fn message_member_of(j: Jv) -> Result<MessageMemberV, PErr> {
    if spec_opt_field_str(j, "nick"@) is Bad {
        Err(PErr::Invalid("nick"@))
    } else if member_roles_of(j) is Err {
        Err(member_roles_of(j)->Err_0)
    } else if spec_field_str(j, "joined_at"@).is_none() {
        Err(PErr::Missing("joined_at"@))
    } else if spec_opt_field_id(j, "hoisted_role"@) is Bad {
        Err(PErr::Invalid("hoisted_role"@))
    } else if spec_opt_field_str(j, "premium_since"@) is Bad {
        Err(PErr::Invalid("premium_since"@))
    } else if spec_field_bool(j, "deaf"@).is_none() {
        Err(PErr::Missing("deaf"@))
    } else if spec_field_bool(j, "mute"@).is_none() {
        Err(PErr::Missing("mute"@))
    } else {
        Ok(
            MessageMemberV {
                nick: of_opt(spec_opt_field_str(j, "nick"@)),
                roles: member_roles_of(j)->Ok_0,
                joined_at: spec_field_str(j, "joined_at"@).unwrap(),
                hoisted_role: of_opt(spec_opt_field_id(j, "hoisted_role"@)),
                premium_since: of_opt(spec_opt_field_str(j, "premium_since"@)),
                deaf: spec_field_bool(j, "deaf"@).unwrap(),
                mute: spec_field_bool(j, "mute"@).unwrap(),
            },
        )
    }
}

pub fn parse_message_member(v: &serde_json::Value) -> (r: Result<MessageMember, ProtocolError>)
    ensures
        match r {
            Ok(x) => message_member_of(jv(*v)) == Ok::<MessageMemberV, PErr>(x@),
            Err(e) => message_member_of(jv(*v)) == Err::<MessageMemberV, PErr>(perr_view(e)),
        },
{
    let nick = match opt_field_str(v, "nick") {
        Ok(s) => s,
        Err(_) => {
            return Err(ProtocolError::InvalidField("nick"));
        },
    };
    let roles = match field_array(v, "roles") {
        Some(items) => match parse_ids(items) {
            Ok(ids) => ids,
            Err(e) => {
                return Err(e);
            },
        },
        None => {
            return Err(ProtocolError::MissingField("roles"));
        },
    };
    let joined_at = match field_str(v, "joined_at") {
        Some(s) => s,
        None => {
            return Err(ProtocolError::MissingField("joined_at"));
        },
    };
    let hoisted_role = match opt_field_id(v, "hoisted_role") {
        Ok(Some(n)) => Some(Snowflake::new(n)),
        Ok(None) => None,
        Err(_) => {
            return Err(ProtocolError::InvalidField("hoisted_role"));
        },
    };
    let premium_since = match opt_field_str(v, "premium_since") {
        Ok(s) => s,
        Err(_) => {
            return Err(ProtocolError::InvalidField("premium_since"));
        },
    };
    let deaf = match field_bool(v, "deaf") {
        Some(b) => b,
        None => {
            return Err(ProtocolError::MissingField("deaf"));
        },
    };
    let mute = match field_bool(v, "mute") {
        Some(b) => b,
        None => {
            return Err(ProtocolError::MissingField("mute"));
        },
    };
    Ok(MessageMember { nick, roles, joined_at, hoisted_role, premium_since, deaf, mute })
}

/// A chat message.
pub struct Message {
    pub id: Snowflake,
    pub channel_id: Snowflake,
    pub guild_id: Option<Snowflake>,
    pub author: User,
    pub member: Option<MessageMember>,
    pub content: String,
    pub timestamp: String,
    pub edited_timestamp: Option<String>,
    pub tts: bool,
    pub mention_everyone: bool,
    pub mentions: Vec<User>,
    pub mention_channels: Vec<ChannelMention>,
    pub pinned: bool,
    pub webhook_id: Option<Snowflake>,
    pub message_type: MessageType,
}

pub struct MessageV {
    pub id: u64,
    pub channel_id: u64,
    pub guild_id: Option<u64>,
    pub author: UserV,
    pub member: Option<MessageMemberV>,
    pub content: Seq<char>,
    pub timestamp: Seq<char>,
    pub edited_timestamp: Option<Seq<char>>,
    pub tts: bool,
    pub mention_everyone: bool,
    pub mentions: Seq<UserV>,
    pub mention_channels: Seq<ChannelMentionV>,
    pub pinned: bool,
    pub webhook_id: Option<u64>,
    pub message_type: MessageType,
}

impl View for Message {
    type V = MessageV;

    open spec fn view(&self) -> MessageV {
        MessageV {
            id: self.id.value,
            channel_id: self.channel_id.value,
            guild_id: match self.guild_id {
                Some(g) => Some(g.value),
                None => None,
            },
            author: self.author@,
            member: match self.member {
                Some(ref m) => Some(m@),
                None => None,
            },
            content: self.content@,
            timestamp: self.timestamp@,
            edited_timestamp: match self.edited_timestamp {
                Some(ref s) => Some(s@),
                None => None,
            },
            tts: self.tts,
            mention_everyone: self.mention_everyone,
            mentions: self.mentions@.map_values(|x: User| x@),
            mention_channels: self.mention_channels@.map_values(|x: ChannelMention| x@),
            pinned: self.pinned,
            webhook_id: match self.webhook_id {
                Some(g) => Some(g.value),
                None => None,
            },
            message_type: self.message_type,
        }
    }
}

/// The optional `member` object carried by a message.
pub open spec fn message_opt_member_of(j: Jv) -> Result<Option<MessageMemberV>, PErr> {
    match jv_get(j, "member"@) {
        None => Ok(None),
        Some(f) => if f is Null {
            Ok(None)
        } else {
            match message_member_of(f) {
                Ok(m) => Ok(Some(m)),
                Err(e) => Err(e),
            }
        },
    }
}

/// The required `author` object carried by a message.
pub open spec fn message_author_of(j: Jv) -> Result<UserV, PErr> {
    match jv_get(j, "author"@) {
        None => Err(PErr::Missing("author"@)),
        Some(f) => user_of(f),
    }
}

/// The required `mentions` array carried by a message.
pub open spec fn message_mentions_of(j: Jv) -> Result<Seq<UserV>, PErr> {
    match spec_field_arr(j, "mentions"@) {
        None => Err(PErr::Missing("mentions"@)),
        Some(items) => users_of(items),
    }
}

/// The optional `mention_channels` array carried by a message; absent means
/// empty.
pub open spec fn message_mention_channels_of(j: Jv) -> Result<Seq<ChannelMentionV>, PErr> {
    match jv_get(j, "mention_channels"@) {
        None => Ok(Seq::empty()),
        Some(f) => match f {
            Jv::Arr(items) => channel_mentions_of(items),
            _ => Err(PErr::Invalid("mention_channels"@)),
        },
    }
}

pub open spec fn message_of(j: Jv) -> Result<MessageV, PErr> {
    if spec_field_id(j, "id"@).is_none() {
        Err(PErr::Missing("id"@))
    } else if spec_field_id(j, "channel_id"@).is_none() {
        Err(PErr::Missing("channel_id"@))
    } else if spec_opt_field_id(j, "guild_id"@) is Bad {
        Err(PErr::Invalid("guild_id"@))
    } else if message_author_of(j) is Err {
        Err(message_author_of(j)->Err_0)
    } else if message_opt_member_of(j) is Err {
        Err(message_opt_member_of(j)->Err_0)
    } else if spec_field_str(j, "content"@).is_none() {
        Err(PErr::Missing("content"@))
    } else if spec_field_str(j, "timestamp"@).is_none() {
        Err(PErr::Missing("timestamp"@))
    } else if spec_opt_field_str(j, "edited_timestamp"@) is Bad {
        Err(PErr::Invalid("edited_timestamp"@))
    } else if spec_field_bool(j, "tts"@).is_none() {
        Err(PErr::Missing("tts"@))
    } else if spec_field_bool(j, "mention_everyone"@).is_none() {
        Err(PErr::Missing("mention_everyone"@))
    } else if message_mentions_of(j) is Err {
        Err(message_mentions_of(j)->Err_0)
    } else if message_mention_channels_of(j) is Err {
        Err(message_mention_channels_of(j)->Err_0)
    } else if spec_field_bool(j, "pinned"@).is_none() {
        Err(PErr::Missing("pinned"@))
    } else if spec_opt_field_id(j, "webhook_id"@) is Bad {
        Err(PErr::Invalid("webhook_id"@))
    } else if spec_field_u64(j, "type"@).is_none() || message_type_from_code(
        spec_field_u64(j, "type"@).unwrap(),
    ).is_none() {
        Err(PErr::Missing("type"@))
    } else {
        Ok(
            MessageV {
                id: spec_field_id(j, "id"@).unwrap(),
                channel_id: spec_field_id(j, "channel_id"@).unwrap(),
                guild_id: of_opt(spec_opt_field_id(j, "guild_id"@)),
                author: message_author_of(j)->Ok_0,
                member: message_opt_member_of(j)->Ok_0,
                content: spec_field_str(j, "content"@).unwrap(),
                timestamp: spec_field_str(j, "timestamp"@).unwrap(),
                edited_timestamp: of_opt(spec_opt_field_str(j, "edited_timestamp"@)),
                tts: spec_field_bool(j, "tts"@).unwrap(),
                mention_everyone: spec_field_bool(j, "mention_everyone"@).unwrap(),
                mentions: message_mentions_of(j)->Ok_0,
                mention_channels: message_mention_channels_of(j)->Ok_0,
                pinned: spec_field_bool(j, "pinned"@).unwrap(),
                webhook_id: of_opt(spec_opt_field_id(j, "webhook_id"@)),
                message_type: message_type_from_code(spec_field_u64(j, "type"@).unwrap()).unwrap(),
            },
        )
    }
}

pub fn parse_message(v: &serde_json::Value) -> (r: Result<Message, ProtocolError>)
    ensures
        match r {
            Ok(x) => message_of(jv(*v)) == Ok::<MessageV, PErr>(x@),
            Err(e) => message_of(jv(*v)) == Err::<MessageV, PErr>(perr_view(e)),
        },
{
    let id = match field_id(v, "id") {
        Some(n) => Snowflake::new(n),
        None => {
            return Err(ProtocolError::MissingField("id"));
        },
    };
    let channel_id = match field_id(v, "channel_id") {
        Some(n) => Snowflake::new(n),
        None => {
            return Err(ProtocolError::MissingField("channel_id"));
        },
    };
    let guild_id = match opt_field_id(v, "guild_id") {
        Ok(Some(n)) => Some(Snowflake::new(n)),
        Ok(None) => None,
        Err(_) => {
            return Err(ProtocolError::InvalidField("guild_id"));
        },
    };
    let author = match get_field(v, "author") {
        Some(f) => match parse_user(f) {
            Ok(u) => u,
            Err(e) => {
                return Err(e);
            },
        },
        None => {
            return Err(ProtocolError::MissingField("author"));
        },
    };
    let member = match get_field(v, "member") {
        None => None,
        Some(f) => if value_is_null(f) {
            None
        } else {
            match parse_message_member(f) {
                Ok(m) => Some(m),
                Err(e) => {
                    return Err(e);
                },
            }
        },
    };
    let content = match field_str(v, "content") {
        Some(s) => s,
        None => {
            return Err(ProtocolError::MissingField("content"));
        },
    };
    let timestamp = match field_str(v, "timestamp") {
        Some(s) => s,
        None => {
            return Err(ProtocolError::MissingField("timestamp"));
        },
    };
    let edited_timestamp = match opt_field_str(v, "edited_timestamp") {
        Ok(s) => s,
        Err(_) => {
            return Err(ProtocolError::InvalidField("edited_timestamp"));
        },
    };
    let tts = match field_bool(v, "tts") {
        Some(b) => b,
        None => {
            return Err(ProtocolError::MissingField("tts"));
        },
    };
    let mention_everyone = match field_bool(v, "mention_everyone") {
        Some(b) => b,
        None => {
            return Err(ProtocolError::MissingField("mention_everyone"));
        },
    };
    let mentions = match field_array(v, "mentions") {
        Some(items) => match parse_users(items) {
            Ok(us) => us,
            Err(e) => {
                return Err(e);
            },
        },
        None => {
            return Err(ProtocolError::MissingField("mentions"));
        },
    };
    let mention_channels = match get_field(v, "mention_channels") {
        None => {
            let mc: Vec<ChannelMention> = Vec::new();
            proof {
                assert(mc@.map_values(|x: ChannelMention| x@) =~= Seq::<ChannelMentionV>::empty());
            }
            mc
        },
        Some(f) => match value_as_array(f) {
            Some(items) => match parse_channel_mentions(items) {
                Ok(cs) => cs,
                Err(e) => {
                    return Err(e);
                },
            },
            None => {
                return Err(ProtocolError::InvalidField("mention_channels"));
            },
        },
    };
    let pinned = match field_bool(v, "pinned") {
        Some(b) => b,
        None => {
            return Err(ProtocolError::MissingField("pinned"));
        },
    };
    let webhook_id = match opt_field_id(v, "webhook_id") {
        Ok(Some(n)) => Some(Snowflake::new(n)),
        Ok(None) => None,
        Err(_) => {
            return Err(ProtocolError::InvalidField("webhook_id"));
        },
    };
    let message_type = match field_u64(v, "type") {
        Some(code) => match MessageType::from_code(code) {
            Some(t) => t,
            None => {
                return Err(ProtocolError::MissingField("type"));
            },
        },
        None => {
            return Err(ProtocolError::MissingField("type"));
        },
    };
    Ok(
        Message {
            id,
            channel_id,
            guild_id,
            author,
            member,
            content,
            timestamp,
            edited_timestamp,
            tts,
            mention_everyone,
            mentions,
            mention_channels,
            pinned,
            webhook_id,
            message_type,
        },
    )
}

/// The set of guild ids named in the initial ready frame.
pub struct GuildList {
    pub ids: Vec<Snowflake>,
}

impl GuildList {
    /// The ids held, in insertion order; well-formed lists hold no duplicate.
    pub open spec fn view(&self) -> Seq<u64> {
        self.ids@.map_values(|x: Snowflake| x.value)
    }

    pub open spec fn wf(&self) -> bool {
        forall|i: int, k: int| 0 <= i < k < self@.len() ==> self@[i] != self@[k]
    }

    pub fn new() -> (r: GuildList)
        ensures
            r@ =~= Seq::<u64>::empty(),
            r.wf(),
    {
        let r = GuildList { ids: Vec::new() };
        proof {
            assert(r@ =~= Seq::<u64>::empty());
        }
        r
    }

    pub fn len(&self) -> (r: usize)
        ensures
            r == self@.len(),
    {
        self.ids.len()
    }

    pub fn contains(&self, value: Snowflake) -> (r: bool)
        ensures
            r == self@.contains(value.value),
    {
        let mut i: usize = 0;
        while i < self.ids.len()
            invariant
                0 <= i <= self.ids@.len(),
                forall|k: int| 0 <= k < i ==> self@[k] != value.value,
            decreases self.ids@.len() - i,
        {
            if self.ids[i].value == value.value {
                proof {
                    assert(self@[i as int] == value.value);
                }
                return true;
            }
            i = i + 1;
        }
        proof {
            assert forall|k: int| 0 <= k < self@.len() implies self@[k] != value.value by {}
        }
        false
    }

    /// Inserts an id; returns whether it was new.
    pub fn insert(&mut self, id: Snowflake) -> (r: bool)
        ensures
            r == !old(self)@.contains(id.value),
            r ==> final(self)@ == old(self)@.push(id.value),
            !r ==> final(self)@ == old(self)@,
            old(self).wf() ==> final(self).wf(),
    {
        if self.contains(id) {
            false
        } else {
            let ghost old_view = self@;
            self.ids.push(id);
            proof {
                assert(self@ =~= old_view.push(id.value));
            }
            true
        }
    }
}

/// The guild ids of the initial guild array, first occurrence kept.
pub open spec fn guild_ids_of(items: Seq<Jv>) -> Result<Seq<u64>, PErr>
    decreases items.len(),
{
    if items.len() == 0 {
        Ok(Seq::empty())
    } else {
        match guild_ids_of(items.drop_last()) {
            Ok(ids) => match spec_field_id(items.last(), "id"@) {
                None => Err(PErr::Missing("id"@)),
                Some(n) => if ids.contains(n) {
                    Ok(ids)
                } else {
                    Ok(ids.push(n))
                },
            },
            Err(e) => Err(e),
        }
    }
}

/// An ill-shaped guild entry keeps the list ill-shaped, whatever follows.
proof fn lemma_guild_ids_err(items: Seq<Jv>, k: int)
    requires
        0 <= k <= items.len(),
        guild_ids_of(items.take(k)) is Err,
    ensures
        guild_ids_of(items) == guild_ids_of(items.take(k)),
    decreases items.len() - k,
{
    if k < items.len() {
        assert(items.take(k + 1).drop_last() =~= items.take(k));
        lemma_guild_ids_err(items, k + 1);
    } else {
        assert(items.take(k) =~= items);
    }
}

/// Parses the initial guild array as a deduplicated id list.
pub fn parse_guild_list(items: &Vec<serde_json::Value>) -> (r: Result<GuildList, ProtocolError>)
    ensures
        match r {
            Ok(gl) => guild_ids_of(jvs(items@)) == Ok::<Seq<u64>, PErr>(gl@) && gl.wf(),
            Err(e) => guild_ids_of(jvs(items@)) == Err::<Seq<u64>, PErr>(perr_view(e)),
        },
{
    let ghost ji = jvs(items@);
    let mut out = GuildList::new();
    let mut i: usize = 0;
    while i < items.len()
        invariant
            0 <= i <= items@.len(),
            ji == jvs(items@),
            guild_ids_of(ji.take(i as int)) == Ok::<Seq<u64>, PErr>(out@),
            out.wf(),
        decreases items@.len() - i,
    {
        proof {
            assert(ji.take(i + 1).drop_last() =~= ji.take(i as int));
            assert(ji.take(i + 1).last() == ji[i as int]);
            assert(ji[i as int] == jv(items@[i as int]));
        }
        match field_id(&items[i], "id") {
            Some(n) => {
                out.insert(Snowflake::new(n));
            },
            None => {
                proof {
                    lemma_guild_ids_err(ji, i + 1);
                }
                return Err(ProtocolError::MissingField("id"));
            },
        }
        i = i + 1;
    }
    proof {
        assert(ji.take(i as int) =~= ji);
    }
    Ok(out)
}


/// A guild slash command, keyed by its name in the projection.
pub struct ApplicationCommand {
    pub id: Snowflake,
    pub application_id: Option<Snowflake>,
    pub guild_id: Option<Snowflake>,
    pub name: String,
    pub description: Option<String>,
}

pub struct ApplicationCommandV {
    pub id: u64,
    pub application_id: Option<u64>,
    pub guild_id: Option<u64>,
    pub name: Seq<char>,
    pub description: Option<Seq<char>>,
}

impl View for ApplicationCommand {
    type V = ApplicationCommandV;

    open spec fn view(&self) -> ApplicationCommandV {
        ApplicationCommandV {
            id: self.id.value,
            application_id: match self.application_id {
                Some(g) => Some(g.value),
                None => None,
            },
            guild_id: match self.guild_id {
                Some(g) => Some(g.value),
                None => None,
            },
            name: self.name@,
            description: match self.description {
                Some(ref s) => Some(s@),
                None => None,
            },
        }
    }
}

pub open spec fn application_command_of(j: Jv) -> Result<ApplicationCommandV, PErr> {
    if spec_field_id(j, "id"@).is_none() {
        Err(PErr::Missing("id"@))
    } else if spec_opt_field_id(j, "application_id"@) is Bad {
        Err(PErr::Invalid("application_id"@))
    } else if spec_opt_field_id(j, "guild_id"@) is Bad {
        Err(PErr::Invalid("guild_id"@))
    } else if spec_field_str(j, "name"@).is_none() {
        Err(PErr::Missing("name"@))
    } else if spec_opt_field_str(j, "description"@) is Bad {
        Err(PErr::Invalid("description"@))
    } else {
        Ok(
            ApplicationCommandV {
                id: spec_field_id(j, "id"@).unwrap(),
                application_id: of_opt(spec_opt_field_id(j, "application_id"@)),
                guild_id: of_opt(spec_opt_field_id(j, "guild_id"@)),
                name: spec_field_str(j, "name"@).unwrap(),
                description: of_opt(spec_opt_field_str(j, "description"@)),
            },
        )
    }
}

pub fn parse_application_command(v: &serde_json::Value) -> (r: Result<
    ApplicationCommand,
    ProtocolError,
>)
    ensures
        match r {
            Ok(x) => application_command_of(jv(*v)) == Ok::<ApplicationCommandV, PErr>(x@),
            Err(e) => application_command_of(jv(*v)) == Err::<ApplicationCommandV, PErr>(
                perr_view(e),
            ),
        },
{
    let id = match field_id(v, "id") {
        Some(n) => Snowflake::new(n),
        None => {
            return Err(ProtocolError::MissingField("id"));
        },
    };
    let application_id = match opt_field_id(v, "application_id") {
        Ok(Some(n)) => Some(Snowflake::new(n)),
        Ok(None) => None,
        Err(_) => {
            return Err(ProtocolError::InvalidField("application_id"));
        },
    };
    let guild_id = match opt_field_id(v, "guild_id") {
        Ok(Some(n)) => Some(Snowflake::new(n)),
        Ok(None) => None,
        Err(_) => {
            return Err(ProtocolError::InvalidField("guild_id"));
        },
    };
    let name = match field_str(v, "name") {
        Some(s) => s,
        None => {
            return Err(ProtocolError::MissingField("name"));
        },
    };
    let description = match opt_field_str(v, "description") {
        Ok(s) => s,
        Err(_) => {
            return Err(ProtocolError::InvalidField("description"));
        },
    };
    Ok(ApplicationCommand { id, application_id, guild_id, name, description })
}

} // verus!
