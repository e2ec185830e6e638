//! Domain types distilled from the wire records: the fields the application
//! reads, validated on conversion.

use vstd::prelude::*;

use crate::protocol::records;
use crate::protocol::{ChannelType, ProtocolError};
use crate::snowflake::Snowflake;

verus! {

/// A type with a natural key.
pub trait HasId {
    /// The id that keys this value.
    fn id(&self) -> Snowflake;
}

/// A value that can be replaced wholesale by an update of the same type.
pub trait Updatable<T> {
    fn update(&mut self, src: T);
}

/// The flipped form of [`Updatable`], for callers holding the update.
pub trait CanUpdate<T> {
    fn update_dest(self, dest: &mut T);
}

impl<T> Updatable<T> for T {
    fn update(&mut self, src: T) {
        *self = src;
    }
}

/// A platform account, with the always-present fields made plain.
#[derive(Debug)]
pub struct User {
    pub id: Snowflake,
    pub username: String,
    pub discriminator: String,
    pub avatar: Option<String>,
    pub bot: bool,
    pub system: bool,
}

impl User {
    /// Distills a wire user; absent flags mean false.
    pub fn from_wire(u: records::User) -> (r: User)
        ensures
            r.id == u.id,
            r.username == u.username,
            r.discriminator == u.discriminator,
            r.avatar == u.avatar,
            r.bot == (u.bot == Some(true)),
            r.system == (u.system == Some(true)),
    {
        User {
            id: u.id,
            username: u.username,
            discriminator: u.discriminator,
            avatar: u.avatar,
            bot: match u.bot {
                Some(b) => b,
                None => false,
            },
            system: match u.system {
                Some(b) => b,
                None => false,
            },
        }
    }

    pub fn id(&self) -> (r: Snowflake)
        ensures
            r == self.id,
    {
        self.id
    }

    pub fn username(&self) -> (r: &str)
        ensures
            r@ == self.username@,
    {
        self.username.as_str()
    }

    pub fn discriminator(&self) -> (r: &str)
        ensures
            r@ == self.discriminator@,
    {
        self.discriminator.as_str()
    }

    pub fn avatar(&self) -> (r: Option<&String>)
        ensures
            match r {
                Some(s) => self.avatar matches Some(a) && *s == a,
                None => self.avatar is None,
            },
    {
        self.avatar.as_ref()
    }

    pub fn is_bot(&self) -> (r: bool)
        ensures
            r == self.bot,
    {
        self.bot
    }

    pub fn is_system(&self) -> (r: bool)
        ensures
            r == self.system,
    {
        self.system
    }
}

/// A role, validated off the wire.
#[derive(Debug)]
pub struct Role {
    pub id: Snowflake,
    pub name: String,
    pub color: u32,
    pub hoist: bool,
    pub position: u16,
    pub permissions: u64,
    pub managed: bool,
    pub mentionable: bool,
}

impl Role {
    pub fn from_wire(x: records::Role) -> (r: Role)
        ensures
            r.id == x.id,
            r.name == x.name,
            r.color == x.color,
            r.hoist == x.hoist,
            r.position == x.position,
            r.permissions == x.permissions,
            r.managed == x.managed,
            r.mentionable == x.mentionable,
    {
        Role {
            id: x.id,
            name: x.name,
            color: x.color,
            hoist: x.hoist,
            position: x.position,
            permissions: x.permissions,
            managed: x.managed,
            mentionable: x.mentionable,
        }
    }

    pub fn id(&self) -> (r: Snowflake)
        ensures
            r == self.id,
    {
        self.id
    }

    pub fn name(&self) -> (r: &str)
        ensures
            r@ == self.name@,
    {
        self.name.as_str()
    }

    pub fn color(&self) -> (r: u32)
        ensures
            r == self.color,
    {
        self.color
    }

    pub fn is_hoisted(&self) -> (r: bool)
        ensures
            r == self.hoist,
    {
        self.hoist
    }

    pub fn position(&self) -> (r: u16)
        ensures
            r == self.position,
    {
        self.position
    }

    pub fn permissions(&self) -> (r: u64)
        ensures
            r == self.permissions,
    {
        self.permissions
    }

    pub fn is_managed(&self) -> (r: bool)
        ensures
            r == self.managed,
    {
        self.managed
    }

    pub fn is_mentionable(&self) -> (r: bool)
        ensures
            r == self.mentionable,
    {
        self.mentionable
    }
}

/// A channel, validated off the wire: the name is required, an empty topic
/// and a zero rate limit mean none.
#[derive(Debug)]
pub struct Channel {
    pub id: Snowflake,
    pub channel_type: ChannelType,
    pub position: Option<u16>,
    pub name: String,
    pub topic: Option<String>,
    pub nsfw: Option<bool>,
    pub bitrate: Option<u32>,
    pub user_limit: Option<u16>,
    pub rate_limit_per_user: Option<u16>,
    pub parent_id: Option<Snowflake>,
}

impl Channel {
    /// Distills a wire channel. A channel without a name is rejected; an
    /// empty topic and a zero per-user rate limit are dropped.
    pub fn from_wire(c: records::Channel) -> (r: Result<Channel, ProtocolError>)
        ensures
            c.name is None ==> (r matches Err(e) && e matches ProtocolError::MissingField(f) && f@
                == "channel name"@),
            c.name matches Some(n) ==> (r matches Ok(x) && x.id == c.id && x.channel_type
                == c.channel_type && x.position == c.position && x.name == n && (match c.topic {
                Some(t) => x.topic == if t@.len() == 0 {
                    None::<String>
                } else {
                    Some(t)
                },
                None => x.topic is None,
            }) && x.nsfw == c.nsfw && x.bitrate == c.bitrate && x.user_limit == c.user_limit && (
            match c.rate_limit_per_user {
                Some(l) => x.rate_limit_per_user == if l == 0 {
                    None::<u16>
                } else {
                    Some(l)
                },
                None => x.rate_limit_per_user is None,
            }) && x.parent_id == c.parent_id),
    {
        let name = match c.name {
            Some(n) => n,
            None => {
                return Err(ProtocolError::MissingField("channel name"));
            },
        };
        let topic = match c.topic {
            Some(t) => if t.as_str().is_empty() {
                proof {
                    assert(t@.len() == 0);
                }
                None
            } else {
                Some(t)
            },
            None => None,
        };
        let rate_limit_per_user = match c.rate_limit_per_user {
            Some(l) => if l == 0 {
                None
            } else {
                Some(l)
            },
            None => None,
        };
        Ok(
            Channel {
                id: c.id,
                channel_type: c.channel_type,
                position: c.position,
                name,
                topic,
                nsfw: c.nsfw,
                bitrate: c.bitrate,
                user_limit: c.user_limit,
                rate_limit_per_user,
                parent_id: c.parent_id,
            },
        )
    }

    pub fn id(&self) -> (r: Snowflake)
        ensures
            r == self.id,
    {
        self.id
    }

    pub fn channel_type(&self) -> (r: ChannelType)
        ensures
            r == self.channel_type,
    {
        self.channel_type
    }

    pub fn position(&self) -> (r: Option<u16>)
        ensures
            r == self.position,
    {
        self.position
    }

    pub fn name(&self) -> (r: &str)
        ensures
            r@ == self.name@,
    {
        self.name.as_str()
    }

    pub fn topic(&self) -> (r: Option<&String>)
        ensures
            match r {
                Some(s) => self.topic matches Some(t) && *s == t,
                None => self.topic is None,
            },
    {
        self.topic.as_ref()
    }

    pub fn is_nsfw(&self) -> (r: bool)
        ensures
            r == (self.nsfw == Some(true)),
    {
        match self.nsfw {
            Some(b) => b,
            None => false,
        }
    }

    pub fn bitrate(&self) -> (r: Option<u32>)
        ensures
            r == self.bitrate,
    {
        self.bitrate
    }

    pub fn user_limit(&self) -> (r: Option<u16>)
        ensures
            r == self.user_limit,
    {
        self.user_limit
    }

    pub fn rate_limit_per_user(&self) -> (r: Option<u16>)
        ensures
            r == self.rate_limit_per_user,
    {
        self.rate_limit_per_user
    }

    pub fn parent_id(&self) -> (r: Option<Snowflake>)
        ensures
            r == self.parent_id,
    {
        self.parent_id
    }
}

impl HasId for Channel {
    fn id(&self) -> (r: Snowflake) {
        self.id
    }
}

/// The emoji of a reaction, validated: an id, a name, or both must be set.
#[derive(Debug)]
pub struct ReactionEmoji {
    pub id: Option<Snowflake>,
    pub name: Option<String>,
}

impl ReactionEmoji {
    /// Distills a wire reaction emoji; one of the id and the name must be
    /// present.
    pub fn from_wire(e: records::ReactionEmoji) -> (r: Result<ReactionEmoji, ProtocolError>)
        ensures
            e.id is None && e.name is None ==> r is Err,
            !(e.id is None && e.name is None) ==> (r matches Ok(x) && x.id == e.id && x.name
                == e.name),
    {
        let absent = match (&e.id, &e.name) {
            (None, None) => true,
            _ => false,
        };
        if absent {
            return Err(ProtocolError::MissingField("reaction emoji id or name"));
        }
        Ok(ReactionEmoji { id: e.id, name: e.name })
    }
}

/// How reactions were removed from a message.
#[derive(Debug)]
pub enum ReactionRemoveType {
    All,
    Single(Snowflake, ReactionEmoji),
    Emoji(ReactionEmoji),
}

} // verus!
