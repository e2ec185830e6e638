//! The intent bitfield sent at identify time: it selects which dispatch
//! events the server will deliver on this session.

use vstd::prelude::*;

verus! {

/// A set of gateway intents, serialized on the wire as a decimal integer.
#[derive(Clone, Copy, Debug, PartialEq, Eq, Structural)]
pub struct Intents {
    pub bits: u16,
}

impl Intents {
    pub fn empty() -> (r: Intents)
        ensures
            r.bits == 0,
    {
        Intents { bits: 0 }
    }

    pub fn from_bits(bits: u16) -> (r: Intents)
        ensures
            r.bits == bits,
    {
        Intents { bits }
    }

    pub fn guilds() -> (r: Intents)
        ensures
            r.bits == 1u16 << 0,
    {
        Intents { bits: 1u16 << 0 }
    }

    pub fn guild_members() -> (r: Intents)
        ensures
            r.bits == 1u16 << 1,
    {
        Intents { bits: 1u16 << 1 }
    }

    pub fn guild_bans() -> (r: Intents)
        ensures
            r.bits == 1u16 << 2,
    {
        Intents { bits: 1u16 << 2 }
    }

    pub fn guild_emojis() -> (r: Intents)
        ensures
            r.bits == 1u16 << 3,
    {
        Intents { bits: 1u16 << 3 }
    }

    pub fn guild_integrations() -> (r: Intents)
        ensures
            r.bits == 1u16 << 4,
    {
        Intents { bits: 1u16 << 4 }
    }

    pub fn guild_webhooks() -> (r: Intents)
        ensures
            r.bits == 1u16 << 5,
    {
        Intents { bits: 1u16 << 5 }
    }

    pub fn guild_invites() -> (r: Intents)
        ensures
            r.bits == 1u16 << 6,
    {
        Intents { bits: 1u16 << 6 }
    }

    pub fn guild_voice_states() -> (r: Intents)
        ensures
            r.bits == 1u16 << 7,
    {
        Intents { bits: 1u16 << 7 }
    }

    pub fn guild_presences() -> (r: Intents)
        ensures
            r.bits == 1u16 << 8,
    {
        Intents { bits: 1u16 << 8 }
    }

    pub fn guild_messages() -> (r: Intents)
        ensures
            r.bits == 1u16 << 9,
    {
        Intents { bits: 1u16 << 9 }
    }

    pub fn guild_message_reactions() -> (r: Intents)
        ensures
            r.bits == 1u16 << 10,
    {
        Intents { bits: 1u16 << 10 }
    }

    pub fn guild_message_typing() -> (r: Intents)
        ensures
            r.bits == 1u16 << 11,
    {
        Intents { bits: 1u16 << 11 }
    }

    pub fn direct_messages() -> (r: Intents)
        ensures
            r.bits == 1u16 << 12,
    {
        Intents { bits: 1u16 << 12 }
    }

    pub fn direct_message_reactions() -> (r: Intents)
        ensures
            r.bits == 1u16 << 13,
    {
        Intents { bits: 1u16 << 13 }
    }

    pub fn direct_message_typing() -> (r: Intents)
        ensures
            r.bits == 1u16 << 14,
    {
        Intents { bits: 1u16 << 14 }
    }

    /// The message-content intent, toggled separately from the guild group.
    pub fn message_content() -> (r: Intents)
        ensures
            r.bits == 1u16 << 15,
    {
        Intents { bits: 1u16 << 15 }
    }

    /// Every guild-scoped intent: bits 0 through 11, the decimal 4095.
    pub fn guild_all() -> (r: Intents)
        ensures
            r.bits == 4095,
    {
        Intents { bits: 0xfff }
    }

    /// Every direct-message intent: bits 12 through 14.
    pub fn direct_message_all() -> (r: Intents)
        ensures
            r.bits == 0x7000,
    {
        Intents { bits: 0x7000 }
    }

    /// Union of the guild group and the direct-message group.
    pub fn all() -> (r: Intents)
        ensures
            r.bits == 0x7fff,
    {
        Intents { bits: 0x7fff }
    }

    pub fn union(self, other: Intents) -> (r: Intents)
        ensures
            r.bits == self.bits | other.bits,
    {
        Intents { bits: self.bits | other.bits }
    }

    pub fn toggle(self, other: Intents) -> (r: Intents)
        ensures
            r.bits == self.bits ^ other.bits,
    {
        Intents { bits: self.bits ^ other.bits }
    }

    pub fn contains(self, other: Intents) -> (r: bool)
        ensures
            r == (self.bits & other.bits == other.bits),
    {
        self.bits & other.bits == other.bits
    }
}

/// The session builder's default intent set: the guild group without
/// webhooks and typing notifications, plus message content.
pub fn default_intents() -> (r: Intents)
    ensures
        r.bits == 0x87dfu16,
{
    let r = Intents::guild_all()
        .toggle(Intents::guild_webhooks())
        .toggle(Intents::guild_message_typing())
        .union(Intents::message_content());
    proof {
        assert((4095u16 ^ (1u16 << 5) ^ (1u16 << 11)) | (1u16 << 15) == 0x87dfu16) by (bit_vector);
    }
    r
}

} // verus!
