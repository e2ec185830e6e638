//! The wire protocol: typed events, their decoding from JSON trees, and the
//! enumerations prescribed by the platform.

use vstd::prelude::*;

pub mod event;
pub mod fields;
pub mod records;

verus! {

/// A decoding error: a field of the wire payload was missing or held an
/// unexpected value.
#[derive(Clone, Copy, Debug)]
pub enum ProtocolError {
    InvalidField(&'static str),
    MissingField(&'static str),
}

/// The mathematical content of a [`ProtocolError`].
pub enum PErr {
    Invalid(Seq<char>),
    Missing(Seq<char>),
}

pub open spec fn perr_view(e: ProtocolError) -> PErr {
    match e {
        ProtocolError::InvalidField(f) => PErr::Invalid(f@),
        ProtocolError::MissingField(f) => PErr::Missing(f@),
    }
}

/// Raised when a handshake step reads an event of the wrong kind.
#[derive(Clone, Copy, Debug)]
pub struct EventError;

/// The kind of a channel, carried on the wire as a small integer.
#[derive(Clone, Copy, Debug, PartialEq, Eq, Structural)]
pub enum ChannelType {
    GuildText,
    DirectMessage,
    GuildVoice,
    GroupDirectMessage,
    GuildCategory,
    GuildNews,
    GuildStore,
}

impl ChannelType {
    /// The wire code of this channel kind.
    pub fn code(self) -> (r: u8)
        ensures
            r == channel_type_code(self),
    {
        match self {
            ChannelType::GuildText => 0,
            ChannelType::DirectMessage => 1,
            ChannelType::GuildVoice => 2,
            ChannelType::GroupDirectMessage => 3,
            ChannelType::GuildCategory => 4,
            ChannelType::GuildNews => 5,
            ChannelType::GuildStore => 6,
        }
    }

    /// The channel kind denoted by a wire code.
    pub fn from_code(code: u64) -> (r: Option<ChannelType>)
        ensures
            r == channel_type_from_code(code),
    {
        match code {
            0u64 => Some(ChannelType::GuildText),
            1u64 => Some(ChannelType::DirectMessage),
            2u64 => Some(ChannelType::GuildVoice),
            3u64 => Some(ChannelType::GroupDirectMessage),
            4u64 => Some(ChannelType::GuildCategory),
            5u64 => Some(ChannelType::GuildNews),
            6u64 => Some(ChannelType::GuildStore),
            _ => None,
        }
    }
}

pub open spec fn channel_type_code(t: ChannelType) -> u8 {
    match t {
        ChannelType::GuildText => 0,
        ChannelType::DirectMessage => 1,
        ChannelType::GuildVoice => 2,
        ChannelType::GroupDirectMessage => 3,
        ChannelType::GuildCategory => 4,
        ChannelType::GuildNews => 5,
        ChannelType::GuildStore => 6,
    }
}

pub open spec fn channel_type_from_code(code: u64) -> Option<ChannelType> {
    if code == 0 {
        Some(ChannelType::GuildText)
    } else if code == 1 {
        Some(ChannelType::DirectMessage)
    } else if code == 2 {
        Some(ChannelType::GuildVoice)
    } else if code == 3 {
        Some(ChannelType::GroupDirectMessage)
    } else if code == 4 {
        Some(ChannelType::GuildCategory)
    } else if code == 5 {
        Some(ChannelType::GuildNews)
    } else if code == 6 {
        Some(ChannelType::GuildStore)
    } else {
        None
    }
}

/// The kind of a message, carried on the wire as a small integer. Only
/// `Default` messages are passed through to the application.
#[derive(Clone, Copy, Debug, PartialEq, Eq, Structural)]
pub enum MessageType {
    Default,
    RecipientAdd,
    RecipientRemove,
    Call,
    ChannelNameChange,
    ChannelIconChange,
    ChannelPinnedMessage,
    GuildMemberJoin,
    UserPremiumGuildSubscription,
    UserPremiumGuildSubscriptionTier1,
    UserPremiumGuildSubscriptionTier2,
    UserPremiumGuildSubscriptionTier3,
    ChannelFollowAdd,
    GuildDiscoveryDisqualified,
    GuildDiscoveryRequalified,
}

impl MessageType {
    pub fn code(self) -> (r: u8)
        ensures
            r == message_type_code(self),
    {
        match self {
            MessageType::Default => 0,
            MessageType::RecipientAdd => 1,
            MessageType::RecipientRemove => 2,
            MessageType::Call => 3,
            MessageType::ChannelNameChange => 4,
            MessageType::ChannelIconChange => 5,
            MessageType::ChannelPinnedMessage => 6,
            MessageType::GuildMemberJoin => 7,
            MessageType::UserPremiumGuildSubscription => 8,
            MessageType::UserPremiumGuildSubscriptionTier1 => 9,
            MessageType::UserPremiumGuildSubscriptionTier2 => 10,
            MessageType::UserPremiumGuildSubscriptionTier3 => 11,
            MessageType::ChannelFollowAdd => 12,
            MessageType::GuildDiscoveryDisqualified => 14,
            MessageType::GuildDiscoveryRequalified => 15,
        }
    }

    pub fn from_code(code: u64) -> (r: Option<MessageType>)
        ensures
            r == message_type_from_code(code),
    {
        match code {
            0u64 => Some(MessageType::Default),
            1u64 => Some(MessageType::RecipientAdd),
            2u64 => Some(MessageType::RecipientRemove),
            3u64 => Some(MessageType::Call),
            4u64 => Some(MessageType::ChannelNameChange),
            5u64 => Some(MessageType::ChannelIconChange),
            6u64 => Some(MessageType::ChannelPinnedMessage),
            7u64 => Some(MessageType::GuildMemberJoin),
            8u64 => Some(MessageType::UserPremiumGuildSubscription),
            9u64 => Some(MessageType::UserPremiumGuildSubscriptionTier1),
            10u64 => Some(MessageType::UserPremiumGuildSubscriptionTier2),
            11u64 => Some(MessageType::UserPremiumGuildSubscriptionTier3),
            12u64 => Some(MessageType::ChannelFollowAdd),
            14u64 => Some(MessageType::GuildDiscoveryDisqualified),
            15u64 => Some(MessageType::GuildDiscoveryRequalified),
            _ => None,
        }
    }

    pub fn is_default(self) -> (r: bool)
        ensures
            r == (self is Default),
    {
        match self {
            MessageType::Default => true,
            _ => false,
        }
    }
}

pub open spec fn message_type_code(t: MessageType) -> u8 {
    match t {
        MessageType::Default => 0,
        MessageType::RecipientAdd => 1,
        MessageType::RecipientRemove => 2,
        MessageType::Call => 3,
        MessageType::ChannelNameChange => 4,
        MessageType::ChannelIconChange => 5,
        MessageType::ChannelPinnedMessage => 6,
        MessageType::GuildMemberJoin => 7,
        MessageType::UserPremiumGuildSubscription => 8,
        MessageType::UserPremiumGuildSubscriptionTier1 => 9,
        MessageType::UserPremiumGuildSubscriptionTier2 => 10,
        MessageType::UserPremiumGuildSubscriptionTier3 => 11,
        MessageType::ChannelFollowAdd => 12,
        MessageType::GuildDiscoveryDisqualified => 14,
        MessageType::GuildDiscoveryRequalified => 15,
    }
}

pub open spec fn message_type_from_code(code: u64) -> Option<MessageType> {
    if code == 0 {
        Some(MessageType::Default)
    } else if code == 1 {
        Some(MessageType::RecipientAdd)
    } else if code == 2 {
        Some(MessageType::RecipientRemove)
    } else if code == 3 {
        Some(MessageType::Call)
    } else if code == 4 {
        Some(MessageType::ChannelNameChange)
    } else if code == 5 {
        Some(MessageType::ChannelIconChange)
    } else if code == 6 {
        Some(MessageType::ChannelPinnedMessage)
    } else if code == 7 {
        Some(MessageType::GuildMemberJoin)
    } else if code == 8 {
        Some(MessageType::UserPremiumGuildSubscription)
    } else if code == 9 {
        Some(MessageType::UserPremiumGuildSubscriptionTier1)
    } else if code == 10 {
        Some(MessageType::UserPremiumGuildSubscriptionTier2)
    } else if code == 11 {
        Some(MessageType::UserPremiumGuildSubscriptionTier3)
    } else if code == 12 {
        Some(MessageType::ChannelFollowAdd)
    } else if code == 14 {
        Some(MessageType::GuildDiscoveryDisqualified)
    } else if code == 15 {
        Some(MessageType::GuildDiscoveryRequalified)
    } else {
        None
    }
}

} // verus!
