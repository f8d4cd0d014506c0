use vstd::prelude::*;

verus! {

/// The kind of a channel.
#[derive(Clone, Copy, Debug, PartialEq, Eq, Structural, PartialOrd, Ord, Hash)]
pub enum ChannelType {
    GuildText,
    Private,
    GuildVoice,
    Group,
    GuildCategory,
    GuildNews,
    GuildStore,
}

impl ChannelType {
    /// The number that stands for a channel type on the wire.
    pub open spec fn spec_number(self) -> u8 {
        match self {
            ChannelType::GuildText => 0,
            ChannelType::Private => 1,
            ChannelType::GuildVoice => 2,
            ChannelType::Group => 3,
            ChannelType::GuildCategory => 4,
            ChannelType::GuildNews => 5,
            ChannelType::GuildStore => 6,
        }
    }

    /// The number that stands for this channel type on the wire.
    pub fn number(self) -> (n: u8)
        ensures
            n == self.spec_number(),
    {
        match self {
            ChannelType::GuildText => 0,
            ChannelType::Private => 1,
            ChannelType::GuildVoice => 2,
            ChannelType::Group => 3,
            ChannelType::GuildCategory => 4,
            ChannelType::GuildNews => 5,
            ChannelType::GuildStore => 6,
        }
    }

    /// The channel type that a wire number stands for, if any.
    pub fn from_number(n: u8) -> (kind: Option<ChannelType>)
        ensures
            kind matches Some(k) ==> k.spec_number() == n,
            kind is None <==> n > 6,
    {
        match n {
            0 => Some(ChannelType::GuildText),
            1 => Some(ChannelType::Private),
            2 => Some(ChannelType::GuildVoice),
            3 => Some(ChannelType::Group),
            4 => Some(ChannelType::GuildCategory),
            5 => Some(ChannelType::GuildNews),
            6 => Some(ChannelType::GuildStore),
            _ => None,
        }
    }
}

} // verus!
