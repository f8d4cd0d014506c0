//! Identifiers. Each is a number that the service hands out; the types keep
//! identifiers of different resources apart.

use vstd::prelude::*;

verus! {

/// Identifies a channel.
#[derive(Clone, Copy, Debug, PartialEq, Eq, Structural, PartialOrd, Ord, Hash)]
pub struct ChannelId(pub u64);

/// Identifies an emoji.
#[derive(Clone, Copy, Debug, PartialEq, Eq, Structural, PartialOrd, Ord, Hash)]
pub struct EmojiId(pub u64);

/// Identifies a guild.
#[derive(Clone, Copy, Debug, PartialEq, Eq, Structural, PartialOrd, Ord, Hash)]
pub struct GuildId(pub u64);

/// Identifies a role.
#[derive(Clone, Copy, Debug, PartialEq, Eq, Structural, PartialOrd, Ord, Hash)]
pub struct RoleId(pub u64);

/// Identifies a user.
#[derive(Clone, Copy, Debug, PartialEq, Eq, Structural, PartialOrd, Ord, Hash)]
pub struct UserId(pub u64);

} // verus!
