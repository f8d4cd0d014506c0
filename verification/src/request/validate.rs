//! Checks on the values of request fields.

use vstd::prelude::*;
use vstd::string::StrSliceExecFns;

verus! {

/// The fewest characters a channel name may have.
pub const CHANNEL_NAME_MIN: usize = 2;

/// The most characters a channel name may have.
pub const CHANNEL_NAME_MAX: usize = 100;

/// The most characters a channel topic may have.
pub const CHANNEL_TOPIC_MAX: usize = 1024;

/// The longest slow-mode delay, in seconds.
pub const RATE_LIMIT_PER_USER_MAX: u64 = 21600;

/// Whether a sequence of characters can be a channel's name.
pub open spec fn is_channel_name(name: Seq<char>) -> bool {
    CHANNEL_NAME_MIN <= name.len() <= CHANNEL_NAME_MAX
}

/// Whether a sequence of characters can be a channel's topic.
pub open spec fn is_channel_topic(topic: Seq<char>) -> bool {
    topic.len() <= CHANNEL_TOPIC_MAX
}

/// Whether a number of seconds can be a channel's slow-mode delay.
pub open spec fn is_rate_limit_per_user(seconds: u64) -> bool {
    seconds <= RATE_LIMIT_PER_USER_MAX
}

/// Whether `value` can be a channel's name: it has at least 2 and at most
/// 100 characters.
pub fn channel_name(value: &str) -> (valid: bool)
    ensures
        valid == is_channel_name(value@),
{
    let len: usize = value.unicode_len();
    len >= CHANNEL_NAME_MIN && len <= CHANNEL_NAME_MAX
}

/// Whether `value` can be a channel's topic: it has at most 1024 characters.
pub fn channel_topic(value: &str) -> (valid: bool)
    ensures
        valid == is_channel_topic(value@),
{
    let len: usize = value.unicode_len();
    len <= CHANNEL_TOPIC_MAX
}

/// Whether `seconds` can be a channel's slow-mode delay: it is at most 21600.
pub fn rate_limit_per_user(seconds: u64) -> (valid: bool)
    ensures
        valid == is_rate_limit_per_user(seconds),
{
    seconds <= RATE_LIMIT_PER_USER_MAX
}

} // verus!
