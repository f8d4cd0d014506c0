use vstd::prelude::*;

verus! {

/// The kind of a webhook.
#[derive(Clone, Copy, Debug, PartialEq, Eq, Structural, PartialOrd, Ord, Hash)]
pub enum WebhookType {
    /// Posts messages into a channel with a generated token.
    Incoming,
    /// Managed internally to relay messages of a followed channel.
    ChannelFollower,
}

impl WebhookType {
    /// The number that stands for a webhook type on the wire.
    pub open spec fn spec_number(self) -> u8 {
        match self {
            WebhookType::Incoming => 1,
            WebhookType::ChannelFollower => 2,
        }
    }

    /// The number that stands for this webhook type on the wire.
    pub fn number(self) -> (n: u8)
        ensures
            n == self.spec_number(),
    {
        match self {
            WebhookType::Incoming => 1,
            WebhookType::ChannelFollower => 2,
        }
    }

    /// The webhook type that a wire number stands for, if any.
    pub fn from_number(n: u8) -> (kind: Option<WebhookType>)
        ensures
            kind matches Some(k) ==> k.spec_number() == n,
            kind is None <==> n != 1 && n != 2,
    {
        if n == 1 {
            Some(WebhookType::Incoming)
        } else if n == 2 {
            Some(WebhookType::ChannelFollower)
        } else {
            None
        }
    }
}

impl Default for WebhookType {
    fn default() -> (kind: Self)
        ensures
            kind == WebhookType::Incoming,
    {
        WebhookType::Incoming
    }
}

} // verus!
