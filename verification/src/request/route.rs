//! Where a request goes, and the request itself.

use vstd::prelude::*;
use vstd::string::StringSliceAdditionalSpecFns;
use crate::text::decimal;
use crate::text::push_all;
use crate::text::push_decimal;

verus! {

/// The method of an HTTP request.
#[derive(Clone, Copy, Debug, PartialEq, Eq, Structural, Hash)]
pub enum Method {
    Delete,
    Get,
    Patch,
    Post,
    Put,
}

/// An endpoint of the service, with the identifiers it is about.
#[derive(Clone, Copy, Debug, PartialEq, Eq, Structural, Hash)]
pub enum Route {
    /// Changes a channel.
    UpdateChannel { channel_id: u64 },
    /// Changes an emoji of a guild.
    UpdateEmoji { emoji_id: u64, guild_id: u64 },
}

impl Route {
    /// The method that requests to a route use.
    pub open spec fn spec_method(self) -> Method {
        match self {
            Route::UpdateChannel { .. } => Method::Patch,
            Route::UpdateEmoji { .. } => Method::Patch,
        }
    }

    /// The path of a route, below the interface's root.
    pub open spec fn spec_path(self) -> Seq<u8> {
        match self {
            Route::UpdateChannel { channel_id } => "channels/".spec_bytes() + decimal(
                channel_id as nat,
            ),
            Route::UpdateEmoji { emoji_id, guild_id } => "guilds/".spec_bytes() + decimal(
                guild_id as nat,
            ) + "/emojis/".spec_bytes() + decimal(emoji_id as nat),
        }
    }

    /// The method that requests to this route use.
    pub fn method(&self) -> (m: Method)
        ensures
            m == self.spec_method(),
    {
        match self {
            Route::UpdateChannel { .. } => Method::Patch,
            Route::UpdateEmoji { .. } => Method::Patch,
        }
    }

    /// The path of this route, below the interface's root.
    pub fn path(&self) -> (p: Vec<u8>)
        ensures
            p@ == self.spec_path(),
    {
        let mut p: Vec<u8> = Vec::new();
        match self {
            Route::UpdateChannel { channel_id } => {
                push_all(&mut p, "channels/".as_bytes());
                push_decimal(&mut p, *channel_id);
            },
            Route::UpdateEmoji { emoji_id, guild_id } => {
                push_all(&mut p, "guilds/".as_bytes());
                push_decimal(&mut p, *guild_id);
                push_all(&mut p, "/emojis/".as_bytes());
                push_decimal(&mut p, *emoji_id);
            },
        }
        assert(p@ =~= self.spec_path());
        p
    }
}

/// A request, ready to be sent: the route, the body, and the value of the
/// audit header where a reason was given.
#[derive(Clone, Debug, PartialEq, Eq)]
pub struct Request {
    pub body: Vec<u8>,
    pub audit_reason: Option<Vec<u8>>,
    pub route: Route,
}

impl Request {
    /// A request without an audit header.
    pub fn new(body: Vec<u8>, route: Route) -> (request: Request)
        ensures
            request.body == body,
            request.audit_reason is None,
            request.route == route,
    {
        Request { body, audit_reason: None, route }
    }

    /// A request whose audit header has the value `audit_reason`.
    pub fn with_audit_reason(body: Vec<u8>, audit_reason: Vec<u8>, route: Route) -> (request:
        Request)
        ensures
            request.body == body,
            request.audit_reason == Some(audit_reason),
            request.route == route,
    {
        Request { body, audit_reason: Some(audit_reason), route }
    }
}

} // verus!
