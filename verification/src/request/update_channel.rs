//! Changing a channel.

use vstd::prelude::*;
use vstd::string::StringExecFns;
use crate::model::channel_type::ChannelType;
use crate::model::id::ChannelId;
use crate::model::permission_overwrite::PermissionOverwrite;
use crate::request::audit::audit_header;
use crate::request::audit::audit_value;
use crate::request::route::Request;
use crate::request::route::Route;
use crate::request::validate::channel_name;
use crate::request::validate::channel_topic;
use crate::request::validate::is_channel_name;
use crate::request::validate::is_channel_topic;
use crate::request::validate::is_rate_limit_per_user;
use crate::request::validate::RATE_LIMIT_PER_USER_MAX;

verus! {

/// Why a channel can not be updated as configured.
#[derive(Clone, Copy, Debug, PartialEq, Eq, Structural, Hash)]
pub enum UpdateChannelError {
    /// The name has fewer than 2 or more than 100 characters.
    NameInvalid,
    /// The slow-mode delay is more than 21600 seconds.
    RateLimitPerUserInvalid,
    /// The topic has more than 1024 characters.
    TopicInvalid,
}

impl UpdateChannelError {
    /// What an error says of itself.
    pub open spec fn spec_message(self) -> Seq<char> {
        match self {
            UpdateChannelError::NameInvalid => "the length of the name is invalid"@,
            UpdateChannelError::RateLimitPerUserInvalid => "the rate limit per user is invalid"@,
            UpdateChannelError::TopicInvalid => "the topic is invalid"@,
        }
    }

    /// A sentence that describes the error.
    pub fn message(&self) -> (text: String)
        ensures
            text@ == self.spec_message(),
    {
        match self {
            UpdateChannelError::NameInvalid => String::from_str(
                "the length of the name is invalid",
            ),
            UpdateChannelError::RateLimitPerUserInvalid => String::from_str(
                "the rate limit per user is invalid",
            ),
            UpdateChannelError::TopicInvalid => String::from_str("the topic is invalid"),
        }
    }
}

/// The changes to make to a channel. A field that is `None` is left as it is.
#[derive(Clone, Debug, PartialEq, Eq)]
pub struct UpdateChannelFields {
    pub bitrate: Option<u64>,
    pub name: Option<String>,
    pub nsfw: Option<bool>,
    pub parent_id: Option<Option<ChannelId>>,
    pub permission_overwrites: Option<Vec<PermissionOverwrite>>,
    pub position: Option<u64>,
    pub rate_limit_per_user: Option<u64>,
    pub topic: Option<String>,
    pub user_limit: Option<u64>,
    pub kind: Option<ChannelType>,
}

/// The changes to make to a channel, as mathematical values.
pub struct ChannelChanges {
    pub bitrate: Option<u64>,
    pub name: Option<Seq<char>>,
    pub nsfw: Option<bool>,
    pub parent_id: Option<Option<ChannelId>>,
    pub permission_overwrites: Option<Seq<PermissionOverwrite>>,
    pub position: Option<u64>,
    pub rate_limit_per_user: Option<u64>,
    pub topic: Option<Seq<char>>,
    pub user_limit: Option<u64>,
    pub kind: Option<ChannelType>,
}

impl ChannelChanges {
    /// No change at all.
    pub open spec fn none() -> ChannelChanges {
        ChannelChanges {
            bitrate: None,
            name: None,
            nsfw: None,
            parent_id: None,
            permission_overwrites: None,
            position: None,
            rate_limit_per_user: None,
            topic: None,
            user_limit: None,
            kind: None,
        }
    }

    /// Whether each field that is set holds a value the service accepts.
    pub open spec fn valid(self) -> bool {
        &&& self.name matches Some(name) ==> is_channel_name(name)
        &&& self.topic matches Some(topic) ==> is_channel_topic(topic)
        &&& self.rate_limit_per_user matches Some(seconds) ==> is_rate_limit_per_user(seconds)
    }
}

impl View for UpdateChannelFields {
    type V = ChannelChanges;

    open spec fn view(&self) -> ChannelChanges {
        ChannelChanges {
            bitrate: self.bitrate,
            name: match self.name {
                Some(name) => Some(name@),
                None => None,
            },
            nsfw: self.nsfw,
            parent_id: self.parent_id,
            permission_overwrites: match self.permission_overwrites {
                Some(overwrites) => Some(overwrites@),
                None => None,
            },
            position: self.position,
            rate_limit_per_user: self.rate_limit_per_user,
            topic: match self.topic {
                Some(topic) => Some(topic@),
                None => None,
            },
            user_limit: self.user_limit,
            kind: self.kind,
        }
    }
}

impl Default for UpdateChannelFields {
    fn default() -> (fields: Self)
        ensures
            fields@ == ChannelChanges::none(),
    {
        UpdateChannelFields {
            bitrate: None,
            name: None,
            nsfw: None,
            parent_id: None,
            permission_overwrites: None,
            position: None,
            rate_limit_per_user: None,
            topic: None,
            user_limit: None,
            kind: None,
        }
    }
}

/// A request to update a channel, as mathematical values.
pub struct ChannelUpdate {
    pub channel_id: ChannelId,
    pub fields: ChannelChanges,
    pub reason: Option<Seq<char>>,
}

/// Updates a channel.
///
/// All fields are optional. A name has at least 2 and at most 100 characters,
/// a topic at most 1024 characters, and a slow-mode delay is at most 21600
/// seconds; a setter refuses any other value with an [`UpdateChannelError`].
pub struct UpdateChannel {
    channel_id: ChannelId,
    fields: UpdateChannelFields,
    reason: Option<String>,
}

impl View for UpdateChannel {
    type V = ChannelUpdate;

    closed spec fn view(&self) -> ChannelUpdate {
        ChannelUpdate {
            channel_id: self.channel_id,
            fields: self.fields@,
            reason: match self.reason {
                Some(reason) => Some(reason@),
                None => None,
            },
        }
    }
}

impl UpdateChannel {
    #[verifier::type_invariant]
    spec fn checked(self) -> bool {
        self.fields@.valid()
    }

    /// A request that changes nothing yet on the channel `channel_id`.
    pub fn new(channel_id: ChannelId) -> (update: Self)
        ensures
            update@ == (ChannelUpdate {
                channel_id,
                fields: ChannelChanges::none(),
                reason: None,
            }),
    {
        UpdateChannel { channel_id, fields: UpdateChannelFields::default(), reason: None }
    }

    /// Set the bitrate of the channel. Applicable to voice channels only.
    pub fn bitrate(self, bitrate: u64) -> (update: Self)
        ensures
            update@ == (ChannelUpdate {
                fields: (ChannelChanges { bitrate: Some(bitrate), ..self@.fields }),
                ..self@
            }),
    {
        proof {
            use_type_invariant(&self);
        }
        let mut update = self;
        update.fields.bitrate = Some(bitrate);
        update
    }

    /// Set the name.
    ///
    /// The name is refused with [`UpdateChannelError::NameInvalid`] unless it
    /// has at least 2 and at most 100 characters.
    pub fn name(self, name: String) -> (update: Result<Self, UpdateChannelError>)
        ensures
            match update {
                Ok(u) => is_channel_name(name@) && u@ == (ChannelUpdate {
                    fields: (ChannelChanges { name: Some(name@), ..self@.fields }),
                    ..self@
                }),
                Err(e) => !is_channel_name(name@) && e == UpdateChannelError::NameInvalid,
            },
    {
        proof {
            use_type_invariant(&self);
        }
        if !channel_name(name.as_str()) {
            return Err(UpdateChannelError::NameInvalid);
        }
        let mut update = self;
        update.fields.name = Some(name);
        Ok(update)
    }

    /// Set whether the channel is marked as NSFW.
    pub fn nsfw(self, nsfw: bool) -> (update: Self)
        ensures
            update@ == (ChannelUpdate {
                fields: (ChannelChanges { nsfw: Some(nsfw), ..self@.fields }),
                ..self@
            }),
    {
        proof {
            use_type_invariant(&self);
        }
        let mut update = self;
        update.fields.nsfw = Some(nsfw);
        update
    }

    /// Move the channel below the category `parent_id`, or, with `None`, out
    /// of its category.
    pub fn parent_id(self, parent_id: Option<ChannelId>) -> (update: Self)
        ensures
            update@ == (ChannelUpdate {
                fields: (ChannelChanges { parent_id: Some(parent_id), ..self@.fields }),
                ..self@
            }),
    {
        proof {
            use_type_invariant(&self);
        }
        let mut update = self;
        update.fields.parent_id = Some(parent_id);
        update
    }

    /// Set the permission overwrites of the channel. They replace all the
    /// overwrites that the channel has, so use with caution!
    pub fn permission_overwrites(self, permission_overwrites: Vec<PermissionOverwrite>) -> (update:
        Self)
        ensures
            update@ == (ChannelUpdate {
                fields: (ChannelChanges {
                    permission_overwrites: Some(permission_overwrites@),
                    ..self@.fields
                }),
                ..self@
            }),
    {
        proof {
            use_type_invariant(&self);
        }
        let mut update = self;
        update.fields.permission_overwrites = Some(permission_overwrites);
        update
    }

    /// Set the position of the channel.
    ///
    /// Positions are numerical and zero-indexed. If you place a channel at
    /// position 2, channels 2-n will shift down one position and the channel
    /// will take its place.
    pub fn position(self, position: u64) -> (update: Self)
        ensures
            update@ == (ChannelUpdate {
                fields: (ChannelChanges { position: Some(position), ..self@.fields }),
                ..self@
            }),
    {
        proof {
            use_type_invariant(&self);
        }
        let mut update = self;
        update.fields.position = Some(position);
        update
    }

    /// Set the number of seconds that a user must wait before they are able
    /// to send another message. This is also known as "Slow Mode".
    ///
    /// The minimum is 0 and the maximum is 21600. A greater amount is refused
    /// with [`UpdateChannelError::RateLimitPerUserInvalid`].
    pub fn rate_limit_per_user(self, rate_limit_per_user: u64) -> (update: Result<
        Self,
        UpdateChannelError,
    >)
        ensures
            match update {
                Ok(u) => rate_limit_per_user <= 21600 && u@ == (ChannelUpdate {
                    fields: (ChannelChanges {
                        rate_limit_per_user: Some(rate_limit_per_user),
                        ..self@.fields
                    }),
                    ..self@
                }),
                Err(e) => rate_limit_per_user > 21600 && e
                    == UpdateChannelError::RateLimitPerUserInvalid,
            },
    {
        proof {
            use_type_invariant(&self);
        }
        if rate_limit_per_user > RATE_LIMIT_PER_USER_MAX {
            return Err(UpdateChannelError::RateLimitPerUserInvalid);
        }
        let mut update = self;
        update.fields.rate_limit_per_user = Some(rate_limit_per_user);
        Ok(update)
    }

    /// Set the topic.
    ///
    /// The topic is refused with [`UpdateChannelError::TopicInvalid`] if it
    /// has more than 1024 characters.
    pub fn topic(self, topic: String) -> (update: Result<Self, UpdateChannelError>)
        ensures
            match update {
                Ok(u) => is_channel_topic(topic@) && u@ == (ChannelUpdate {
                    fields: (ChannelChanges { topic: Some(topic@), ..self@.fields }),
                    ..self@
                }),
                Err(e) => !is_channel_topic(topic@) && e == UpdateChannelError::TopicInvalid,
            },
    {
        proof {
            use_type_invariant(&self);
        }
        if !channel_topic(topic.as_str()) {
            return Err(UpdateChannelError::TopicInvalid);
        }
        let mut update = self;
        update.fields.topic = Some(topic);
        Ok(update)
    }

    /// For voice channels, set the user limit.
    ///
    /// Set to 0 for no limit. Limit can otherwise be between 1 and 99
    /// inclusive.
    pub fn user_limit(self, user_limit: u64) -> (update: Self)
        ensures
            update@ == (ChannelUpdate {
                fields: (ChannelChanges { user_limit: Some(user_limit), ..self@.fields }),
                ..self@
            }),
    {
        proof {
            use_type_invariant(&self);
        }
        let mut update = self;
        update.fields.user_limit = Some(user_limit);
        update
    }

    /// Set the kind of channel.
    ///
    /// Only conversion between `ChannelType::GuildText` and
    /// `ChannelType::GuildNews` is possible, and only if the guild has the
    /// `NEWS` feature enabled.
    pub fn kind(self, kind: ChannelType) -> (update: Self)
        ensures
            update@ == (ChannelUpdate {
                fields: (ChannelChanges { kind: Some(kind), ..self@.fields }),
                ..self@
            }),
    {
        proof {
            use_type_invariant(&self);
        }
        let mut update = self;
        update.fields.kind = Some(kind);
        update
    }

    /// Attach an audit log reason to this request.
    pub fn reason(self, reason: String) -> (update: Self)
        ensures
            update@ == (ChannelUpdate { reason: Some(reason@), ..self@ }),
    {
        proof {
            use_type_invariant(&self);
        }
        let mut update = self;
        update.reason = Some(reason);
        update
    }

    /// The channel to update.
    pub fn channel_id(&self) -> (id: ChannelId)
        ensures
            id == self@.channel_id,
    {
        self.channel_id
    }

    /// The changes to make. Each field that is set holds a value that its
    /// setter accepted.
    pub fn fields(&self) -> (fields: &UpdateChannelFields)
        ensures
            fields@ == self@.fields,
            fields@.valid(),
    {
        proof {
            use_type_invariant(self);
        }
        &self.fields
    }

    /// The request to send. `body` is the serialized form of
    /// [`UpdateChannel::fields`]; where a reason was attached, the request
    /// carries it in its audit header.
    pub fn start(&self, body: Vec<u8>) -> (request: Request)
        ensures
            request.body == body,
            request.route == (Route::UpdateChannel { channel_id: self@.channel_id.0 }),
            match self@.reason {
                Some(reason) => request.audit_reason matches Some(value) && value@ == audit_value(
                    reason,
                ),
                None => request.audit_reason is None,
            },
    {
        let route = Route::UpdateChannel { channel_id: self.channel_id.0 };
        match &self.reason {
            Some(reason) => {
                let headers = audit_header(reason.as_str());
                Request::with_audit_reason(body, headers, route)
            },
            None => Request::new(body, route),
        }
    }
}

} // verus!
