//! Changing an emoji of a guild.

use vstd::prelude::*;
use crate::model::id::EmojiId;
use crate::model::id::GuildId;
use crate::model::id::RoleId;
use crate::request::audit::audit_header;
use crate::request::audit::audit_value;
use crate::request::route::Request;
use crate::request::route::Route;

verus! {

/// The changes to make to an emoji. A field that is `None` is left as it is.
#[derive(Clone, Debug, PartialEq, Eq)]
pub struct UpdateEmojiFields {
    pub name: Option<String>,
    pub roles: Option<Vec<RoleId>>,
}

/// The changes to make to an emoji, as mathematical values.
pub struct EmojiChanges {
    pub name: Option<Seq<char>>,
    pub roles: Option<Seq<RoleId>>,
}

impl View for UpdateEmojiFields {
    type V = EmojiChanges;

    open spec fn view(&self) -> EmojiChanges {
        EmojiChanges {
            name: match self.name {
                Some(name) => Some(name@),
                None => None,
            },
            roles: match self.roles {
                Some(roles) => Some(roles@),
                None => None,
            },
        }
    }
}

impl Default for UpdateEmojiFields {
    fn default() -> (fields: Self)
        ensures
            fields@ == (EmojiChanges { name: None, roles: None }),
    {
        UpdateEmojiFields { name: None, roles: None }
    }
}

/// A request to update an emoji, as mathematical values.
pub struct EmojiUpdate {
    pub emoji_id: EmojiId,
    pub guild_id: GuildId,
    pub fields: EmojiChanges,
    pub reason: Option<Seq<char>>,
}

/// Updates an emoji in a guild, by id.
pub struct UpdateEmoji {
    emoji_id: EmojiId,
    fields: UpdateEmojiFields,
    guild_id: GuildId,
    reason: Option<String>,
}

impl View for UpdateEmoji {
    type V = EmojiUpdate;

    closed spec fn view(&self) -> EmojiUpdate {
        EmojiUpdate {
            emoji_id: self.emoji_id,
            guild_id: self.guild_id,
            fields: self.fields@,
            reason: match self.reason {
                Some(reason) => Some(reason@),
                None => None,
            },
        }
    }
}

impl UpdateEmoji {
    /// A request that changes nothing yet on the emoji `emoji_id` of the
    /// guild `guild_id`.
    pub fn new(guild_id: GuildId, emoji_id: EmojiId) -> (update: Self)
        ensures
            update@ == (EmojiUpdate {
                emoji_id,
                guild_id,
                fields: (EmojiChanges { name: None, roles: None }),
                reason: None,
            }),
    {
        UpdateEmoji { fields: UpdateEmojiFields::default(), emoji_id, guild_id, reason: None }
    }

    /// Change the name of the emoji.
    pub fn name(self, name: String) -> (update: Self)
        ensures
            update@ == (EmojiUpdate {
                fields: (EmojiChanges { name: Some(name@), ..self@.fields }),
                ..self@
            }),
    {
        let mut update = self;
        update.fields.name = Some(name);
        update
    }

    /// Change the roles that the emoji is whitelisted to.
    pub fn roles(self, roles: Vec<RoleId>) -> (update: Self)
        ensures
            update@ == (EmojiUpdate {
                fields: (EmojiChanges { roles: Some(roles@), ..self@.fields }),
                ..self@
            }),
    {
        let mut update = self;
        update.fields.roles = Some(roles);
        update
    }

    /// Attach an audit log reason to this request.
    pub fn reason(self, reason: String) -> (update: Self)
        ensures
            update@ == (EmojiUpdate { reason: Some(reason@), ..self@ }),
    {
        let mut update = self;
        update.reason = Some(reason);
        update
    }

    /// The emoji to update.
    pub fn emoji_id(&self) -> (id: EmojiId)
        ensures
            id == self@.emoji_id,
    {
        self.emoji_id
    }

    /// The guild that the emoji belongs to.
    pub fn guild_id(&self) -> (id: GuildId)
        ensures
            id == self@.guild_id,
    {
        self.guild_id
    }

    /// The changes to make.
    pub fn fields(&self) -> (fields: &UpdateEmojiFields)
        ensures
            fields@ == self@.fields,
    {
        &self.fields
    }

    /// The request to send. `body` is the serialized form of
    /// [`UpdateEmoji::fields`]; where a reason was attached, the request
    /// carries it in its audit header.
    pub fn start(&self, body: Vec<u8>) -> (request: Request)
        ensures
            request.body == body,
            request.route == (Route::UpdateEmoji {
                emoji_id: self@.emoji_id.0,
                guild_id: self@.guild_id.0,
            }),
            match self@.reason {
                Some(reason) => request.audit_reason matches Some(value) && value@ == audit_value(
                    reason,
                ),
                None => request.audit_reason is None,
            },
    {
        let route = Route::UpdateEmoji { emoji_id: self.emoji_id.0, guild_id: self.guild_id.0 };
        match &self.reason {
            Some(reason) => {
                let headers = audit_header(reason.as_str());
                Request::with_audit_reason(body, headers, route)
            },
            None => Request::new(body, route),
        }
    }
}

} // verus!
