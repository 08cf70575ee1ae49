use vstd::prelude::*;

use crate::model::message::MessageSticker;

verus! {

/// A cached sticker
///
/// It's the same as a sticker on the wire except:
///
/// - `message_id` field is added, making it possible to return a message's
///   stickers
///
/// - `user` field is changed to a user ID, since users are cached separately
///
/// - `available`, `kind` and `tags` fields are made optional, as they're not
///   present in message stickers
#[derive(Clone, Debug, PartialEq, Eq)]
pub struct CachedSticker {
    pub message_id: Option<u64>,
    pub available: Option<bool>,
    pub description: Option<String>,
    pub format_type: u8,
    pub guild_id: Option<u64>,
    pub id: u64,
    pub kind: Option<u8>,
    pub name: String,
    pub pack_id: Option<u64>,
    pub sort_value: Option<u64>,
    pub tags: Option<String>,
    pub user_id: Option<u64>,
}

/// A sticker as a delta event carries it
#[derive(Clone, Debug, PartialEq, Eq)]
pub struct Sticker {
    pub available: bool,
    pub description: Option<String>,
    pub format_type: u8,
    pub guild_id: Option<u64>,
    pub id: u64,
    pub kind: u8,
    pub name: String,
    pub pack_id: Option<u64>,
    pub sort_value: Option<u64>,
    pub tags: String,
    pub user_id: Option<u64>,
}

impl CachedSticker {
    /// What [`Self::from_message_sticker`] returns
    pub open spec fn spec_from_message_sticker(
        message_sticker: MessageSticker,
        message_id: u64,
    ) -> Self {
        CachedSticker {
            message_id: Some(message_id),
            available: None,
            description: None,
            format_type: message_sticker.format_type,
            guild_id: None,
            id: message_sticker.id,
            kind: None,
            name: message_sticker.name,
            pack_id: None,
            sort_value: None,
            tags: None,
            user_id: None,
        }
    }

    /// Create a cached sticker from a given message sticker and message ID
    pub fn from_message_sticker(message_sticker: MessageSticker, message_id: u64) -> (r: Self)
        ensures
            r == Self::spec_from_message_sticker(message_sticker, message_id),
    {
        Self {
            message_id: Some(message_id),
            available: None,
            description: None,
            format_type: message_sticker.format_type,
            guild_id: None,
            id: message_sticker.id,
            kind: None,
            name: message_sticker.name,
            pack_id: None,
            sort_value: None,
            tags: None,
            user_id: None,
        }
    }

    /// What [`Self::from_sticker`] returns
    pub open spec fn spec_from_sticker(sticker: Sticker) -> Self {
        CachedSticker {
            message_id: None,
            available: Some(sticker.available),
            description: sticker.description,
            format_type: sticker.format_type,
            guild_id: sticker.guild_id,
            id: sticker.id,
            kind: Some(sticker.kind),
            name: sticker.name,
            pack_id: sticker.pack_id,
            sort_value: sticker.sort_value,
            tags: Some(sticker.tags),
            user_id: sticker.user_id,
        }
    }

    /// Create a cached sticker from a given sticker
    pub fn from_sticker(sticker: Sticker) -> (r: Self)
        ensures
            r == Self::spec_from_sticker(sticker),
    {
        Self {
            message_id: None,
            available: Some(sticker.available),
            description: sticker.description,
            format_type: sticker.format_type,
            guild_id: sticker.guild_id,
            id: sticker.id,
            kind: Some(sticker.kind),
            name: sticker.name,
            pack_id: sticker.pack_id,
            sort_value: sticker.sort_value,
            tags: Some(sticker.tags),
            user_id: sticker.user_id,
        }
    }
}

} // verus!
