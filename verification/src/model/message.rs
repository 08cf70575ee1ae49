use vstd::prelude::*;

use crate::model::member::clone_opt_string;

verus! {

/// A cached embed field
///
/// It's the same as an embed field on the wire except:
///
/// - `embed_id` field is added, making it possible to return an embed's fields
#[derive(Clone, Debug, PartialEq, Eq)]
pub struct CachedEmbedField {
    pub embed_id: u64,
    pub inline: bool,
    pub name: String,
    pub value: String,
}

/// An embed field as a delta event carries it, before the owning embed's
/// synthetic ID is attached
#[derive(Clone, Debug, PartialEq, Eq)]
pub struct EmbedField {
    pub inline: bool,
    pub name: String,
    pub value: String,
}

impl CachedEmbedField {
    /// What [`Self::from_embed_field`] returns
    pub open spec fn spec_from_embed_field(embed_field: EmbedField, embed_id: u64) -> Self {
        CachedEmbedField {
            embed_id,
            inline: embed_field.inline,
            name: embed_field.name,
            value: embed_field.value,
        }
    }

    /// Create a cached embed field from a given embed field and embed ID
    pub fn from_embed_field(embed_field: EmbedField, embed_id: u64) -> (r: Self)
        ensures
            r == Self::spec_from_embed_field(embed_field, embed_id),
    {
        Self {
            embed_id,
            inline: embed_field.inline,
            name: embed_field.name,
            value: embed_field.value,
        }
    }
}

/// A cached embed
///
/// It's the same as an embed on the wire except:
///
/// - `fields` field is removed and a synthetic `id` field is added, making it
///   possible to return an embed's fields
///
/// - `message_id` field is added, making it possible to return a message's
///   embeds
///
/// - `author`, `footer`, `image`, `provider`, `thumbnail` and `video` fields
///   are flattened, making this struct easier to cache
#[derive(Clone, Debug, PartialEq, Eq)]
pub struct CachedEmbed {
    pub id: u64,
    pub message_id: u64,
    pub author_icon_url: Option<String>,
    pub author_name: Option<String>,
    pub author_proxy_icon_url: Option<String>,
    pub author_url: Option<String>,
    pub color: Option<u32>,
    pub description: Option<String>,
    pub footer_icon_url: Option<String>,
    pub footer_proxy_icon_url: Option<String>,
    pub footer_text: Option<String>,
    pub image_height: Option<u64>,
    pub image_proxy_url: Option<String>,
    pub image_url: Option<String>,
    pub image_width: Option<u64>,
    pub kind: String,
    pub provider_name: Option<String>,
    pub provider_url: Option<String>,
    pub thumbnail_height: Option<u64>,
    pub thumbnail_proxy_url: Option<String>,
    pub thumbnail_url: Option<String>,
    pub thumbnail_width: Option<u64>,
    pub timestamp: Option<i64>,
    pub title: Option<String>,
    pub url: Option<String>,
    pub video_height: Option<u64>,
    pub video_proxy_url: Option<String>,
    pub video_url: Option<String>,
    pub video_width: Option<u64>,
}

/// The flattened body of an embed as a delta event carries it, without the
/// synthetic ID and owning message ID of the cached form
#[derive(Clone, Debug, PartialEq, Eq)]
pub struct EmbedData {
    pub author_icon_url: Option<String>,
    pub author_name: Option<String>,
    pub author_proxy_icon_url: Option<String>,
    pub author_url: Option<String>,
    pub color: Option<u32>,
    pub description: Option<String>,
    pub footer_icon_url: Option<String>,
    pub footer_proxy_icon_url: Option<String>,
    pub footer_text: Option<String>,
    pub image_height: Option<u64>,
    pub image_proxy_url: Option<String>,
    pub image_url: Option<String>,
    pub image_width: Option<u64>,
    pub kind: String,
    pub provider_name: Option<String>,
    pub provider_url: Option<String>,
    pub thumbnail_height: Option<u64>,
    pub thumbnail_proxy_url: Option<String>,
    pub thumbnail_url: Option<String>,
    pub thumbnail_width: Option<u64>,
    pub timestamp: Option<i64>,
    pub title: Option<String>,
    pub url: Option<String>,
    pub video_height: Option<u64>,
    pub video_proxy_url: Option<String>,
    pub video_url: Option<String>,
    pub video_width: Option<u64>,
}

/// An embed as a delta event carries it: its flattened body and its fields
#[derive(Clone, Debug, PartialEq, Eq)]
pub struct Embed {
    /// The embed's flattened body
    pub embed: EmbedData,
    /// The embed's fields
    pub fields: Vec<EmbedField>,
}

impl CachedEmbed {
    /// What [`Self::from_embed`] returns
    pub open spec fn spec_from_embed(embed: EmbedData, message_id: u64, id: u64) -> Self {
        CachedEmbed {
            id,
            message_id,
            author_icon_url: embed.author_icon_url,
            author_name: embed.author_name,
            author_proxy_icon_url: embed.author_proxy_icon_url,
            author_url: embed.author_url,
            color: embed.color,
            description: embed.description,
            footer_icon_url: embed.footer_icon_url,
            footer_proxy_icon_url: embed.footer_proxy_icon_url,
            footer_text: embed.footer_text,
            image_height: embed.image_height,
            image_proxy_url: embed.image_proxy_url,
            image_url: embed.image_url,
            image_width: embed.image_width,
            kind: embed.kind,
            provider_name: embed.provider_name,
            provider_url: embed.provider_url,
            thumbnail_height: embed.thumbnail_height,
            thumbnail_proxy_url: embed.thumbnail_proxy_url,
            thumbnail_url: embed.thumbnail_url,
            thumbnail_width: embed.thumbnail_width,
            timestamp: embed.timestamp,
            title: embed.title,
            url: embed.url,
            video_height: embed.video_height,
            video_proxy_url: embed.video_proxy_url,
            video_url: embed.video_url,
            video_width: embed.video_width,
        }
    }

    /// Create a cached embed from a given embed body, its owning message ID
    /// and the synthetic ID minted for it
    pub fn from_embed(embed: EmbedData, message_id: u64, id: u64) -> (r: Self)
        ensures
            r == Self::spec_from_embed(embed, message_id, id),
    {
        Self {
            id,
            message_id,
            author_icon_url: embed.author_icon_url,
            author_name: embed.author_name,
            author_proxy_icon_url: embed.author_proxy_icon_url,
            author_url: embed.author_url,
            color: embed.color,
            description: embed.description,
            footer_icon_url: embed.footer_icon_url,
            footer_proxy_icon_url: embed.footer_proxy_icon_url,
            footer_text: embed.footer_text,
            image_height: embed.image_height,
            image_proxy_url: embed.image_proxy_url,
            image_url: embed.image_url,
            image_width: embed.image_width,
            kind: embed.kind,
            provider_name: embed.provider_name,
            provider_url: embed.provider_url,
            thumbnail_height: embed.thumbnail_height,
            thumbnail_proxy_url: embed.thumbnail_proxy_url,
            thumbnail_url: embed.thumbnail_url,
            thumbnail_width: embed.thumbnail_width,
            timestamp: embed.timestamp,
            title: embed.title,
            url: embed.url,
            video_height: embed.video_height,
            video_proxy_url: embed.video_proxy_url,
            video_url: embed.video_url,
            video_width: embed.video_width,
        }
    }
}

/// A cached attachment
///
/// It's the same as an attachment on the wire except:
///
/// - `message_id` field is added, making it possible to return a message's
///   attachments
#[derive(Clone, Debug, PartialEq, Eq)]
pub struct CachedAttachment {
    pub message_id: u64,
    pub content_type: Option<String>,
    pub ephemeral: bool,
    pub filename: String,
    pub description: Option<String>,
    pub height: Option<u64>,
    pub id: u64,
    pub proxy_url: String,
    pub size: u64,
    pub url: String,
    pub width: Option<u64>,
}

/// An attachment as a delta event carries it, before the owning message's ID
/// is attached
#[derive(Clone, Debug, PartialEq, Eq)]
pub struct Attachment {
    pub content_type: Option<String>,
    pub ephemeral: bool,
    pub filename: String,
    pub description: Option<String>,
    pub height: Option<u64>,
    pub id: u64,
    pub proxy_url: String,
    pub size: u64,
    pub url: String,
    pub width: Option<u64>,
}

impl CachedAttachment {
    /// What [`Self::from_attachment`] returns
    pub open spec fn spec_from_attachment(attachment: Attachment, message_id: u64) -> Self {
        CachedAttachment {
            message_id,
            content_type: attachment.content_type,
            ephemeral: attachment.ephemeral,
            filename: attachment.filename,
            description: attachment.description,
            height: attachment.height,
            id: attachment.id,
            proxy_url: attachment.proxy_url,
            size: attachment.size,
            url: attachment.url,
            width: attachment.width,
        }
    }

    /// Create a cached attachment from a given attachment and message ID
    pub fn from_attachment(attachment: Attachment, message_id: u64) -> (r: Self)
        ensures
            r == Self::spec_from_attachment(attachment, message_id),
    {
        Self {
            message_id,
            content_type: attachment.content_type,
            ephemeral: attachment.ephemeral,
            filename: attachment.filename,
            description: attachment.description,
            height: attachment.height,
            id: attachment.id,
            proxy_url: attachment.proxy_url,
            size: attachment.size,
            url: attachment.url,
            width: attachment.width,
        }
    }
}

/// A sticker as a message payload carries it: only its format, ID and name
#[derive(Clone, Debug, PartialEq, Eq)]
pub struct MessageSticker {
    pub format_type: u8,
    pub id: u64,
    pub name: String,
}

/// A cached message
///
/// It's the same as a message on the wire except:
///
/// - `activity` and `reference` fields are flattened, making this struct
///   easier to cache
///
/// - `author`, `referenced_message` and `thread` fields are changed to their
///   IDs, since they're cached separately
///
/// - `components`, `interaction`, `mention_channels`, `mention_roles` and
///   `mentions` fields are removed, as caching them is likely unnecessary
///
/// - `member`, `reactions`, `attachments`, `embeds` and `sticker_items`
///   fields are removed, since they are cached separately
#[derive(Clone, Debug, PartialEq, Eq)]
pub struct CachedMessage {
    pub activity_type: Option<u8>,
    pub activity_party_id: Option<String>,
    pub application_cover_image: Option<String>,
    pub application_description: Option<String>,
    pub application_icon: Option<String>,
    pub application_id: Option<u64>,
    pub application_name: Option<String>,
    pub interaction_application_id: Option<u64>,
    pub author: u64,
    pub channel_id: u64,
    pub content: String,
    pub edited_timestamp: Option<i64>,
    pub flags: Option<u64>,
    pub guild_id: Option<u64>,
    pub id: u64,
    pub kind: u8,
    pub mention_everyone: bool,
    pub pinned: bool,
    pub reference_channel_id: Option<u64>,
    pub reference_guild_id: Option<u64>,
    pub reference_message_id: Option<u64>,
    pub reference_fail_if_not_exists: Option<bool>,
    pub referenced_message: Option<u64>,
    pub timestamp: i64,
    pub thread: Option<u64>,
    pub tts: bool,
    pub webhook_id: Option<u64>,
}

/// A message as a message-create event carries it: the cached row plus the
/// owned collections that are cached separately
#[derive(Clone, Debug, PartialEq, Eq)]
pub struct Message {
    /// The message row itself
    pub message: CachedMessage,
    /// The message's attachments
    pub attachments: Vec<Attachment>,
    /// The message's stickers
    pub sticker_items: Vec<MessageSticker>,
    /// The message's embeds
    pub embeds: Vec<Embed>,
}

/// A partial message-update payload: the merged fields plus the owned
/// collections that, when present, fully replace the cached ones
#[derive(Clone, Debug, PartialEq, Eq)]
pub struct MessageUpdate {
    pub id: u64,
    pub channel_id: u64,
    pub attachments: Option<Vec<Attachment>>,
    pub embeds: Option<Vec<Embed>>,
    pub content: Option<String>,
    pub edited_timestamp: Option<i64>,
    pub mention_everyone: Option<bool>,
    pub pinned: Option<bool>,
}

impl CachedMessage {
    /// What a message row is after applying the partial update `message`: the
    /// fields the payload carries are replaced, every other field is kept
    pub open spec fn spec_update(old: CachedMessage, message: MessageUpdate) -> CachedMessage {
        CachedMessage {
            content: match message.content { Some(content) => content, None => old.content },
            edited_timestamp: match message.edited_timestamp {
                Some(timestamp) => Some(timestamp),
                None => old.edited_timestamp,
            },
            mention_everyone: match message.mention_everyone {
                Some(mentions) => mentions,
                None => old.mention_everyone,
            },
            pinned: match message.pinned { Some(pinned) => pinned, None => old.pinned },
            ..old
        }
    }

    /// Update the cached message with the message update
    pub fn update(&mut self, message: &MessageUpdate)
        ensures
            *final(self) == Self::spec_update(*old(self), *message),
    {
        if let Some(content) = &message.content {
            self.content = content.clone();
        }
        if message.edited_timestamp.is_some() {
            self.edited_timestamp = message.edited_timestamp;
        }
        if let Some(mentions) = message.mention_everyone {
            self.mention_everyone = mentions;
        }
        if let Some(pinned) = message.pinned {
            self.pinned = pinned;
        }
    }
}

} // verus!
