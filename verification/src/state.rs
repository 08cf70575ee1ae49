use vstd::prelude::*;

use crate::model::{
    CachedActivity, CachedAttachment, CachedChannel, CachedCurrentUser, CachedEmbed,
    CachedEmbedField, CachedEmoji, CachedGuild, CachedMember, CachedMessage,
    CachedPermissionOverwrite, CachedPresence, CachedReaction, CachedRole, CachedStageInstance,
    CachedSticker, EmojiKey,
};

verus! {

/// The abstract state of the cache: one mathematical collection per cached
/// entity, keyed as the data model requires
///
/// Entities whose rows have a (composite) primary key are maps from that key;
/// embed fields and activities, none of whose fields are unique, are
/// sequences grouped under their owner's key.  `next_id` is the counter that
/// synthetic embed IDs are drawn from.
#[verifier::ext_equal]
pub struct CacheModel {
    /// The current user, absent until a ready event arrives
    pub current_user: Option<CachedCurrentUser>,
    /// Channels and threads, by channel ID
    pub channels: Map<u64, CachedChannel>,
    /// Permission overwrites, by (channel ID, overwrite ID)
    pub overwrites: Map<(u64, u64), CachedPermissionOverwrite>,
    /// DM channels, as (channel ID, recipient user ID) pairs, both unique
    /// together
    pub private_channels: Set<(u64, u64)>,
    /// Messages, by message ID
    pub messages: Map<u64, CachedMessage>,
    /// Embeds, by their synthetic ID
    pub embeds: Map<u64, CachedEmbed>,
    /// Embed fields, grouped by their owning embed's synthetic ID
    pub embed_fields: Map<u64, Seq<CachedEmbedField>>,
    /// Attachments, by attachment ID
    pub attachments: Map<u64, CachedAttachment>,
    /// Reactions, by (message ID, user ID, emoji key)
    pub reactions: Map<(u64, u64, EmojiKey), CachedReaction>,
    /// Members, by (guild ID, user ID)
    pub members: Map<(u64, u64), CachedMember>,
    /// Presences, by (guild ID, user ID)
    pub presences: Map<(u64, u64), CachedPresence>,
    /// Activities, grouped by (guild ID, user ID)
    pub activities: Map<(u64, u64), Seq<CachedActivity>>,
    /// Guilds, by guild ID
    pub guilds: Map<u64, CachedGuild>,
    /// Role rows, by (role ID, user ID): a row keyed with `None` is the
    /// guild-level definition, one keyed with `Some` records that the member
    /// holds the role
    pub roles: Map<(u64, Option<u64>), CachedRole>,
    /// Emojis, by emoji ID
    pub emojis: Map<u64, CachedEmoji>,
    /// Stickers, by sticker ID
    pub stickers: Map<u64, CachedSticker>,
    /// Stage instances, by stage ID
    pub stages: Map<u64, CachedStageInstance>,
    /// The counter synthetic IDs are drawn from
    pub next_id: u64,
}

impl CacheModel {
    /// The empty cache, as a backend starts out
    pub open spec fn init() -> Self {
        CacheModel {
            current_user: None,
            channels: Map::empty(),
            overwrites: Map::empty(),
            private_channels: Set::empty(),
            messages: Map::empty(),
            embeds: Map::empty(),
            embed_fields: Map::empty(),
            attachments: Map::empty(),
            reactions: Map::empty(),
            members: Map::empty(),
            presences: Map::empty(),
            activities: Map::empty(),
            guilds: Map::empty(),
            roles: Map::empty(),
            emojis: Map::empty(),
            stickers: Map::empty(),
            stages: Map::empty(),
            next_id: 0,
        }
    }

    /// Set or replace the current user
    pub open spec fn with_current_user(self, user: CachedCurrentUser) -> Self {
        CacheModel { current_user: Some(user), ..self }
    }

    /// Add or replace a channel row
    pub open spec fn with_channel(self, channel: CachedChannel) -> Self {
        CacheModel { channels: self.channels.insert(channel.id, channel), ..self }
    }

    /// Remove a channel row; removing an absent row changes nothing
    pub open spec fn without_channel(self, channel_id: u64) -> Self {
        CacheModel { channels: self.channels.remove(channel_id), ..self }
    }

    /// Remove every channel row of the given guild
    pub open spec fn without_guild_channels(self, guild_id: u64) -> Self {
        CacheModel {
            channels: self.channels.remove_keys(
                Set::new(
                    |id: u64|
                        self.channels.contains_key(id) && self.channels[id].guild_id == Some(
                            guild_id,
                        ),
                ),
            ),
            ..self
        }
    }

    /// Add or replace a permission overwrite, keyed by channel and overwrite
    /// ID
    pub open spec fn with_overwrite(self, overwrite: CachedPermissionOverwrite) -> Self {
        CacheModel {
            overwrites: self.overwrites.insert((overwrite.channel_id, overwrite.id), overwrite),
            ..self
        }
    }

    /// Remove every permission overwrite of the given channel
    pub open spec fn without_channel_overwrites(self, channel_id: u64) -> Self {
        CacheModel {
            overwrites: self.overwrites.remove_keys(
                Set::new(|k: (u64, u64)| k.0 == channel_id),
            ),
            ..self
        }
    }

    /// Remove every permission overwrite of every channel of the given guild
    pub open spec fn without_guild_channel_overwrites(self, guild_id: u64) -> Self {
        CacheModel {
            overwrites: self.overwrites.remove_keys(
                Set::new(
                    |k: (u64, u64)|
                        self.channels.contains_key(k.0) && self.channels[k.0].guild_id == Some(
                            guild_id,
                        ),
                ),
            ),
            ..self
        }
    }

    /// Record a DM channel's recipient
    pub open spec fn with_private_channel(self, channel_id: u64, user_id: u64) -> Self {
        CacheModel {
            private_channels: self.private_channels.insert((channel_id, user_id)),
            ..self
        }
    }

    /// Add or replace a message row
    pub open spec fn with_message(self, message: CachedMessage) -> Self {
        CacheModel { messages: self.messages.insert(message.id, message), ..self }
    }

    /// Remove a message row
    pub open spec fn without_message(self, message_id: u64) -> Self {
        CacheModel { messages: self.messages.remove(message_id), ..self }
    }

    /// Add or replace an embed row
    pub open spec fn with_embed(self, embed: CachedEmbed) -> Self {
        CacheModel { embeds: self.embeds.insert(embed.id, embed), ..self }
    }

    /// Remove an embed row
    pub open spec fn without_embed(self, embed_id: u64) -> Self {
        CacheModel { embeds: self.embeds.remove(embed_id), ..self }
    }

    /// The fields grouped under an embed's ID; an absent group is empty
    pub open spec fn fields_of(self, embed_id: u64) -> Seq<CachedEmbedField> {
        if self.embed_fields.contains_key(embed_id) {
            self.embed_fields[embed_id]
        } else {
            Seq::empty()
        }
    }

    /// Add an embed field; fields are not unique, so this appends
    pub open spec fn with_embed_field(self, field: CachedEmbedField) -> Self {
        CacheModel {
            embed_fields: self.embed_fields.insert(
                field.embed_id,
                self.fields_of(field.embed_id).push(field),
            ),
            ..self
        }
    }

    /// Remove every field of the given embed
    pub open spec fn without_embed_fields(self, embed_id: u64) -> Self {
        CacheModel { embed_fields: self.embed_fields.remove(embed_id), ..self }
    }

    /// Remove every embed of the given message, along with their fields
    pub open spec fn without_message_embeds(self, message_id: u64) -> Self {
        let embed_ids = Set::new(
            |id: u64|
                self.embeds.contains_key(id) && self.embeds[id].message_id == message_id,
        );
        CacheModel {
            embeds: self.embeds.remove_keys(embed_ids),
            embed_fields: self.embed_fields.remove_keys(embed_ids),
            ..self
        }
    }

    /// Add or replace an attachment row
    pub open spec fn with_attachment(self, attachment: CachedAttachment) -> Self {
        CacheModel { attachments: self.attachments.insert(attachment.id, attachment), ..self }
    }

    /// Remove every attachment of the given message
    pub open spec fn without_message_attachments(self, message_id: u64) -> Self {
        CacheModel {
            attachments: self.attachments.remove_keys(
                Set::new(
                    |id: u64|
                        self.attachments.contains_key(id) && self.attachments[id].message_id
                            == message_id,
                ),
            ),
            ..self
        }
    }

    /// Add or replace a reaction, keyed by message, user and emoji
    pub open spec fn with_reaction(self, reaction: CachedReaction) -> Self {
        CacheModel {
            reactions: self.reactions.insert(
                (reaction.message_id, reaction.user_id, reaction.emoji.key()),
                reaction,
            ),
            ..self
        }
    }

    /// Remove one reaction by its full key
    pub open spec fn without_reaction(self, message_id: u64, user_id: u64, emoji: EmojiKey) -> Self {
        CacheModel { reactions: self.reactions.remove((message_id, user_id, emoji)), ..self }
    }

    /// Remove every reaction of the given message with the given emoji
    pub open spec fn without_message_reactions_by_emoji(
        self,
        message_id: u64,
        emoji: EmojiKey,
    ) -> Self {
        CacheModel {
            reactions: self.reactions.remove_keys(
                Set::new(|k: (u64, u64, EmojiKey)| k.0 == message_id && k.2 == emoji),
            ),
            ..self
        }
    }

    /// Remove every reaction of the given message
    pub open spec fn without_message_reactions(self, message_id: u64) -> Self {
        CacheModel {
            reactions: self.reactions.remove_keys(
                Set::new(|k: (u64, u64, EmojiKey)| k.0 == message_id),
            ),
            ..self
        }
    }

    /// Add or replace a member row, keyed by guild and user
    pub open spec fn with_member(self, member: CachedMember) -> Self {
        CacheModel { members: self.members.insert((member.guild_id, member.id), member), ..self }
    }

    /// Remove a member row
    pub open spec fn without_member(self, guild_id: u64, user_id: u64) -> Self {
        CacheModel { members: self.members.remove((guild_id, user_id)), ..self }
    }

    /// Remove every member row of the given guild
    pub open spec fn without_guild_members(self, guild_id: u64) -> Self {
        CacheModel {
            members: self.members.remove_keys(Set::new(|k: (u64, u64)| k.0 == guild_id)),
            ..self
        }
    }

    /// Add or replace a presence row, keyed by guild and user
    pub open spec fn with_presence(self, presence: CachedPresence) -> Self {
        CacheModel {
            presences: self.presences.insert((presence.guild_id, presence.user), presence),
            ..self
        }
    }

    /// Remove a presence row
    pub open spec fn without_presence(self, guild_id: u64, user_id: u64) -> Self {
        CacheModel { presences: self.presences.remove((guild_id, user_id)), ..self }
    }

    /// Remove every presence row of the given guild
    pub open spec fn without_guild_presences(self, guild_id: u64) -> Self {
        CacheModel {
            presences: self.presences.remove_keys(Set::new(|k: (u64, u64)| k.0 == guild_id)),
            ..self
        }
    }

    /// The activities grouped under (guild ID, user ID); an absent group is
    /// empty
    pub open spec fn activities_of(self, guild_id: u64, user_id: u64) -> Seq<CachedActivity> {
        if self.activities.contains_key((guild_id, user_id)) {
            self.activities[(guild_id, user_id)]
        } else {
            Seq::empty()
        }
    }

    /// Add an activity; activities are not unique, so this appends
    pub open spec fn with_activity(self, activity: CachedActivity) -> Self {
        CacheModel {
            activities: self.activities.insert(
                (activity.guild_id, activity.user_id),
                self.activities_of(activity.guild_id, activity.user_id).push(activity),
            ),
            ..self
        }
    }

    /// Remove every activity of the given member
    pub open spec fn without_user_activities(self, guild_id: u64, user_id: u64) -> Self {
        CacheModel { activities: self.activities.remove((guild_id, user_id)), ..self }
    }

    /// Add or replace a guild row
    pub open spec fn with_guild(self, guild: CachedGuild) -> Self {
        CacheModel { guilds: self.guilds.insert(guild.id, guild), ..self }
    }

    /// Remove a guild row
    pub open spec fn without_guild(self, guild_id: u64) -> Self {
        CacheModel { guilds: self.guilds.remove(guild_id), ..self }
    }

    /// Add or replace a role row, keyed by role ID and optional user ID
    pub open spec fn with_role(self, role: CachedRole) -> Self {
        CacheModel { roles: self.roles.insert((role.id, role.user_id), role), ..self }
    }

    /// Remove every role row with the given role ID, the guild-level
    /// definition and all member assignments alike
    pub open spec fn without_role(self, role_id: u64) -> Self {
        CacheModel {
            roles: self.roles.remove_keys(Set::new(|k: (u64, Option<u64>)| k.0 == role_id)),
            ..self
        }
    }

    /// Remove every role row of the given guild
    pub open spec fn without_guild_roles(self, guild_id: u64) -> Self {
        CacheModel {
            roles: self.roles.remove_keys(
                Set::new(
                    |k: (u64, Option<u64>)|
                        self.roles.contains_key(k) && self.roles[k].guild_id == guild_id,
                ),
            ),
            ..self
        }
    }

    /// Remove every role-assignment row of the given member
    pub open spec fn without_member_roles(self, guild_id: u64, user_id: u64) -> Self {
        CacheModel {
            roles: self.roles.remove_keys(
                Set::new(
                    |k: (u64, Option<u64>)|
                        k.1 == Some(user_id) && self.roles.contains_key(k)
                            && self.roles[k].guild_id == guild_id,
                ),
            ),
            ..self
        }
    }

    /// Add or replace an emoji row
    pub open spec fn with_emoji(self, emoji: CachedEmoji) -> Self {
        CacheModel { emojis: self.emojis.insert(emoji.id, emoji), ..self }
    }

    /// Remove an emoji row
    pub open spec fn without_emoji(self, emoji_id: u64) -> Self {
        CacheModel { emojis: self.emojis.remove(emoji_id), ..self }
    }

    /// Remove every emoji row of the given guild
    pub open spec fn without_guild_emojis(self, guild_id: u64) -> Self {
        CacheModel {
            emojis: self.emojis.remove_keys(
                Set::new(
                    |id: u64|
                        self.emojis.contains_key(id) && self.emojis[id].guild_id == guild_id,
                ),
            ),
            ..self
        }
    }

    /// Add or replace a sticker row
    pub open spec fn with_sticker(self, sticker: CachedSticker) -> Self {
        CacheModel { stickers: self.stickers.insert(sticker.id, sticker), ..self }
    }

    /// Remove every sticker of the given message
    pub open spec fn without_message_stickers(self, message_id: u64) -> Self {
        CacheModel {
            stickers: self.stickers.remove_keys(
                Set::new(
                    |id: u64|
                        self.stickers.contains_key(id) && self.stickers[id].message_id == Some(
                            message_id,
                        ),
                ),
            ),
            ..self
        }
    }

    /// Remove every guild-level sticker of the given guild, keeping the ones
    /// attached to a message
    pub open spec fn without_guild_stickers(self, guild_id: u64) -> Self {
        CacheModel {
            stickers: self.stickers.remove_keys(
                Set::new(
                    |id: u64|
                        self.stickers.contains_key(id) && self.stickers[id].guild_id == Some(
                            guild_id,
                        ) && self.stickers[id].message_id is None,
                ),
            ),
            ..self
        }
    }

    /// Add or replace a stage instance row
    pub open spec fn with_stage(self, stage: CachedStageInstance) -> Self {
        CacheModel { stages: self.stages.insert(stage.id, stage), ..self }
    }

    /// Remove a stage instance row
    pub open spec fn without_stage(self, stage_id: u64) -> Self {
        CacheModel { stages: self.stages.remove(stage_id), ..self }
    }

    /// Remove every stage instance row of the given guild
    pub open spec fn without_guild_stages(self, guild_id: u64) -> Self {
        CacheModel {
            stages: self.stages.remove_keys(
                Set::new(
                    |id: u64|
                        self.stages.contains_key(id) && self.stages[id].guild_id == guild_id,
                ),
            ),
            ..self
        }
    }

    /// Step the synthetic ID counter
    pub open spec fn with_next_id(self, next_id: u64) -> Self {
        CacheModel { next_id, ..self }
    }
}

} // verus!
