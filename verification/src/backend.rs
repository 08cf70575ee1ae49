use vstd::prelude::*;

use crate::model::{
    CachedActivity, CachedAttachment, CachedChannel, CachedCurrentUser, CachedEmbed,
    CachedEmbedField, CachedEmoji, CachedGuild, CachedMember, CachedMessage,
    CachedPermissionOverwrite, CachedPresence, CachedReaction, CachedRole, CachedStageInstance,
    CachedSticker, ReactionEmoji,
};
use crate::state::CacheModel;

verus! {

/// Provides methods to add, replace or delete data in the cache
///
/// This is for adding support for a backend; users of the cache itself only
/// need the methods in [`crate::Cache`]
///
/// Every implementation must meet the contracts below, which are stated over
/// the implementation's abstract state [`Self::model`]: an upsert never
/// errors on a key collision but replaces the row, a delete of an absent row
/// is a no-op rather than an error, and an operation that does fail must
/// leave the state as it was.  The synchronizer's own guarantees hold only
/// over backends that keep these promises.
pub trait Backend {
    /// The error type the backend returns
    type Error;

    /// The abstract state of this backend: what each cached collection holds
    spec fn model(&self) -> CacheModel;

    /// Mint a fresh synthetic ID, stepping the backend's counter
    ///
    /// Each mint is distinct from every earlier one for the lifetime of the
    /// counter; the IDs are not content-addressed, so handling the same
    /// event twice mints fresh ones, and the rows they key are replaced
    /// wholesale rather than re-keyed
    fn fresh_id(&mut self) -> (id: u64)
        requires
            old(self).model().next_id < u64::MAX,
        ensures
            id == old(self).model().next_id,
            final(self).model() == old(self).model().with_next_id(
                (old(self).model().next_id + 1) as u64,
            ),
    ;

    /// Set or replace the current user information of the bot
    fn set_current_user(&mut self, current_user: CachedCurrentUser) -> (r: Result<
        (),
        Self::Error,
    >)
        ensures
            match r {
                Ok(()) => final(self).model() == old(self).model().with_current_user(current_user),
                Err(_) => final(self).model() == old(self).model(),
            },
    ;

    /// Add or replace a channel in the cache
    fn upsert_channel(&mut self, channel: CachedChannel) -> (r: Result<(), Self::Error>)
        ensures
            match r {
                Ok(()) => final(self).model() == old(self).model().with_channel(channel),
                Err(_) => final(self).model() == old(self).model(),
            },
    ;

    /// Remove a channel from the cache
    fn delete_channel(&mut self, channel_id: u64) -> (r: Result<(), Self::Error>)
        ensures
            match r {
                Ok(()) => final(self).model() == old(self).model().without_channel(channel_id),
                Err(_) => final(self).model() == old(self).model(),
            },
    ;

    /// Remove a guild's channels from the cache
    fn delete_guild_channels(&mut self, guild_id: u64) -> (r: Result<(), Self::Error>)
        ensures
            match r {
                Ok(()) => final(self).model() == old(self).model().without_guild_channels(
                    guild_id,
                ),
                Err(_) => final(self).model() == old(self).model(),
            },
    ;

    /// Add or replace a permission overwrite in the cache
    ///
    /// Overwrites are unique per channel and overwrite ID together, not on
    /// either alone
    fn upsert_permission_overwrite(
        &mut self,
        permission_overwrite: CachedPermissionOverwrite,
    ) -> (r: Result<(), Self::Error>)
        ensures
            match r {
                Ok(()) => final(self).model() == old(self).model().with_overwrite(
                    permission_overwrite,
                ),
                Err(_) => final(self).model() == old(self).model(),
            },
    ;

    /// Remove a channel's permission overwrites from the cache
    fn delete_channel_permission_overwrites(&mut self, channel_id: u64) -> (r: Result<
        (),
        Self::Error,
    >)
        ensures
            match r {
                Ok(()) => final(self).model() == old(self).model().without_channel_overwrites(
                    channel_id,
                ),
                Err(_) => final(self).model() == old(self).model(),
            },
    ;

    /// Add a DM channel to the cache
    ///
    /// Both of the IDs in this type are unique together
    fn upsert_private_channel(&mut self, channel_id: u64, user_id: u64) -> (r: Result<
        (),
        Self::Error,
    >)
        ensures
            match r {
                Ok(()) => final(self).model() == old(self).model().with_private_channel(
                    channel_id,
                    user_id,
                ),
                Err(_) => final(self).model() == old(self).model(),
            },
    ;

    /// Add or replace a message in the cache
    fn upsert_message(&mut self, message: CachedMessage) -> (r: Result<(), Self::Error>)
        ensures
            match r {
                Ok(()) => final(self).model() == old(self).model().with_message(message),
                Err(_) => final(self).model() == old(self).model(),
            },
    ;

    /// Remove a message from the cache
    fn delete_message(&mut self, message_id: u64) -> (r: Result<(), Self::Error>)
        ensures
            match r {
                Ok(()) => final(self).model() == old(self).model().without_message(message_id),
                Err(_) => final(self).model() == old(self).model(),
            },
    ;

    /// Add or replace an embed in the cache
    fn upsert_embed(&mut self, embed: CachedEmbed) -> (r: Result<(), Self::Error>)
        ensures
            match r {
                Ok(()) => final(self).model() == old(self).model().with_embed(embed),
                Err(_) => final(self).model() == old(self).model(),
            },
    ;

    /// Remove an embed from the cache
    fn delete_embed(&mut self, embed_id: u64) -> (r: Result<(), Self::Error>)
        ensures
            match r {
                Ok(()) => final(self).model() == old(self).model().without_embed(embed_id),
                Err(_) => final(self).model() == old(self).model(),
            },
    ;

    /// Add an embed field to the cache
    ///
    /// None of the fields in this type is unique
    fn upsert_embed_field(&mut self, embed_field: CachedEmbedField) -> (r: Result<
        (),
        Self::Error,
    >)
        ensures
            match r {
                Ok(()) => final(self).model() == old(self).model().with_embed_field(embed_field),
                Err(_) => final(self).model() == old(self).model(),
            },
    ;

    /// Remove an embed's fields from the cache
    fn delete_embed_fields(&mut self, embed_id: u64) -> (r: Result<(), Self::Error>)
        ensures
            match r {
                Ok(()) => final(self).model() == old(self).model().without_embed_fields(embed_id),
                Err(_) => final(self).model() == old(self).model(),
            },
    ;

    /// Get embeds of a message by its ID
    ///
    /// This method is used internally in [`crate::Cache::embeds`]
    fn select_message_embeds(&self, message_id: u64) -> (r: Result<Vec<CachedEmbed>, Self::Error>)
        ensures
            match r {
                Ok(embeds) => {
                    &&& forall|i: int|
                        0 <= i < embeds@.len() ==> {
                            let embed = #[trigger] embeds@[i];
                            &&& embed.message_id == message_id
                            &&& self.model().embeds.contains_key(embed.id)
                            &&& self.model().embeds[embed.id] == embed
                        }
                    &&& forall|id: u64|
                        self.model().embeds.contains_key(id)
                            && (#[trigger] self.model().embeds[id]).message_id == message_id
                            ==> exists|i: int| 0 <= i < embeds@.len() && embeds@[i].id == id
                    &&& forall|i: int, j: int|
                        0 <= i < embeds@.len() && 0 <= j < embeds@.len() && i != j
                            ==> #[trigger] embeds@[i].id != #[trigger] embeds@[j].id
                },
                Err(_) => true,
            },
    ;

    /// Get fields of an embed by its ID
    ///
    /// This method is used internally in [`crate::Cache::embeds`]
    fn select_embed_fields(&self, embed_id: u64) -> (r: Result<Vec<CachedEmbedField>, Self::Error>)
        ensures
            match r {
                Ok(fields) => fields@ == self.model().fields_of(embed_id),
                Err(_) => true,
            },
    ;

    /// Add or replace an attachment in the cache
    fn upsert_attachment(&mut self, attachment: CachedAttachment) -> (r: Result<
        (),
        Self::Error,
    >)
        ensures
            match r {
                Ok(()) => final(self).model() == old(self).model().with_attachment(attachment),
                Err(_) => final(self).model() == old(self).model(),
            },
    ;

    /// Remove a message's attachments from the cache
    fn delete_message_attachments(&mut self, message_id: u64) -> (r: Result<(), Self::Error>)
        ensures
            match r {
                Ok(()) => final(self).model() == old(self).model().without_message_attachments(
                    message_id,
                ),
                Err(_) => final(self).model() == old(self).model(),
            },
    ;

    /// Add or replace a reaction in the cache
    ///
    /// Only the combination of message ID, user ID and emoji is unique;
    /// they're not unique on their own
    fn upsert_reaction(&mut self, reaction: CachedReaction) -> (r: Result<(), Self::Error>)
        ensures
            match r {
                Ok(()) => final(self).model() == old(self).model().with_reaction(reaction),
                Err(_) => final(self).model() == old(self).model(),
            },
    ;

    /// Remove a reaction from the cache
    fn delete_reaction(&mut self, message_id: u64, user_id: u64, emoji: ReactionEmoji) -> (r:
        Result<(), Self::Error>)
        ensures
            match r {
                Ok(()) => final(self).model() == old(self).model().without_reaction(
                    message_id,
                    user_id,
                    emoji.key(),
                ),
                Err(_) => final(self).model() == old(self).model(),
            },
    ;

    /// Remove a message's reactions of the given emoji from the cache
    fn delete_message_reactions_by_emoji(&mut self, message_id: u64, emoji: ReactionEmoji) -> (r:
        Result<(), Self::Error>)
        ensures
            match r {
                Ok(()) => final(self).model() == old(
                    self,
                ).model().without_message_reactions_by_emoji(message_id, emoji.key()),
                Err(_) => final(self).model() == old(self).model(),
            },
    ;

    /// Remove a message's reactions from the cache
    fn delete_message_reactions(&mut self, message_id: u64) -> (r: Result<(), Self::Error>)
        ensures
            match r {
                Ok(()) => final(self).model() == old(self).model().without_message_reactions(
                    message_id,
                ),
                Err(_) => final(self).model() == old(self).model(),
            },
    ;

    /// Add or replace a member in the cache
    ///
    /// Only the combination of guild ID and user ID is unique; they're not
    /// unique on their own
    fn upsert_member(&mut self, member: CachedMember) -> (r: Result<(), Self::Error>)
        ensures
            match r {
                Ok(()) => final(self).model() == old(self).model().with_member(member),
                Err(_) => final(self).model() == old(self).model(),
            },
    ;

    /// Remove a member from the cache
    fn delete_member(&mut self, user_id: u64, guild_id: u64) -> (r: Result<(), Self::Error>)
        ensures
            match r {
                Ok(()) => final(self).model() == old(self).model().without_member(
                    guild_id,
                    user_id,
                ),
                Err(_) => final(self).model() == old(self).model(),
            },
    ;

    /// Remove a guild's members from the cache
    fn delete_guild_members(&mut self, guild_id: u64) -> (r: Result<(), Self::Error>)
        ensures
            match r {
                Ok(()) => final(self).model() == old(self).model().without_guild_members(guild_id),
                Err(_) => final(self).model() == old(self).model(),
            },
    ;

    /// Add or replace a presence in the cache
    ///
    /// Only the combination of guild ID and user ID is unique; they're not
    /// unique on their own
    fn upsert_presence(&mut self, presence: CachedPresence) -> (r: Result<(), Self::Error>)
        ensures
            match r {
                Ok(()) => final(self).model() == old(self).model().with_presence(presence),
                Err(_) => final(self).model() == old(self).model(),
            },
    ;

    /// Remove a presence from the cache
    fn delete_presence(&mut self, guild_id: u64, user_id: u64) -> (r: Result<(), Self::Error>)
        ensures
            match r {
                Ok(()) => final(self).model() == old(self).model().without_presence(
                    guild_id,
                    user_id,
                ),
                Err(_) => final(self).model() == old(self).model(),
            },
    ;

    /// Remove a guild's presences from the cache
    fn delete_guild_presences(&mut self, guild_id: u64) -> (r: Result<(), Self::Error>)
        ensures
            match r {
                Ok(()) => final(self).model() == old(self).model().without_guild_presences(
                    guild_id,
                ),
                Err(_) => final(self).model() == old(self).model(),
            },
    ;

    /// Add an activity to the cache
    ///
    /// None of the fields in this type is unique
    fn upsert_activity(&mut self, activity: CachedActivity) -> (r: Result<(), Self::Error>)
        ensures
            match r {
                Ok(()) => final(self).model() == old(self).model().with_activity(activity),
                Err(_) => final(self).model() == old(self).model(),
            },
    ;

    /// Remove a user's activities from the cache
    fn delete_user_activities(&mut self, guild_id: u64, user_id: u64) -> (r: Result<
        (),
        Self::Error,
    >)
        ensures
            match r {
                Ok(()) => final(self).model() == old(self).model().without_user_activities(
                    guild_id,
                    user_id,
                ),
                Err(_) => final(self).model() == old(self).model(),
            },
    ;

    /// Add or replace a guild in the cache
    fn upsert_guild(&mut self, guild: CachedGuild) -> (r: Result<(), Self::Error>)
        ensures
            match r {
                Ok(()) => final(self).model() == old(self).model().with_guild(guild),
                Err(_) => final(self).model() == old(self).model(),
            },
    ;

    /// Remove a guild from the cache
    fn delete_guild(&mut self, guild_id: u64) -> (r: Result<(), Self::Error>)
        ensures
            match r {
                Ok(()) => final(self).model() == old(self).model().without_guild(guild_id),
                Err(_) => final(self).model() == old(self).model(),
            },
    ;

    /// Add or update a role in the cache
    ///
    /// Only the combination of role ID and user ID is unique; they're not
    /// unique on their own.  The caller is the one who must make sure not to
    /// mix definition rows and assignment rows up
    fn upsert_role(&mut self, role: CachedRole) -> (r: Result<(), Self::Error>)
        ensures
            match r {
                Ok(()) => final(self).model() == old(self).model().with_role(role),
                Err(_) => final(self).model() == old(self).model(),
            },
    ;

    /// Remove every role row with the given role ID from the cache
    fn delete_role(&mut self, role_id: u64) -> (r: Result<(), Self::Error>)
        ensures
            match r {
                Ok(()) => final(self).model() == old(self).model().without_role(role_id),
                Err(_) => final(self).model() == old(self).model(),
            },
    ;

    /// Remove a guild's roles from the cache
    fn delete_guild_roles(&mut self, guild_id: u64) -> (r: Result<(), Self::Error>)
        ensures
            match r {
                Ok(()) => final(self).model() == old(self).model().without_guild_roles(guild_id),
                Err(_) => final(self).model() == old(self).model(),
            },
    ;

    /// Remove a member's role-assignment rows from the cache
    fn delete_member_roles(&mut self, guild_id: u64, user_id: u64) -> (r: Result<
        (),
        Self::Error,
    >)
        ensures
            match r {
                Ok(()) => final(self).model() == old(self).model().without_member_roles(
                    guild_id,
                    user_id,
                ),
                Err(_) => final(self).model() == old(self).model(),
            },
    ;

    /// Add or replace an emoji in the cache
    fn upsert_emoji(&mut self, emoji: CachedEmoji) -> (r: Result<(), Self::Error>)
        ensures
            match r {
                Ok(()) => final(self).model() == old(self).model().with_emoji(emoji),
                Err(_) => final(self).model() == old(self).model(),
            },
    ;

    /// Remove an emoji from the cache
    fn delete_emoji(&mut self, emoji_id: u64) -> (r: Result<(), Self::Error>)
        ensures
            match r {
                Ok(()) => final(self).model() == old(self).model().without_emoji(emoji_id),
                Err(_) => final(self).model() == old(self).model(),
            },
    ;

    /// Remove a guild's emojis from the cache
    fn delete_guild_emojis(&mut self, guild_id: u64) -> (r: Result<(), Self::Error>)
        ensures
            match r {
                Ok(()) => final(self).model() == old(self).model().without_guild_emojis(guild_id),
                Err(_) => final(self).model() == old(self).model(),
            },
    ;

    /// Add or replace a sticker in the cache
    ///
    /// When updating stickers, make sure not to update the message ID field
    fn upsert_sticker(&mut self, sticker: CachedSticker) -> (r: Result<(), Self::Error>)
        ensures
            match r {
                Ok(()) => final(self).model() == old(self).model().with_sticker(sticker),
                Err(_) => final(self).model() == old(self).model(),
            },
    ;

    /// Remove a message's stickers from the cache
    fn delete_message_stickers(&mut self, message_id: u64) -> (r: Result<(), Self::Error>)
        ensures
            match r {
                Ok(()) => final(self).model() == old(self).model().without_message_stickers(
                    message_id,
                ),
                Err(_) => final(self).model() == old(self).model(),
            },
    ;

    /// Remove a guild's stickers from the cache, keeping the ones attached
    /// to a message
    fn delete_guild_stickers(&mut self, guild_id: u64) -> (r: Result<(), Self::Error>)
        ensures
            match r {
                Ok(()) => final(self).model() == old(self).model().without_guild_stickers(
                    guild_id,
                ),
                Err(_) => final(self).model() == old(self).model(),
            },
    ;

    /// Add or replace a stage instance in the cache
    fn upsert_stage_instance(&mut self, stage: CachedStageInstance) -> (r: Result<
        (),
        Self::Error,
    >)
        ensures
            match r {
                Ok(()) => final(self).model() == old(self).model().with_stage(stage),
                Err(_) => final(self).model() == old(self).model(),
            },
    ;

    /// Remove a stage instance from the cache
    fn delete_stage_instance(&mut self, stage_id: u64) -> (r: Result<(), Self::Error>)
        ensures
            match r {
                Ok(()) => final(self).model() == old(self).model().without_stage(stage_id),
                Err(_) => final(self).model() == old(self).model(),
            },
    ;

    /// Remove a guild's stage instances from the cache
    fn delete_guild_stage_instances(&mut self, guild_id: u64) -> (r: Result<(), Self::Error>)
        ensures
            match r {
                Ok(()) => final(self).model() == old(self).model().without_guild_stages(guild_id),
                Err(_) => final(self).model() == old(self).model(),
            },
    ;
}

} // verus!
