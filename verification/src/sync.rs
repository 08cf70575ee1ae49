use vstd::prelude::*;

use crate::cache::Error;
use crate::events::Event;
use crate::model::{
    CachedEmbedField, CachedMessage, CachedPermissionOverwrite, CachedRole, CachedSticker,
    CachedEmbed, CachedEmoji, CachedMember, CachedActivity, Channel, ChannelKind, Embed,
    EmbedField, Emoji, Member, MemberUpdate, Message, MessageSticker, PermissionOverwrite,
    Presence, Role, Sticker, Attachment, CachedAttachment, CachedGuild, CachedReaction,
};
use crate::state::CacheModel;

verus! {

/// The first recipient in the list who is not the current user: the party a
/// DM channel is keyed under
pub open spec fn spec_find_recipient(recipients: Seq<u64>, current_user_id: u64) -> Option<u64>
    decreases recipients.len(),
{
    if recipients.len() == 0 {
        None
    } else if recipients[0] != current_user_id {
        Some(recipients[0])
    } else {
        spec_find_recipient(recipients.skip(1), current_user_id)
    }
}

/// Upsert each overwrite of a channel, in payload order
pub open spec fn apply_overwrites(
    m: CacheModel,
    overwrites: Seq<PermissionOverwrite>,
    channel_id: u64,
) -> CacheModel
    decreases overwrites.len(),
{
    if overwrites.len() == 0 {
        m
    } else {
        apply_overwrites(
            m.with_overwrite(
                CachedPermissionOverwrite::spec_from_permission_overwrite(
                    overwrites[0],
                    channel_id,
                ),
            ),
            overwrites.skip(1),
            channel_id,
        )
    }
}

/// What a channel event does: upsert the overwrites, resolve and record the
/// recipient of a DM channel, then upsert the channel row
///
/// A DM channel whose payload does not determine a recipient other than the
/// current user is an error, as is one arriving before the current user is
/// known
pub open spec fn apply_channel<E>(m: CacheModel, channel: Channel) -> Result<CacheModel, Error<E>> {
    let m1 = match channel.permission_overwrites {
        Some(overwrites) => apply_overwrites(m, overwrites@, channel.channel.id),
        None => m,
    };
    if channel.channel.kind == ChannelKind::Private {
        match m1.current_user {
            None => Err(Error::PrivateChannelMissingRecipient(channel.channel.id)),
            Some(user) => {
                let recipients = match channel.recipients {
                    Some(recipients) => recipients@,
                    None => Seq::empty(),
                };
                match spec_find_recipient(recipients, user.id) {
                    None => Err(Error::PrivateChannelMissingRecipient(channel.channel.id)),
                    Some(recipient) => Ok(
                        m1.with_private_channel(channel.channel.id, recipient).with_channel(
                            channel.channel,
                        ),
                    ),
                }
            },
        }
    } else {
        Ok(m1.with_channel(channel.channel))
    }
}

/// Apply each channel event in order, stopping at the first failure
pub open spec fn apply_channels<E>(m: CacheModel, channels: Seq<Channel>) -> Result<
    CacheModel,
    Error<E>,
>
    decreases channels.len(),
{
    if channels.len() == 0 {
        Ok(m)
    } else {
        match apply_channel::<E>(m, channels[0]) {
            Ok(m1) => apply_channels(m1, channels.skip(1)),
            Err(e) => Err(e),
        }
    }
}

/// Record that a member holds each of the given roles, in order: each role's
/// cached definition is copied into an assignment row keyed by the member
///
/// A role ID whose definition is not cached is an error
pub open spec fn apply_member_roles<E>(
    m: CacheModel,
    user_id: u64,
    role_ids: Seq<u64>,
) -> Result<CacheModel, Error<E>>
    decreases role_ids.len(),
{
    if role_ids.len() == 0 {
        Ok(m)
    } else {
        let role_id = role_ids[0];
        if m.roles.contains_key((role_id, None)) {
            let assignment = CachedRole {
                user_id: Some(user_id),
                ..m.roles[(role_id, None)]
            };
            apply_member_roles(m.with_role(assignment), user_id, role_ids.skip(1))
        } else {
            Err(Error::MemberRoleMissing { user_id, role_id })
        }
    }
}

/// What a member event does: record the role assignments, then upsert the
/// member row
pub open spec fn apply_member<E>(m: CacheModel, member: Member) -> Result<CacheModel, Error<E>> {
    match apply_member_roles::<E>(m, member.member.id, member.roles@) {
        Ok(m1) => Ok(m1.with_member(member.member)),
        Err(e) => Err(e),
    }
}

/// Apply each member event in order, stopping at the first failure
pub open spec fn apply_members<E>(m: CacheModel, members: Seq<Member>) -> Result<
    CacheModel,
    Error<E>,
>
    decreases members.len(),
{
    if members.len() == 0 {
        Ok(m)
    } else {
        match apply_member::<E>(m, members[0]) {
            Ok(m1) => apply_members(m1, members.skip(1)),
            Err(e) => Err(e),
        }
    }
}

/// Upsert each emoji of a guild, in order
pub open spec fn apply_emojis(m: CacheModel, emojis: Seq<Emoji>, guild_id: u64) -> CacheModel
    decreases emojis.len(),
{
    if emojis.len() == 0 {
        m
    } else {
        apply_emojis(
            m.with_emoji(CachedEmoji::spec_from_emoji(emojis[0], guild_id)),
            emojis.skip(1),
            guild_id,
        )
    }
}

/// Upsert each sticker, in order
pub open spec fn apply_stickers(m: CacheModel, stickers: Seq<Sticker>) -> CacheModel
    decreases stickers.len(),
{
    if stickers.len() == 0 {
        m
    } else {
        apply_stickers(m.with_sticker(CachedSticker::spec_from_sticker(stickers[0])), stickers.skip(1))
    }
}

/// Upsert each presence row, in order; a guild snapshot carries no activity
/// changes
pub open spec fn apply_presence_rows(m: CacheModel, presences: Seq<Presence>) -> CacheModel
    decreases presences.len(),
{
    if presences.len() == 0 {
        m
    } else {
        apply_presence_rows(m.with_presence(presences[0].presence), presences.skip(1))
    }
}

/// Upsert each role definition of a guild, in order
pub open spec fn apply_roles(m: CacheModel, roles: Seq<Role>, guild_id: u64) -> CacheModel
    decreases roles.len(),
{
    if roles.len() == 0 {
        m
    } else {
        apply_roles(
            m.with_role(CachedRole::spec_from_role(roles[0], guild_id)),
            roles.skip(1),
            guild_id,
        )
    }
}

/// Upsert each stage instance, in order
pub open spec fn apply_stages(
    m: CacheModel,
    stages: Seq<crate::model::CachedStageInstance>,
) -> CacheModel
    decreases stages.len(),
{
    if stages.len() == 0 {
        m
    } else {
        apply_stages(m.with_stage(stages[0]), stages.skip(1))
    }
}

/// What a guild snapshot does: populate every owned collection, then upsert
/// the guild row itself, so that the guild only becomes visible complete
///
/// Role definitions go in before members, so that the role assignments of a
/// self-contained snapshot find their definitions
pub open spec fn apply_guild_create<E>(
    m: CacheModel,
    guild: crate::model::Guild,
) -> Result<CacheModel, Error<E>> {
    match apply_channels::<E>(m, guild.channels@) {
        Err(e) => Err(e),
        Ok(m1) => match apply_channels::<E>(m1, guild.threads@) {
            Err(e) => Err(e),
            Ok(m2) => {
                let m3 = apply_emojis(m2, guild.emojis@, guild.guild.id);
                let m4 = apply_stickers(m3, guild.stickers@);
                let m5 = apply_roles(m4, guild.roles@, guild.guild.id);
                match apply_members::<E>(m5, guild.members@) {
                    Err(e) => Err(e),
                    Ok(m6) => {
                        let m7 = apply_presence_rows(m6, guild.presences@);
                        let m8 = apply_stages(m7, guild.stage_instances@);
                        Ok(m8.with_guild(guild.guild))
                    },
                }
            },
        },
    }
}

/// What a real guild deletion does: every owned collection goes before the
/// guild row itself
pub open spec fn apply_guild_delete(m: CacheModel, guild_id: u64) -> CacheModel {
    m.without_guild_channel_overwrites(guild_id)
        .without_guild_channels(guild_id)
        .without_guild_emojis(guild_id)
        .without_guild_stickers(guild_id)
        .without_guild_members(guild_id)
        .without_guild_presences(guild_id)
        .without_guild_roles(guild_id)
        .without_guild_stages(guild_id)
        .without_guild(guild_id)
}

/// Upsert each attachment of a message, in order
pub open spec fn apply_attachments(
    m: CacheModel,
    attachments: Seq<Attachment>,
    message_id: u64,
) -> CacheModel
    decreases attachments.len(),
{
    if attachments.len() == 0 {
        m
    } else {
        apply_attachments(
            m.with_attachment(CachedAttachment::spec_from_attachment(attachments[0], message_id)),
            attachments.skip(1),
            message_id,
        )
    }
}

/// Upsert each sticker of a message, in order: a sticker already cached keeps
/// its fields and only gains the message ID, an unknown one is cached from
/// the little a message payload carries
pub open spec fn apply_message_stickers(
    m: CacheModel,
    sticker_items: Seq<MessageSticker>,
    message_id: u64,
) -> CacheModel
    decreases sticker_items.len(),
{
    if sticker_items.len() == 0 {
        m
    } else {
        let item = sticker_items[0];
        let sticker = if m.stickers.contains_key(item.id) {
            CachedSticker { message_id: Some(message_id), ..m.stickers[item.id] }
        } else {
            CachedSticker::spec_from_message_sticker(item, message_id)
        };
        apply_message_stickers(m.with_sticker(sticker), sticker_items.skip(1), message_id)
    }
}

/// Add each field of an embed, in order
pub open spec fn apply_embed_fields(
    m: CacheModel,
    fields: Seq<EmbedField>,
    embed_id: u64,
) -> CacheModel
    decreases fields.len(),
{
    if fields.len() == 0 {
        m
    } else {
        apply_embed_fields(
            m.with_embed_field(CachedEmbedField::spec_from_embed_field(fields[0], embed_id)),
            fields.skip(1),
            embed_id,
        )
    }
}

/// Add each embed of a message, in order: each is minted the next synthetic
/// ID, its fields go in before it
pub open spec fn apply_embeds(m: CacheModel, embeds: Seq<Embed>, message_id: u64) -> CacheModel
    decreases embeds.len(),
{
    if embeds.len() == 0 {
        m
    } else {
        let id = m.next_id;
        let m1 = m.with_next_id((m.next_id + 1) as u64);
        let m2 = apply_embed_fields(m1, embeds[0].fields@, id);
        let m3 = m2.with_embed(CachedEmbed::spec_from_embed(embeds[0].embed, message_id, id));
        apply_embeds(m3, embeds.skip(1), message_id)
    }
}

/// What a message-create event does: attachments, stickers and embeds go in
/// before the message row
pub open spec fn apply_message_create(m: CacheModel, message: Message) -> CacheModel {
    let message_id = message.message.id;
    let m1 = apply_attachments(m, message.attachments@, message_id);
    let m2 = apply_message_stickers(m1, message.sticker_items@, message_id);
    let m3 = apply_embeds(m2, message.embeds@, message_id);
    m3.with_message(message.message)
}

/// What a message-update event does when the message is cached: owned
/// collections present in the payload are fully replaced, the carried fields
/// are merged, and the merged row is upserted; an uncached message is
/// skipped silently
pub open spec fn apply_message_update(m: CacheModel, update: crate::model::MessageUpdate) -> CacheModel {
    if m.messages.contains_key(update.id) {
        let merged = CachedMessage::spec_update(m.messages[update.id], update);
        let m1 = match update.attachments {
            Some(attachments) => apply_attachments(
                m.without_message_attachments(update.id),
                attachments@,
                update.id,
            ),
            None => m,
        };
        let m2 = match update.embeds {
            Some(embeds) => apply_embeds(m1.without_message_embeds(update.id), embeds@, update.id),
            None => m1,
        };
        m2.with_message(merged)
    } else {
        m
    }
}

/// What a message deletion does: embeds with their fields, attachments,
/// reactions and stickers all go, then the message row
pub open spec fn apply_message_delete(m: CacheModel, message_id: u64) -> CacheModel {
    m.without_message_embeds(message_id)
        .without_message_attachments(message_id)
        .without_message_reactions(message_id)
        .without_message_stickers(message_id)
        .without_message(message_id)
}

/// Delete each message in order, independently
pub open spec fn apply_message_delete_bulk(m: CacheModel, ids: Seq<u64>) -> CacheModel
    decreases ids.len(),
{
    if ids.len() == 0 {
        m
    } else {
        apply_message_delete_bulk(apply_message_delete(m, ids[0]), ids.skip(1))
    }
}

/// Add each activity of a member, in order
pub open spec fn apply_activities(
    m: CacheModel,
    activities: Seq<crate::model::Activity>,
    user_id: u64,
    guild_id: u64,
) -> CacheModel
    decreases activities.len(),
{
    if activities.len() == 0 {
        m
    } else {
        apply_activities(
            m.with_activity(CachedActivity::spec_from_activity(activities[0], user_id, guild_id)),
            activities.skip(1),
            user_id,
            guild_id,
        )
    }
}

/// What a presence-update event does: the member's activities are fully
/// replaced, then the presence row is upserted
pub open spec fn apply_presence_update(m: CacheModel, presence: Presence) -> CacheModel {
    let row = presence.presence;
    let m1 = m.without_user_activities(row.guild_id, row.user);
    let m2 = apply_activities(m1, presence.activities@, row.user, row.guild_id);
    m2.with_presence(row)
}

/// What a member-update event does when the member is cached: the carried
/// fields are merged and upserted, then the role assignments are fully
/// replaced; an uncached member is skipped silently
pub open spec fn apply_member_update<E>(m: CacheModel, update: MemberUpdate) -> Result<
    CacheModel,
    Error<E>,
> {
    if m.members.contains_key((update.guild_id, update.user_id)) {
        let merged = CachedMember::spec_update(m.members[(update.guild_id, update.user_id)], update);
        let m1 = m.with_member(merged);
        let m2 = m1.without_member_roles(update.guild_id, update.user_id);
        apply_member_roles::<E>(m2, update.user_id, update.roles@)
    } else {
        Ok(m)
    }
}

/// Upserting attachments leaves the synthetic ID counter alone
pub proof fn lemma_apply_attachments_next_id(
    m: CacheModel,
    attachments: Seq<Attachment>,
    message_id: u64,
)
    ensures
        apply_attachments(m, attachments, message_id).next_id == m.next_id,
    decreases attachments.len(),
{
    if attachments.len() > 0 {
        lemma_apply_attachments_next_id(
            m.with_attachment(
                CachedAttachment::spec_from_attachment(attachments[0], message_id),
            ),
            attachments.skip(1),
            message_id,
        );
    }
}

/// Upserting message stickers leaves the synthetic ID counter alone
pub proof fn lemma_apply_message_stickers_next_id(
    m: CacheModel,
    sticker_items: Seq<MessageSticker>,
    message_id: u64,
)
    ensures
        apply_message_stickers(m, sticker_items, message_id).next_id == m.next_id,
    decreases sticker_items.len(),
{
    if sticker_items.len() > 0 {
        let item = sticker_items[0];
        let sticker = if m.stickers.contains_key(item.id) {
            CachedSticker { message_id: Some(message_id), ..m.stickers[item.id] }
        } else {
            CachedSticker::spec_from_message_sticker(item, message_id)
        };
        lemma_apply_message_stickers_next_id(
            m.with_sticker(sticker),
            sticker_items.skip(1),
            message_id,
        );
    }
}

/// How many synthetic IDs handling the event mints: one per embed it adds
pub open spec fn minted_ids(event: Event) -> int {
    match event {
        Event::MessageCreate(message) => message.embeds@.len() as int,
        Event::MessageUpdate(update) => match update.embeds {
            Some(embeds) => embeds@.len() as int,
            None => 0,
        },
        _ => 0,
    }
}

/// The event synchronizer, as a mathematical function: what one delta event
/// does to the cache, or the error that rejects it
///
/// [`crate::Cache::update`] promises exactly this outcome whenever the
/// backend itself does not fail
pub open spec fn spec_apply<E>(m: CacheModel, event: Event) -> Result<CacheModel, Error<E>> {
    match event {
        Event::ChannelCreate(channel) => apply_channel::<E>(m, channel),
        Event::ChannelUpdate(channel) => apply_channel::<E>(m, channel),
        Event::ChannelDelete(channel) => Ok(
            m.without_channel_overwrites(channel.channel.id).without_channel(channel.channel.id),
        ),
        Event::ThreadCreate(thread) => apply_channel::<E>(m, thread),
        Event::ThreadUpdate(thread) => apply_channel::<E>(m, thread),
        Event::ThreadDelete(thread) => Ok(
            m.without_channel_overwrites(thread.id).without_channel(thread.id),
        ),
        Event::GuildCreate(guild) => apply_guild_create::<E>(m, guild),
        Event::GuildUpdate(guild) => Ok(
            if m.guilds.contains_key(guild.id) {
                m.with_guild(CachedGuild::spec_update(m.guilds[guild.id], guild))
            } else {
                m
            },
        ),
        Event::GuildDelete(deletion) => Ok(
            if deletion.unavailable {
                m
            } else {
                apply_guild_delete(m, deletion.id)
            },
        ),
        Event::GuildEmojisUpdate { guild_id, emojis } => Ok(
            apply_emojis(m.without_guild_emojis(guild_id), emojis@, guild_id),
        ),
        Event::GuildStickersUpdate { guild_id, stickers } => Ok(
            apply_stickers(m.without_guild_stickers(guild_id), stickers@),
        ),
        Event::MemberAdd(member) => apply_member::<E>(m, member),
        Event::MemberChunk { members } => apply_members::<E>(m, members@),
        Event::MemberUpdate(update) => apply_member_update::<E>(m, update),
        Event::MemberRemove { guild_id, user_id } => Ok(
            m.without_member(guild_id, user_id).without_member_roles(guild_id, user_id),
        ),
        Event::MessageCreate(message) => Ok(apply_message_create(m, message)),
        Event::MessageUpdate(update) => Ok(apply_message_update(m, update)),
        Event::MessageDelete { id } => Ok(apply_message_delete(m, id)),
        Event::MessageDeleteBulk { ids } => Ok(apply_message_delete_bulk(m, ids@)),
        Event::PresenceUpdate(presence) => Ok(apply_presence_update(m, presence)),
        Event::ReactionAdd(reaction) => Ok(
            m.with_reaction(CachedReaction::spec_from_reaction(reaction)),
        ),
        Event::ReactionRemove(reaction) => Ok(
            m.without_reaction(reaction.message_id, reaction.user_id, reaction.emoji.key()),
        ),
        Event::ReactionRemoveEmoji { message_id, emoji } => Ok(
            m.without_message_reactions_by_emoji(message_id, emoji.key()),
        ),
        Event::ReactionRemoveAll { message_id } => Ok(m.without_message_reactions(message_id)),
        Event::Ready { user } => Ok(m.with_current_user(user)),
        Event::UserUpdate(user) => Ok(m.with_current_user(user)),
        Event::RoleCreate { guild_id, role } => Ok(
            m.with_role(CachedRole::spec_from_role(role, guild_id)),
        ),
        Event::RoleUpdate { guild_id, role } => Ok(
            m.with_role(CachedRole::spec_from_role(role, guild_id)),
        ),
        Event::RoleDelete { guild_id: _, role_id } => Ok(m.without_role(role_id)),
        Event::StageInstanceCreate(stage) => Ok(m.with_stage(stage)),
        Event::StageInstanceUpdate(stage) => Ok(m.with_stage(stage)),
        Event::StageInstanceDelete { id } => Ok(m.without_stage(id)),
        Event::Other => Ok(m),
    }
}

} // verus!
