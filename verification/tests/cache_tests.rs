use std::collections::HashMap;
use std::collections::HashSet;
use std::time::SystemTime;
use std::time::UNIX_EPOCH;

use sparkle_cache::assert_vecs_eq;
use sparkle_cache::unique_id;
use sparkle_cache::Backend;
use sparkle_cache::Cache;
use sparkle_cache::Error;
use sparkle_cache::events::Event;
use sparkle_cache::events::GuildDelete;
use sparkle_cache::model::Attachment;
use sparkle_cache::model::CachedActivity;
use sparkle_cache::model::CachedAttachment;
use sparkle_cache::model::CachedChannel;
use sparkle_cache::model::CachedCurrentUser;
use sparkle_cache::model::CachedEmbed;
use sparkle_cache::model::CachedEmbedField;
use sparkle_cache::model::CachedEmoji;
use sparkle_cache::model::CachedGuild;
use sparkle_cache::model::CachedMember;
use sparkle_cache::model::CachedMessage;
use sparkle_cache::model::CachedPermissionOverwrite;
use sparkle_cache::model::CachedPresence;
use sparkle_cache::model::CachedReaction;
use sparkle_cache::model::CachedRole;
use sparkle_cache::model::CachedStageInstance;
use sparkle_cache::model::CachedSticker;
use sparkle_cache::model::Channel;
use sparkle_cache::model::ChannelKind;
use sparkle_cache::model::Embed;
use sparkle_cache::model::EmbedData;
use sparkle_cache::model::EmbedField;
use sparkle_cache::model::Emoji;
use sparkle_cache::model::FieldUpdate;
use sparkle_cache::model::MessageSticker;
use sparkle_cache::model::Guild;
use sparkle_cache::model::Member;
use sparkle_cache::model::MemberUpdate;
use sparkle_cache::model::Message;
use sparkle_cache::model::MessageUpdate;
use sparkle_cache::model::OverwriteKind;
use sparkle_cache::model::PermissionOverwrite;
use sparkle_cache::model::Presence;
use sparkle_cache::model::Reaction;
use sparkle_cache::model::ReactionEmoji;
use sparkle_cache::model::Role;
use sparkle_cache::model::Status;
use sparkle_cache::permissions::ADMINISTRATOR;
use sparkle_cache::permissions::ALL_PERMISSIONS;
use sparkle_cache::permissions::READ_MESSAGE_HISTORY;
use sparkle_cache::permissions::SEND_MESSAGES;
use sparkle_cache::permissions::TIMEOUT_PERMISSIONS;
use sparkle_cache::permissions::VIEW_CHANNEL;

/// An in-memory backend, as a test double for the storage layer
#[derive(Default)]
struct MemoryCache {
    current_user: Option<CachedCurrentUser>,
    channels: HashMap<u64, CachedChannel>,
    overwrites: HashMap<(u64, u64), CachedPermissionOverwrite>,
    private_channels: HashSet<(u64, u64)>,
    messages: HashMap<u64, CachedMessage>,
    embeds: HashMap<u64, CachedEmbed>,
    embed_fields: HashMap<u64, Vec<CachedEmbedField>>,
    attachments: HashMap<u64, CachedAttachment>,
    reactions: Vec<CachedReaction>,
    members: HashMap<(u64, u64), CachedMember>,
    presences: HashMap<(u64, u64), CachedPresence>,
    activities: HashMap<(u64, u64), Vec<CachedActivity>>,
    guilds: HashMap<u64, CachedGuild>,
    roles: HashMap<(u64, Option<u64>), CachedRole>,
    emojis: HashMap<u64, CachedEmoji>,
    stickers: HashMap<u64, CachedSticker>,
    stages: HashMap<u64, CachedStageInstance>,
    next_id: u64,
}

impl Backend for MemoryCache {
    type Error = String;

    fn model(&self) -> sparkle_cache::state::CacheModel {
        unreachable!()
    }

    fn fresh_id(&mut self) -> u64 {
        let id = self.next_id;
        self.next_id += 1;
        id
    }

    fn set_current_user(&mut self, current_user: CachedCurrentUser) -> Result<(), String> {
        self.current_user = Some(current_user);
        Ok(())
    }

    fn upsert_channel(&mut self, channel: CachedChannel) -> Result<(), String> {
        self.channels.insert(channel.id, channel);
        Ok(())
    }

    fn delete_channel(&mut self, channel_id: u64) -> Result<(), String> {
        self.channels.remove(&channel_id);
        Ok(())
    }

    fn delete_guild_channels(&mut self, guild_id: u64) -> Result<(), String> {
        self.channels.retain(|_, c| c.guild_id != Some(guild_id));
        Ok(())
    }

    fn upsert_permission_overwrite(
        &mut self,
        overwrite: CachedPermissionOverwrite,
    ) -> Result<(), String> {
        self.overwrites
            .insert((overwrite.channel_id, overwrite.id), overwrite);
        Ok(())
    }

    fn delete_channel_permission_overwrites(&mut self, channel_id: u64) -> Result<(), String> {
        self.overwrites.retain(|k, _| k.0 != channel_id);
        Ok(())
    }

    fn upsert_private_channel(&mut self, channel_id: u64, user_id: u64) -> Result<(), String> {
        self.private_channels.insert((channel_id, user_id));
        Ok(())
    }

    fn upsert_message(&mut self, message: CachedMessage) -> Result<(), String> {
        self.messages.insert(message.id, message);
        Ok(())
    }

    fn delete_message(&mut self, message_id: u64) -> Result<(), String> {
        self.messages.remove(&message_id);
        Ok(())
    }

    fn upsert_embed(&mut self, embed: CachedEmbed) -> Result<(), String> {
        self.embeds.insert(embed.id, embed);
        Ok(())
    }

    fn delete_embed(&mut self, embed_id: u64) -> Result<(), String> {
        self.embeds.remove(&embed_id);
        Ok(())
    }

    fn upsert_embed_field(&mut self, field: CachedEmbedField) -> Result<(), String> {
        self.embed_fields
            .entry(field.embed_id)
            .or_default()
            .push(field);
        Ok(())
    }

    fn delete_embed_fields(&mut self, embed_id: u64) -> Result<(), String> {
        self.embed_fields.remove(&embed_id);
        Ok(())
    }

    fn select_message_embeds(&self, message_id: u64) -> Result<Vec<CachedEmbed>, String> {
        Ok(self
            .embeds
            .values()
            .filter(|e| e.message_id == message_id)
            .cloned()
            .collect())
    }

    fn select_embed_fields(&self, embed_id: u64) -> Result<Vec<CachedEmbedField>, String> {
        Ok(self.embed_fields.get(&embed_id).cloned().unwrap_or_default())
    }

    fn upsert_attachment(&mut self, attachment: CachedAttachment) -> Result<(), String> {
        self.attachments.insert(attachment.id, attachment);
        Ok(())
    }

    fn delete_message_attachments(&mut self, message_id: u64) -> Result<(), String> {
        self.attachments.retain(|_, a| a.message_id != message_id);
        Ok(())
    }

    fn upsert_reaction(&mut self, reaction: CachedReaction) -> Result<(), String> {
        self.reactions.retain(|r| {
            !(r.message_id == reaction.message_id
                && r.user_id == reaction.user_id
                && r.emoji.same_key(&reaction.emoji))
        });
        self.reactions.push(reaction);
        Ok(())
    }

    fn delete_reaction(
        &mut self,
        message_id: u64,
        user_id: u64,
        emoji: ReactionEmoji,
    ) -> Result<(), String> {
        self.reactions.retain(|r| {
            !(r.message_id == message_id && r.user_id == user_id && r.emoji.same_key(&emoji))
        });
        Ok(())
    }

    fn delete_message_reactions_by_emoji(
        &mut self,
        message_id: u64,
        emoji: ReactionEmoji,
    ) -> Result<(), String> {
        self.reactions
            .retain(|r| !(r.message_id == message_id && r.emoji.same_key(&emoji)));
        Ok(())
    }

    fn delete_message_reactions(&mut self, message_id: u64) -> Result<(), String> {
        self.reactions.retain(|r| r.message_id != message_id);
        Ok(())
    }

    fn upsert_member(&mut self, member: CachedMember) -> Result<(), String> {
        self.members.insert((member.guild_id, member.id), member);
        Ok(())
    }

    fn delete_member(&mut self, user_id: u64, guild_id: u64) -> Result<(), String> {
        self.members.remove(&(guild_id, user_id));
        Ok(())
    }

    fn delete_guild_members(&mut self, guild_id: u64) -> Result<(), String> {
        self.members.retain(|k, _| k.0 != guild_id);
        Ok(())
    }

    fn upsert_presence(&mut self, presence: CachedPresence) -> Result<(), String> {
        self.presences
            .insert((presence.guild_id, presence.user), presence);
        Ok(())
    }

    fn delete_presence(&mut self, guild_id: u64, user_id: u64) -> Result<(), String> {
        self.presences.remove(&(guild_id, user_id));
        Ok(())
    }

    fn delete_guild_presences(&mut self, guild_id: u64) -> Result<(), String> {
        self.presences.retain(|k, _| k.0 != guild_id);
        Ok(())
    }

    fn upsert_activity(&mut self, activity: CachedActivity) -> Result<(), String> {
        self.activities
            .entry((activity.guild_id, activity.user_id))
            .or_default()
            .push(activity);
        Ok(())
    }

    fn delete_user_activities(&mut self, guild_id: u64, user_id: u64) -> Result<(), String> {
        self.activities.remove(&(guild_id, user_id));
        Ok(())
    }

    fn upsert_guild(&mut self, guild: CachedGuild) -> Result<(), String> {
        self.guilds.insert(guild.id, guild);
        Ok(())
    }

    fn delete_guild(&mut self, guild_id: u64) -> Result<(), String> {
        self.guilds.remove(&guild_id);
        Ok(())
    }

    fn upsert_role(&mut self, role: CachedRole) -> Result<(), String> {
        self.roles.insert((role.id, role.user_id), role);
        Ok(())
    }

    fn delete_role(&mut self, role_id: u64) -> Result<(), String> {
        self.roles.retain(|k, _| k.0 != role_id);
        Ok(())
    }

    fn delete_guild_roles(&mut self, guild_id: u64) -> Result<(), String> {
        self.roles.retain(|_, r| r.guild_id != guild_id);
        Ok(())
    }

    fn delete_member_roles(&mut self, guild_id: u64, user_id: u64) -> Result<(), String> {
        self.roles
            .retain(|k, r| !(k.1 == Some(user_id) && r.guild_id == guild_id));
        Ok(())
    }

    fn upsert_emoji(&mut self, emoji: CachedEmoji) -> Result<(), String> {
        self.emojis.insert(emoji.id, emoji);
        Ok(())
    }

    fn delete_emoji(&mut self, emoji_id: u64) -> Result<(), String> {
        self.emojis.remove(&emoji_id);
        Ok(())
    }

    fn delete_guild_emojis(&mut self, guild_id: u64) -> Result<(), String> {
        self.emojis.retain(|_, e| e.guild_id != guild_id);
        Ok(())
    }

    fn upsert_sticker(&mut self, sticker: CachedSticker) -> Result<(), String> {
        self.stickers.insert(sticker.id, sticker);
        Ok(())
    }

    fn delete_message_stickers(&mut self, message_id: u64) -> Result<(), String> {
        self.stickers
            .retain(|_, s| s.message_id != Some(message_id));
        Ok(())
    }

    fn delete_guild_stickers(&mut self, guild_id: u64) -> Result<(), String> {
        self.stickers
            .retain(|_, s| !(s.guild_id == Some(guild_id) && s.message_id.is_none()));
        Ok(())
    }

    fn upsert_stage_instance(&mut self, stage: CachedStageInstance) -> Result<(), String> {
        self.stages.insert(stage.id, stage);
        Ok(())
    }

    fn delete_stage_instance(&mut self, stage_id: u64) -> Result<(), String> {
        self.stages.remove(&stage_id);
        Ok(())
    }

    fn delete_guild_stage_instances(&mut self, guild_id: u64) -> Result<(), String> {
        self.stages.retain(|_, s| s.guild_id != guild_id);
        Ok(())
    }
}

impl Cache for MemoryCache {
    fn current_user(&self) -> Result<CachedCurrentUser, Error<String>> {
        self.current_user.clone().ok_or(Error::CurrentUserMissing)
    }

    fn channel(&self, channel_id: u64) -> Result<Option<CachedChannel>, Error<String>> {
        Ok(self.channels.get(&channel_id).cloned())
    }

    fn permission_overwrites(
        &self,
        channel_id: u64,
    ) -> Result<Vec<CachedPermissionOverwrite>, Error<String>> {
        Ok(self
            .overwrites
            .iter()
            .filter(|(k, _)| k.0 == channel_id)
            .map(|(_, o)| *o)
            .collect())
    }

    fn guild_channels(&self, guild_id: u64) -> Result<Vec<CachedChannel>, Error<String>> {
        Ok(self
            .channels
            .values()
            .filter(|c| c.guild_id == Some(guild_id))
            .cloned()
            .collect())
    }

    fn message(&self, message_id: u64) -> Result<Option<CachedMessage>, Error<String>> {
        Ok(self.messages.get(&message_id).cloned())
    }

    fn attachments(&self, message_id: u64) -> Result<Vec<CachedAttachment>, Error<String>> {
        Ok(self
            .attachments
            .values()
            .filter(|a| a.message_id == message_id)
            .cloned()
            .collect())
    }

    fn reactions(&self, message_id: u64) -> Result<Vec<CachedReaction>, Error<String>> {
        Ok(self
            .reactions
            .iter()
            .filter(|r| r.message_id == message_id)
            .cloned()
            .collect())
    }

    fn stickers(&self, message_id: u64) -> Result<Vec<CachedSticker>, Error<String>> {
        Ok(self
            .stickers
            .values()
            .filter(|s| s.message_id == Some(message_id))
            .cloned()
            .collect())
    }

    fn channel_messages(
        &self,
        channel_id: u64,
        limit: u16,
    ) -> Result<Vec<CachedMessage>, Error<String>> {
        let mut messages: Vec<CachedMessage> = self
            .messages
            .values()
            .filter(|m| m.channel_id == channel_id)
            .cloned()
            .collect();
        messages.sort_by(|a, b| b.timestamp.cmp(&a.timestamp));
        if limit > 0 {
            messages.truncate(limit as usize);
        }
        Ok(messages)
    }

    fn member(&self, user_id: u64, guild_id: u64) -> Result<Option<CachedMember>, Error<String>> {
        Ok(self.members.get(&(guild_id, user_id)).cloned())
    }

    fn member_roles(&self, user_id: u64, guild_id: u64) -> Result<Vec<CachedRole>, Error<String>> {
        Ok(self
            .roles
            .values()
            .filter(|r| r.user_id == Some(user_id) && r.guild_id == guild_id)
            .cloned()
            .collect())
    }

    fn presence(&self, user_id: u64) -> Result<Option<CachedPresence>, Error<String>> {
        Ok(self
            .presences
            .values()
            .find(|p| p.user == user_id)
            .cloned())
    }

    fn member_activities(&self, user_id: u64) -> Result<Vec<CachedActivity>, Error<String>> {
        Ok(self
            .activities
            .iter()
            .filter(|(k, _)| k.1 == user_id)
            .flat_map(|(_, v)| v.clone())
            .collect())
    }

    fn guild_members(&self, guild_id: u64) -> Result<Vec<CachedMember>, Error<String>> {
        Ok(self
            .members
            .iter()
            .filter(|(k, _)| k.0 == guild_id)
            .map(|(_, m)| m.clone())
            .collect())
    }

    fn guild(&self, guild_id: u64) -> Result<Option<CachedGuild>, Error<String>> {
        Ok(self.guilds.get(&guild_id).cloned())
    }

    fn role(&self, role_id: u64) -> Result<Option<CachedRole>, Error<String>> {
        Ok(self.roles.get(&(role_id, None)).cloned())
    }

    fn guild_roles(&self, guild_id: u64) -> Result<Vec<CachedRole>, Error<String>> {
        Ok(self
            .roles
            .values()
            .filter(|r| r.user_id.is_none() && r.guild_id == guild_id)
            .cloned()
            .collect())
    }

    fn emoji(&self, emoji_id: u64) -> Result<Option<CachedEmoji>, Error<String>> {
        Ok(self.emojis.get(&emoji_id).cloned())
    }

    fn guild_emojis(&self, guild_id: u64) -> Result<Vec<CachedEmoji>, Error<String>> {
        Ok(self
            .emojis
            .values()
            .filter(|e| e.guild_id == guild_id)
            .cloned()
            .collect())
    }

    fn sticker(&self, sticker_id: u64) -> Result<Option<CachedSticker>, Error<String>> {
        Ok(self.stickers.get(&sticker_id).cloned())
    }

    fn guild_stickers(&self, guild_id: u64) -> Result<Vec<CachedSticker>, Error<String>> {
        Ok(self
            .stickers
            .values()
            .filter(|s| s.guild_id == Some(guild_id))
            .cloned()
            .collect())
    }

    fn stage_instance(&self, stage_id: u64) -> Result<Option<CachedStageInstance>, Error<String>> {
        Ok(self.stages.get(&stage_id).cloned())
    }
}

fn current_user(id: u64) -> CachedCurrentUser {
    CachedCurrentUser {
        accent_color: None,
        avatar: None,
        banner: None,
        bot: true,
        discriminator: 1,
        email: None,
        flags: None,
        id,
        locale: None,
        mfa_enabled: false,
        name: "tester".to_owned(),
        premium_type: None,
        public_flags: None,
        verified: None,
    }
}

fn channel_row(id: u64, guild_id: Option<u64>) -> CachedChannel {
    CachedChannel {
        application_id: None,
        bitrate: None,
        default_auto_archive_duration: None,
        guild_id,
        icon: None,
        id,
        invitable: None,
        kind: ChannelKind::GuildText,
        name: Some("general".to_owned()),
        nsfw: None,
        owner_id: None,
        parent_id: None,
        position: Some(0),
        rate_limit_per_user: None,
        rtc_region: None,
        thread_metadata: None,
        topic: None,
        user_limit: None,
        video_quality_mode: None,
    }
}

fn channel_event(id: u64, guild_id: Option<u64>) -> Channel {
    Channel {
        channel: channel_row(id, guild_id),
        permission_overwrites: None,
        recipients: None,
    }
}

fn guild_row(id: u64, owner_id: u64) -> CachedGuild {
    CachedGuild {
        afk_channel_id: None,
        afk_timeout: 300,
        application_id: None,
        banner: None,
        default_message_notifications: 0,
        description: None,
        discovery_splash: None,
        explicit_content_filter: 0,
        features: vec!["COMMUNITY".to_owned()],
        icon: None,
        id,
        joined_at: Some(1),
        large: false,
        max_members: None,
        max_presences: None,
        max_video_channel_users: None,
        mfa_level: 0,
        name: "testing guild".to_owned(),
        nsfw_level: 0,
        owner_id,
        owner: None,
        permissions: None,
        preferred_locale: "en-US".to_owned(),
        premium_progress_bar_enabled: false,
        premium_subscription_count: None,
        premium_tier: 0,
        rules_channel_id: None,
        splash: None,
        system_channel_flags: 0,
        system_channel_id: None,
        unavailable: false,
        vanity_url_code: None,
        verification_level: 0,
        widget_channel_id: None,
        widget_enabled: None,
    }
}

fn empty_guild_event(id: u64, owner_id: u64) -> Guild {
    Guild {
        guild: guild_row(id, owner_id),
        channels: Vec::new(),
        threads: Vec::new(),
        emojis: Vec::new(),
        stickers: Vec::new(),
        members: Vec::new(),
        presences: Vec::new(),
        roles: Vec::new(),
        stage_instances: Vec::new(),
    }
}

fn member_row(guild_id: u64, user_id: u64) -> CachedMember {
    CachedMember {
        guild_avatar: None,
        communication_disabled_until: None,
        deaf: false,
        guild_id,
        joined_at: 1000,
        mute: false,
        nick: None,
        pending: false,
        premium_since: None,
        accent_color: None,
        avatar: None,
        banner: None,
        bot: false,
        discriminator: 7,
        flags: None,
        id: user_id,
        locale: None,
        mfa_enabled: None,
        name: "member".to_owned(),
        premium_type: None,
        public_flags: None,
        system: None,
    }
}

fn member_update(guild_id: u64, user_id: u64, roles: Vec<u64>) -> MemberUpdate {
    MemberUpdate {
        guild_id,
        roles,
        avatar: FieldUpdate::Keep,
        communication_disabled_until: FieldUpdate::Keep,
        deaf: FieldUpdate::Keep,
        mute: FieldUpdate::Keep,
        nick: FieldUpdate::Keep,
        pending: FieldUpdate::Keep,
        premium_since: FieldUpdate::Keep,
        accent_color: None,
        user_avatar: None,
        banner: None,
        discriminator: 7,
        flags: None,
        user_id,
        locale: None,
        mfa_enabled: None,
        name: "member".to_owned(),
        premium_type: None,
        public_flags: None,
        system: None,
    }
}

fn role_payload(id: u64, permissions: u64) -> Role {
    Role {
        color: 0,
        hoist: false,
        icon: None,
        id,
        managed: false,
        mentionable: false,
        name: "role".to_owned(),
        permissions,
        position: 0,
        tags_bot_id: None,
        tags_integration_id: None,
        tags_premium_subscriber: None,
        unicode_emoji: None,
    }
}

fn message_row(id: u64, channel_id: u64, timestamp: i64) -> CachedMessage {
    CachedMessage {
        activity_type: None,
        activity_party_id: None,
        application_cover_image: None,
        application_description: None,
        application_icon: None,
        application_id: None,
        application_name: None,
        interaction_application_id: None,
        author: 100,
        channel_id,
        content: "hello".to_owned(),
        edited_timestamp: None,
        flags: None,
        guild_id: Some(1),
        id,
        kind: 0,
        mention_everyone: false,
        pinned: false,
        reference_channel_id: None,
        reference_guild_id: None,
        reference_message_id: None,
        reference_fail_if_not_exists: None,
        referenced_message: None,
        timestamp,
        thread: None,
        tts: false,
        webhook_id: None,
    }
}

fn embed_payload(description: &str, fields: Vec<EmbedField>) -> Embed {
    Embed {
        embed: EmbedData {
            author_icon_url: None,
            author_name: None,
            author_proxy_icon_url: None,
            author_url: None,
            color: None,
            description: Some(description.to_owned()),
            footer_icon_url: None,
            footer_proxy_icon_url: None,
            footer_text: None,
            image_height: None,
            image_proxy_url: None,
            image_url: None,
            image_width: None,
            kind: "rich".to_owned(),
            provider_name: None,
            provider_url: None,
            thumbnail_height: None,
            thumbnail_proxy_url: None,
            thumbnail_url: None,
            thumbnail_width: None,
            timestamp: None,
            title: None,
            url: None,
            video_height: None,
            video_proxy_url: None,
            video_url: None,
            video_width: None,
        },
        fields,
    }
}

fn attachment_payload(id: u64) -> Attachment {
    Attachment {
        content_type: None,
        ephemeral: false,
        filename: "image.png".to_owned(),
        description: None,
        height: None,
        id,
        proxy_url: "proxy".to_owned(),
        size: 1,
        url: "url".to_owned(),
        width: None,
    }
}

fn reaction_payload(message_id: u64, user_id: u64, name: &str) -> Reaction {
    Reaction {
        channel_id: 2,
        emoji: ReactionEmoji::Unicode {
            name: name.to_owned(),
        },
        guild_id: Some(1),
        message_id,
        user_id,
    }
}

fn now_unix() -> i64 {
    SystemTime::now()
        .duration_since(UNIX_EPOCH)
        .unwrap()
        .as_secs() as i64
}

/// Sets up a guild (ID 1, owner 99) with an everyone role carrying `base`
/// permission bits, a text channel (ID 2) and a cached member (user 100)
fn setup_guild(cache: &mut MemoryCache, base: u64) {
    cache
        .update(Event::Ready {
            user: current_user(500),
        })
        .unwrap();
    cache
        .update(Event::GuildCreate(empty_guild_event(1, 99)))
        .unwrap();
    cache
        .update(Event::RoleCreate {
            guild_id: 1,
            role: role_payload(1, base),
        })
        .unwrap();
    cache
        .update(Event::ChannelCreate(channel_event(2, Some(1))))
        .unwrap();
    cache
        .update(Event::MemberAdd(Member {
            member: member_row(1, 100),
            roles: Vec::new(),
        }))
        .unwrap();
}

#[test]
fn ready_sets_current_user() {
    let mut cache = MemoryCache::default();
    assert_eq!(cache.current_user(), Err(Error::CurrentUserMissing));
    cache
        .update(Event::Ready {
            user: current_user(500),
        })
        .unwrap();
    assert_eq!(cache.current_user(), Ok(current_user(500)));
}

#[test]
fn upsert_is_idempotent() {
    let mut cache = MemoryCache::default();
    cache
        .update(Event::ChannelCreate(channel_event(2, Some(1))))
        .unwrap();
    cache
        .update(Event::ChannelCreate(channel_event(2, Some(1))))
        .unwrap();
    let channels = cache.guild_channels(1).unwrap();
    assert_eq!(channels, vec![channel_row(2, Some(1))]);
    cache
        .update(Event::ChannelUpdate(channel_event(2, Some(1))))
        .unwrap();
    assert_eq!(cache.guild_channels(1).unwrap().len(), 1);
}

#[test]
fn message_create_caches_owned_collections() {
    let mut cache = MemoryCache::default();
    let first_fields = vec![
        EmbedField {
            inline: true,
            name: "first field".to_owned(),
            value: "first value".to_owned(),
        },
        EmbedField {
            inline: false,
            name: "second field".to_owned(),
            value: "second value".to_owned(),
        },
    ];
    cache
        .update(Event::MessageCreate(Message {
            message: message_row(10, 2, 5),
            attachments: vec![attachment_payload(21), attachment_payload(22)],
            sticker_items: Vec::new(),
            embeds: vec![
                embed_payload("first embed", first_fields),
                embed_payload("second embed", Vec::new()),
            ],
        }))
        .unwrap();
    assert_eq!(cache.message(10).unwrap(), Some(message_row(10, 2, 5)));
    assert_eq!(cache.attachments(10).unwrap().len(), 2);
    let embeds = cache.embeds(10).unwrap();
    assert_eq!(embeds.len(), 2);
    let with_fields = embeds.iter().find(|(e, _)| e.description.as_deref() == Some("first embed"));
    assert_eq!(with_fields.unwrap().1.len(), 2);
}

#[test]
fn message_delete_cascades() {
    let mut cache = MemoryCache::default();
    cache
        .update(Event::MessageCreate(Message {
            message: message_row(10, 2, 5),
            attachments: vec![attachment_payload(21)],
            sticker_items: Vec::new(),
            embeds: vec![embed_payload(
                "embed",
                vec![EmbedField {
                    inline: false,
                    name: "n".to_owned(),
                    value: "v".to_owned(),
                }],
            )],
        }))
        .unwrap();
    cache
        .update(Event::ReactionAdd(reaction_payload(10, 100, "star")))
        .unwrap();
    cache
        .update(Event::ReactionAdd(reaction_payload(10, 101, "star")))
        .unwrap();
    assert_eq!(cache.reactions(10).unwrap().len(), 2);

    cache.update(Event::MessageDelete { id: 10 }).unwrap();
    assert_eq!(cache.message(10).unwrap(), None);
    assert_eq!(cache.embeds(10).unwrap(), Vec::new());
    assert_eq!(cache.attachments(10).unwrap(), Vec::new());
    assert_eq!(cache.reactions(10).unwrap(), Vec::new());
    assert_eq!(cache.stickers(10).unwrap(), Vec::new());
}

#[test]
fn partial_member_update_preserves_other_fields() {
    let mut cache = MemoryCache::default();
    setup_guild(&mut cache, 0);
    let mut row = member_row(1, 100);
    row.nick = Some("a".to_owned());
    row.pending = false;
    cache
        .update(Event::MemberAdd(Member {
            member: row,
            roles: Vec::new(),
        }))
        .unwrap();

    // The payload carries only `pending`; every other field stays.
    let mut update = member_update(1, 100, Vec::new());
    update.pending = FieldUpdate::Replace(true);
    cache.update(Event::MemberUpdate(update)).unwrap();

    let cached = cache.member(100, 1).unwrap().unwrap();
    assert_eq!(cached.nick.as_deref(), Some("a"));
    assert!(cached.pending);
    assert_eq!(cached.joined_at, 1000);
    assert_eq!(cached.name, "member");
    assert!(!cached.deaf);

    // A carried clearing is another thing than an uncarried field.
    let mut clearing = member_update(1, 100, Vec::new());
    clearing.nick = FieldUpdate::Replace(None);
    cache.update(Event::MemberUpdate(clearing)).unwrap();
    let cached = cache.member(100, 1).unwrap().unwrap();
    assert_eq!(cached.nick, None);
    assert!(cached.pending);
}

#[test]
fn member_update_replaces_role_set() {
    let mut cache = MemoryCache::default();
    setup_guild(&mut cache, 0);
    for (role_id, bits) in [(11u64, 1u64), (12, 2), (13, 4)] {
        cache
            .update(Event::RoleCreate {
                guild_id: 1,
                role: role_payload(role_id, bits),
            })
            .unwrap();
    }
    cache
        .update(Event::MemberUpdate(member_update(1, 100, vec![11, 12])))
        .unwrap();
    let mut held: Vec<u64> = cache
        .member_roles(100, 1)
        .unwrap()
        .iter()
        .map(|r| r.id)
        .collect();
    held.sort_unstable();
    assert_eq!(held, vec![11, 12]);

    cache
        .update(Event::MemberUpdate(member_update(1, 100, vec![12, 13])))
        .unwrap();
    let mut held: Vec<u64> = cache
        .member_roles(100, 1)
        .unwrap()
        .iter()
        .map(|r| r.id)
        .collect();
    held.sort_unstable();
    assert_eq!(held, vec![12, 13]);
}

#[test]
fn member_update_with_unknown_role_fails() {
    let mut cache = MemoryCache::default();
    setup_guild(&mut cache, 0);
    let result = cache.update(Event::MemberUpdate(member_update(1, 100, vec![42])));
    assert_eq!(
        result,
        Err(Error::MemberRoleMissing {
            user_id: 100,
            role_id: 42
        })
    );
}

#[test]
fn member_overwrite_wins_over_everyone_denial() {
    let mut cache = MemoryCache::default();
    setup_guild(&mut cache, SEND_MESSAGES);
    cache
        .update(Event::ChannelUpdate(Channel {
            channel: channel_row(2, Some(1)),
            permission_overwrites: Some(vec![
                PermissionOverwrite {
                    allow: 0,
                    deny: SEND_MESSAGES,
                    id: 1,
                    kind: OverwriteKind::Role,
                },
                PermissionOverwrite {
                    allow: SEND_MESSAGES,
                    deny: 0,
                    id: 100,
                    kind: OverwriteKind::Member,
                },
            ]),
            recipients: None,
        }))
        .unwrap();
    let permissions = cache.channel_permissions(100, 2).unwrap();
    assert_eq!(permissions & SEND_MESSAGES, SEND_MESSAGES);

    let base_only = cache.guild_permissions(100, 1).unwrap();
    assert_eq!(base_only & SEND_MESSAGES, SEND_MESSAGES);
}

#[test]
fn everyone_overwrite_denies_without_member_grant() {
    let mut cache = MemoryCache::default();
    setup_guild(&mut cache, SEND_MESSAGES | VIEW_CHANNEL);
    cache
        .update(Event::ChannelUpdate(Channel {
            channel: channel_row(2, Some(1)),
            permission_overwrites: Some(vec![PermissionOverwrite {
                allow: 0,
                deny: SEND_MESSAGES,
                id: 1,
                kind: OverwriteKind::Role,
            }]),
            recipients: None,
        }))
        .unwrap();
    let permissions = cache.channel_permissions(100, 2).unwrap();
    assert_eq!(permissions & SEND_MESSAGES, 0);
    assert_eq!(permissions & VIEW_CHANNEL, VIEW_CHANNEL);
}

#[test]
fn timed_out_member_keeps_only_timeout_permissions() {
    let mut cache = MemoryCache::default();
    setup_guild(
        &mut cache,
        SEND_MESSAGES | VIEW_CHANNEL | READ_MESSAGE_HISTORY,
    );
    let mut row = member_row(1, 100);
    row.communication_disabled_until = Some(now_unix() + 60);
    cache
        .update(Event::MemberAdd(Member {
            member: row,
            roles: Vec::new(),
        }))
        .unwrap();
    let permissions = cache.guild_permissions(100, 1).unwrap();
    assert_eq!(permissions & !TIMEOUT_PERMISSIONS, 0);
    assert_eq!(permissions & SEND_MESSAGES, 0);
}

#[test]
fn administrator_ignores_timeout() {
    let mut cache = MemoryCache::default();
    setup_guild(&mut cache, ADMINISTRATOR);
    let mut row = member_row(1, 100);
    row.communication_disabled_until = Some(now_unix() + 60);
    cache
        .update(Event::MemberAdd(Member {
            member: row,
            roles: Vec::new(),
        }))
        .unwrap();
    assert_eq!(cache.guild_permissions(100, 1).unwrap(), ALL_PERMISSIONS);
}

#[test]
fn expired_timeout_does_not_restrict() {
    let mut cache = MemoryCache::default();
    setup_guild(&mut cache, SEND_MESSAGES);
    let mut row = member_row(1, 100);
    row.communication_disabled_until = Some(now_unix() - 60);
    cache
        .update(Event::MemberAdd(Member {
            member: row,
            roles: Vec::new(),
        }))
        .unwrap();
    let permissions = cache.guild_permissions(100, 1).unwrap();
    assert_eq!(permissions & SEND_MESSAGES, SEND_MESSAGES);
}

#[test]
fn bad_timeout_timestamp_is_an_error() {
    let mut cache = MemoryCache::default();
    setup_guild(&mut cache, SEND_MESSAGES);
    let mut row = member_row(1, 100);
    row.communication_disabled_until = Some(i64::MIN);
    cache
        .update(Event::MemberAdd(Member {
            member: row.clone(),
            roles: Vec::new(),
        }))
        .unwrap();
    assert_eq!(
        cache.guild_permissions(100, 1),
        Err(Error::MemberBadTimeoutTimestamp(row))
    );
}

#[test]
fn owner_holds_every_permission() {
    let mut cache = MemoryCache::default();
    setup_guild(&mut cache, 0);
    cache
        .update(Event::MemberAdd(Member {
            member: member_row(1, 99),
            roles: Vec::new(),
        }))
        .unwrap();
    assert_eq!(cache.guild_permissions(99, 1).unwrap(), ALL_PERMISSIONS);
}

#[test]
fn resolver_reports_missing_prerequisites() {
    let mut cache = MemoryCache::default();
    assert_eq!(
        cache.guild_permissions(100, 1),
        Err(Error::PermissionsGuildMissing(1))
    );
    assert_eq!(
        cache.channel_permissions(100, 2),
        Err(Error::PermissionsChannelMissing(2))
    );
    assert_eq!(cache.self_guild_permissions(1), Err(Error::CurrentUserMissing));

    cache
        .update(Event::GuildCreate(empty_guild_event(1, 99)))
        .unwrap();
    assert_eq!(
        cache.guild_permissions(100, 1),
        Err(Error::PermissionsGuildEveryoneRoleMissing(1))
    );

    cache
        .update(Event::RoleCreate {
            guild_id: 1,
            role: role_payload(1, 0),
        })
        .unwrap();
    assert_eq!(
        cache.guild_permissions(100, 1),
        Err(Error::PermissionsMemberMissing {
            user_id: 100,
            guild_id: 1
        })
    );

    cache
        .update(Event::ChannelCreate(channel_event(7, None)))
        .unwrap();
    assert_eq!(
        cache.channel_permissions(100, 7),
        Err(Error::PermissionsChannelNotInGuild(channel_row(7, None)))
    );
}

#[test]
fn unavailable_guild_delete_is_a_noop() {
    let mut cache = MemoryCache::default();
    setup_guild(&mut cache, SEND_MESSAGES);
    cache
        .update(Event::GuildDelete(GuildDelete {
            id: 1,
            unavailable: true,
        }))
        .unwrap();
    assert_eq!(cache.guild(1).unwrap(), Some(guild_row(1, 99)));
    assert_eq!(cache.guild_channels(1).unwrap().len(), 1);
    assert_eq!(cache.guild_roles(1).unwrap().len(), 1);
    assert!(cache.member(100, 1).unwrap().is_some());
}

#[test]
fn guild_delete_cascades() {
    let mut cache = MemoryCache::default();
    setup_guild(&mut cache, SEND_MESSAGES);
    cache
        .update(Event::GuildDelete(GuildDelete {
            id: 1,
            unavailable: false,
        }))
        .unwrap();
    assert_eq!(cache.guild(1).unwrap(), None);
    assert_eq!(cache.guild_channels(1).unwrap(), Vec::new());
    assert_eq!(cache.guild_roles(1).unwrap(), Vec::new());
    assert_eq!(cache.member(100, 1).unwrap(), None);
}

#[test]
fn private_channel_requires_recipient() {
    let mut cache = MemoryCache::default();
    let mut dm = channel_event(40, None);
    dm.channel.kind = ChannelKind::Private;
    dm.recipients = Some(vec![700]);
    assert_eq!(
        cache.update(Event::ChannelCreate(dm.clone())),
        Err(Error::PrivateChannelMissingRecipient(40))
    );

    cache
        .update(Event::Ready {
            user: current_user(500),
        })
        .unwrap();
    cache.update(Event::ChannelCreate(dm)).unwrap();
    assert!(cache.channel(40).unwrap().is_some());

    let mut no_other = channel_event(41, None);
    no_other.channel.kind = ChannelKind::Private;
    no_other.recipients = Some(vec![500]);
    assert_eq!(
        cache.update(Event::ChannelCreate(no_other)),
        Err(Error::PrivateChannelMissingRecipient(41))
    );
}

#[test]
fn message_update_replaces_embeds_and_keeps_attachments() {
    let mut cache = MemoryCache::default();
    cache
        .update(Event::MessageCreate(Message {
            message: message_row(10, 2, 5),
            attachments: vec![attachment_payload(21)],
            sticker_items: Vec::new(),
            embeds: vec![embed_payload("old", Vec::new())],
        }))
        .unwrap();
    cache
        .update(Event::MessageUpdate(MessageUpdate {
            id: 10,
            channel_id: 2,
            attachments: None,
            embeds: Some(vec![
                embed_payload("new one", Vec::new()),
                embed_payload("new two", Vec::new()),
            ]),
            content: Some("edited".to_owned()),
            edited_timestamp: Some(6),
            mention_everyone: None,
            pinned: None,
        }))
        .unwrap();
    let message = cache.message(10).unwrap().unwrap();
    assert_eq!(message.content, "edited");
    assert_eq!(message.edited_timestamp, Some(6));
    assert!(!message.pinned);
    let embeds = cache.embeds(10).unwrap();
    assert_eq!(embeds.len(), 2);
    assert!(embeds
        .iter()
        .all(|(e, _)| e.description.as_deref() != Some("old")));
    assert_eq!(cache.attachments(10).unwrap().len(), 1);
}

#[test]
fn message_update_for_unknown_message_is_skipped() {
    let mut cache = MemoryCache::default();
    cache
        .update(Event::MessageUpdate(MessageUpdate {
            id: 77,
            channel_id: 2,
            attachments: None,
            embeds: None,
            content: Some("edited".to_owned()),
            edited_timestamp: None,
            mention_everyone: None,
            pinned: None,
        }))
        .unwrap();
    assert_eq!(cache.message(77).unwrap(), None);
}

#[test]
fn presence_update_replaces_activities() {
    let mut cache = MemoryCache::default();
    let activity = |name: &str| sparkle_cache::model::Activity {
        application_id: None,
        asset_large_image: None,
        asset_large_text: None,
        asset_small_image: None,
        asset_small_text: None,
        created_at: None,
        details: None,
        emoji_animated: None,
        emoji_name: None,
        emoji_id: None,
        flags: None,
        id: None,
        instance: None,
        kind: 0,
        name: name.to_owned(),
        party_id: None,
        party_size_current: None,
        party_size_max: None,
        state: None,
        timestamp_end: None,
        timestamp_start: None,
        url: None,
    };
    let presence = |names: Vec<&str>| Presence {
        presence: CachedPresence {
            guild_id: 1,
            status: Status::Online,
            user: 100,
        },
        activities: names.into_iter().map(activity).collect(),
    };
    cache
        .update(Event::PresenceUpdate(presence(vec!["first", "second"])))
        .unwrap();
    assert_eq!(cache.member_activities(100).unwrap().len(), 2);
    cache
        .update(Event::PresenceUpdate(presence(vec!["third"])))
        .unwrap();
    let activities = cache.member_activities(100).unwrap();
    assert_eq!(activities.len(), 1);
    assert_eq!(activities[0].name, "third");
    assert!(cache.presence(100).unwrap().is_some());
}

#[test]
fn reactions_are_removed_by_emoji_and_altogether() {
    let mut cache = MemoryCache::default();
    cache
        .update(Event::ReactionAdd(reaction_payload(10, 100, "star")))
        .unwrap();
    cache
        .update(Event::ReactionAdd(reaction_payload(10, 100, "heart")))
        .unwrap();
    cache
        .update(Event::ReactionAdd(reaction_payload(10, 101, "star")))
        .unwrap();
    cache
        .update(Event::ReactionAdd(reaction_payload(10, 100, "star")))
        .unwrap();
    assert_eq!(cache.reactions(10).unwrap().len(), 3);

    cache
        .update(Event::ReactionRemove(reaction_payload(10, 100, "star")))
        .unwrap();
    assert_eq!(cache.reactions(10).unwrap().len(), 2);

    cache
        .update(Event::ReactionRemoveEmoji {
            message_id: 10,
            emoji: ReactionEmoji::Unicode {
                name: "star".to_owned(),
            },
        })
        .unwrap();
    assert_eq!(cache.reactions(10).unwrap().len(), 1);

    cache
        .update(Event::ReactionRemoveAll { message_id: 10 })
        .unwrap();
    assert_eq!(cache.reactions(10).unwrap(), Vec::new());
}

#[test]
fn guild_stickers_update_keeps_message_stickers() {
    let mut cache = MemoryCache::default();
    cache
        .update(Event::MessageCreate(Message {
            message: message_row(10, 2, 5),
            attachments: Vec::new(),
            sticker_items: vec![sparkle_cache::model::MessageSticker {
                format_type: 1,
                id: 600,
                name: "wave".to_owned(),
            }],
            embeds: Vec::new(),
        }))
        .unwrap();
    cache
        .update(Event::GuildStickersUpdate {
            guild_id: 1,
            stickers: Vec::new(),
        })
        .unwrap();
    assert_eq!(cache.stickers(10).unwrap().len(), 1);
    assert_eq!(cache.sticker(600).unwrap().unwrap().name, "wave");
}

#[test]
fn unique_id_steps_the_counter() {
    let mut counter: u64 = 7;
    assert_eq!(unique_id(&mut counter), 7);
    assert_eq!(unique_id(&mut counter), 8);
    assert_eq!(counter, 9);
}

#[test]
fn assert_vecs_eq_ignores_order() {
    assert!(assert_vecs_eq(&vec![1u64, 2, 3], &vec![3u64, 1, 2]));
    assert!(!assert_vecs_eq(&vec![1u64, 2], &vec![1u64, 2, 3]));
    assert!(!assert_vecs_eq(&vec![1u64, 4], &vec![1u64, 2]));
}

#[test]
fn communication_disabled_checks_the_clock() {
    let mut member = member_row(1, 100);
    assert_eq!(member.communication_disabled(), Ok(false));

    member.communication_disabled_until = Some(now_unix() + 60);
    assert_eq!(member.communication_disabled(), Ok(true));

    member.communication_disabled_until = Some(now_unix() - 60);
    assert_eq!(member.communication_disabled(), Ok(false));

    member.communication_disabled_until = Some(i64::MIN);
    assert!(member.communication_disabled().is_err());

    assert_eq!(member.communication_disabled_at(0), Err(sparkle_cache::model::BadTimeoutTimestamp));
    member.communication_disabled_until = Some(100);
    assert_eq!(member.communication_disabled_at(50), Ok(true));
    assert_eq!(member.communication_disabled_at(100), Ok(false));
}

fn emoji_payload(id: u64, name: &str) -> Emoji {
    Emoji {
        animated: false,
        available: true,
        id,
        managed: false,
        name: name.to_owned(),
        require_colons: true,
        user: None,
    }
}

#[test]
fn guild_create_populates_owned_collections() {
    let mut cache = MemoryCache::default();
    cache
        .update(Event::Ready {
            user: current_user(500),
        })
        .unwrap();
    // The snapshot's own role definitions go in before its members, so a
    // self-contained snapshot carries everything its role assignments need.
    let mut guild = empty_guild_event(1, 99);
    guild.channels = vec![channel_event(3, Some(1))];
    guild.emojis = vec![emoji_payload(60, "blob")];
    guild.members = vec![Member {
        member: member_row(1, 100),
        roles: vec![11],
    }];
    guild.roles = vec![role_payload(1, 0), role_payload(11, 1)];
    cache.update(Event::GuildCreate(guild)).unwrap();

    assert_eq!(cache.guild(1).unwrap(), Some(guild_row(1, 99)));
    assert_eq!(cache.guild_channels(1).unwrap().len(), 1);
    assert_eq!(cache.guild_emojis(1).unwrap().len(), 1);
    assert_eq!(cache.emoji(60).unwrap().unwrap().name, "blob");
    assert!(cache.member(100, 1).unwrap().is_some());
    let held: Vec<u64> = cache
        .member_roles(100, 1)
        .unwrap()
        .iter()
        .map(|r| r.id)
        .collect();
    assert_eq!(held, vec![11]);
}

#[test]
fn guild_create_with_unknown_member_role_fails() {
    let mut cache = MemoryCache::default();
    let mut guild = empty_guild_event(1, 99);
    guild.members = vec![Member {
        member: member_row(1, 100),
        roles: vec![42],
    }];
    guild.roles = vec![role_payload(11, 1)];
    assert_eq!(
        cache.update(Event::GuildCreate(guild)),
        Err(Error::MemberRoleMissing {
            user_id: 100,
            role_id: 42
        })
    );
}

#[test]
fn channel_delete_removes_its_overwrites() {
    let mut cache = MemoryCache::default();
    cache
        .update(Event::ChannelCreate(Channel {
            channel: channel_row(2, Some(1)),
            permission_overwrites: Some(vec![PermissionOverwrite {
                allow: 1,
                deny: 0,
                id: 9,
                kind: OverwriteKind::Role,
            }]),
            recipients: None,
        }))
        .unwrap();
    assert_eq!(cache.permission_overwrites(2).unwrap().len(), 1);
    cache
        .update(Event::ChannelDelete(channel_event(2, Some(1))))
        .unwrap();
    assert_eq!(cache.channel(2).unwrap(), None);
    assert_eq!(cache.permission_overwrites(2).unwrap(), Vec::new());
}

#[test]
fn guild_emojis_update_replaces_the_set() {
    let mut cache = MemoryCache::default();
    cache
        .update(Event::GuildEmojisUpdate {
            guild_id: 1,
            emojis: vec![emoji_payload(60, "old"), emoji_payload(61, "older")],
        })
        .unwrap();
    cache
        .update(Event::GuildEmojisUpdate {
            guild_id: 1,
            emojis: vec![emoji_payload(62, "new")],
        })
        .unwrap();
    let emojis = cache.guild_emojis(1).unwrap();
    assert_eq!(emojis.len(), 1);
    assert_eq!(emojis[0].name, "new");
}

#[test]
fn guild_update_merges_into_cached_row() {
    let mut cache = MemoryCache::default();
    // An update for a guild never observed is skipped silently.
    let mut partial = sparkle_cache::model::PartialGuild {
        id: 1,
        afk_channel_id: None,
        afk_timeout: 300,
        application_id: None,
        banner: None,
        default_message_notifications: 0,
        description: None,
        discovery_splash: None,
        explicit_content_filter: 0,
        features: Vec::new(),
        icon: None,
        max_members: None,
        max_presences: None,
        mfa_level: 0,
        name: "renamed".to_owned(),
        nsfw_level: 0,
        owner_id: 99,
        owner: None,
        permissions: None,
        preferred_locale: "en-US".to_owned(),
        premium_progress_bar_enabled: false,
        premium_subscription_count: None,
        premium_tier: 0,
        rules_channel_id: None,
        splash: None,
        system_channel_flags: 0,
        system_channel_id: None,
        verification_level: 0,
        vanity_url_code: None,
        widget_channel_id: None,
        widget_enabled: None,
    };
    cache.update(Event::GuildUpdate(partial.clone())).unwrap();
    assert_eq!(cache.guild(1).unwrap(), None);

    cache
        .update(Event::GuildCreate(empty_guild_event(1, 99)))
        .unwrap();
    partial.name = "renamed".to_owned();
    cache.update(Event::GuildUpdate(partial)).unwrap();
    let guild = cache.guild(1).unwrap().unwrap();
    assert_eq!(guild.name, "renamed");
    // Fields the partial payload does not carry stay as they were.
    assert_eq!(guild.joined_at, Some(1));
    assert!(!guild.large);
}

#[test]
fn bulk_message_delete_removes_each_message() {
    let mut cache = MemoryCache::default();
    for id in [10u64, 11, 12] {
        cache
            .update(Event::MessageCreate(Message {
                message: message_row(id, 2, id as i64),
                attachments: vec![attachment_payload(id + 100)],
                sticker_items: Vec::new(),
                embeds: Vec::new(),
            }))
            .unwrap();
    }
    cache
        .update(Event::MessageDeleteBulk { ids: vec![10, 12] })
        .unwrap();
    assert_eq!(cache.message(10).unwrap(), None);
    assert!(cache.message(11).unwrap().is_some());
    assert_eq!(cache.message(12).unwrap(), None);
    assert_eq!(cache.attachments(10).unwrap(), Vec::new());
    assert_eq!(cache.attachments(11).unwrap().len(), 1);
}

#[test]
fn member_remove_drops_member_and_roles() {
    let mut cache = MemoryCache::default();
    setup_guild(&mut cache, 0);
    cache
        .update(Event::RoleCreate {
            guild_id: 1,
            role: role_payload(11, 1),
        })
        .unwrap();
    cache
        .update(Event::MemberUpdate(member_update(1, 100, vec![11])))
        .unwrap();
    assert_eq!(cache.member_roles(100, 1).unwrap().len(), 1);
    cache
        .update(Event::MemberRemove {
            guild_id: 1,
            user_id: 100,
        })
        .unwrap();
    assert_eq!(cache.member(100, 1).unwrap(), None);
    assert_eq!(cache.member_roles(100, 1).unwrap(), Vec::new());
}

#[test]
fn role_delete_drops_definition_and_assignments() {
    let mut cache = MemoryCache::default();
    setup_guild(&mut cache, 0);
    cache
        .update(Event::RoleCreate {
            guild_id: 1,
            role: role_payload(11, 1),
        })
        .unwrap();
    cache
        .update(Event::MemberUpdate(member_update(1, 100, vec![11])))
        .unwrap();
    cache
        .update(Event::RoleDelete {
            guild_id: 1,
            role_id: 11,
        })
        .unwrap();
    assert_eq!(cache.role(11).unwrap(), None);
    assert_eq!(cache.member_roles(100, 1).unwrap(), Vec::new());
}

#[test]
fn member_chunk_caches_each_member() {
    let mut cache = MemoryCache::default();
    cache
        .update(Event::MemberChunk {
            members: vec![
                Member {
                    member: member_row(1, 100),
                    roles: Vec::new(),
                },
                Member {
                    member: member_row(1, 101),
                    roles: Vec::new(),
                },
            ],
        })
        .unwrap();
    assert_eq!(cache.guild_members(1).unwrap().len(), 2);
}

#[test]
fn stage_instances_follow_their_lifecycle() {
    let mut cache = MemoryCache::default();
    let stage = CachedStageInstance {
        channel_id: 2,
        guild_id: 1,
        guild_scheduled_event_id: None,
        id: 80,
        privacy_level: 2,
        topic: "talk".to_owned(),
    };
    cache
        .update(Event::StageInstanceCreate(stage.clone()))
        .unwrap();
    assert_eq!(cache.stage_instance(80).unwrap(), Some(stage.clone()));
    let mut renamed = stage.clone();
    renamed.topic = "renamed talk".to_owned();
    cache
        .update(Event::StageInstanceUpdate(renamed.clone()))
        .unwrap();
    assert_eq!(cache.stage_instance(80).unwrap(), Some(renamed));
    cache
        .update(Event::StageInstanceDelete { id: 80 })
        .unwrap();
    assert_eq!(cache.stage_instance(80).unwrap(), None);
}

#[test]
fn user_update_replaces_the_current_user() {
    let mut cache = MemoryCache::default();
    cache
        .update(Event::Ready {
            user: current_user(500),
        })
        .unwrap();
    let mut renamed = current_user(500);
    renamed.name = "renamed".to_owned();
    cache.update(Event::UserUpdate(renamed.clone())).unwrap();
    assert_eq!(cache.current_user(), Ok(renamed));
}

#[test]
fn thread_events_behave_like_channel_events() {
    let mut cache = MemoryCache::default();
    let mut thread = channel_event(30, Some(1));
    thread.channel.kind = ChannelKind::GuildPublicThread;
    cache.update(Event::ThreadCreate(thread.clone())).unwrap();
    assert!(cache.channel(30).unwrap().is_some());
    cache
        .update(Event::ThreadDelete(sparkle_cache::events::ThreadDelete {
            guild_id: 1,
            id: 30,
            parent_id: Some(2),
        }))
        .unwrap();
    assert_eq!(cache.channel(30).unwrap(), None);
}

#[test]
fn channel_messages_are_ordered_most_recent_first() {
    let mut cache = MemoryCache::default();
    for (id, ts) in [(10u64, 5i64), (11, 9), (12, 7)] {
        cache
            .update(Event::MessageCreate(Message {
                message: message_row(id, 2, ts),
                attachments: Vec::new(),
                sticker_items: Vec::new(),
                embeds: Vec::new(),
            }))
            .unwrap();
    }
    let all = cache.channel_messages(2, 0).unwrap();
    let ids: Vec<u64> = all.iter().map(|m| m.id).collect();
    assert_eq!(ids, vec![11, 12, 10]);
    let limited = cache.channel_messages(2, 2).unwrap();
    assert_eq!(limited.len(), 2);
    assert_eq!(limited[0].id, 11);
}

#[test]
fn known_message_sticker_keeps_its_fields() {
    let mut cache = MemoryCache::default();
    cache
        .update(Event::GuildStickersUpdate {
            guild_id: 1,
            stickers: vec![sparkle_cache::model::Sticker {
                available: true,
                description: Some("a full sticker".to_owned()),
                format_type: 1,
                guild_id: Some(1),
                id: 600,
                kind: 1,
                name: "wave".to_owned(),
                pack_id: None,
                sort_value: None,
                tags: "tags".to_owned(),
                user_id: None,
            }],
        })
        .unwrap();
    cache
        .update(Event::MessageCreate(Message {
            message: message_row(10, 2, 5),
            attachments: Vec::new(),
            sticker_items: vec![MessageSticker {
                format_type: 1,
                id: 600,
                name: "wave".to_owned(),
            }],
            embeds: Vec::new(),
        }))
        .unwrap();
    let sticker = cache.sticker(600).unwrap().unwrap();
    assert_eq!(sticker.message_id, Some(10));
    assert_eq!(sticker.description.as_deref(), Some("a full sticker"));
}

#[test]
fn self_permissions_use_the_current_user() {
    let mut cache = MemoryCache::default();
    setup_guild(&mut cache, SEND_MESSAGES);
    cache
        .update(Event::MemberAdd(Member {
            member: member_row(1, 500),
            roles: Vec::new(),
        }))
        .unwrap();
    let in_guild = cache.self_guild_permissions(1).unwrap();
    assert_eq!(in_guild & SEND_MESSAGES, SEND_MESSAGES);
    let in_channel = cache.self_channel_permissions(2).unwrap();
    assert_eq!(in_channel & SEND_MESSAGES, SEND_MESSAGES);
}

#[test]
fn role_permissions_are_united_into_the_base() {
    let mut cache = MemoryCache::default();
    setup_guild(&mut cache, 0);
    for (role_id, bits) in [(11u64, SEND_MESSAGES), (12, VIEW_CHANNEL)] {
        cache
            .update(Event::RoleCreate {
                guild_id: 1,
                role: role_payload(role_id, bits),
            })
            .unwrap();
    }
    cache
        .update(Event::MemberUpdate(member_update(1, 100, vec![11, 12])))
        .unwrap();
    let permissions = cache.guild_permissions(100, 1).unwrap();
    assert_eq!(permissions & SEND_MESSAGES, SEND_MESSAGES);
    assert_eq!(permissions & VIEW_CHANNEL, VIEW_CHANNEL);
    assert_eq!(permissions & ADMINISTRATOR, 0);
}

#[test]
fn backend_delete_emoji_removes_the_row() {
    let mut cache = MemoryCache::default();
    cache
        .update(Event::GuildEmojisUpdate {
            guild_id: 1,
            emojis: vec![emoji_payload(60, "blob")],
        })
        .unwrap();
    assert!(cache.emoji(60).unwrap().is_some());
    cache.delete_emoji(60).unwrap();
    assert_eq!(cache.emoji(60).unwrap(), None);
}
