use vstd::prelude::*;

use crate::model::channel::Channel;
use crate::model::emoji::Emoji;
use crate::model::member::Member;
use crate::model::presence::Presence;
use crate::model::role::Role;
use crate::model::stage::CachedStageInstance;
use crate::model::sticker::Sticker;

verus! {

/// A cached guild
///
/// It's the same as a guild on the wire except:
///
/// - `channels`, `threads`, `members`, `roles`, `emojis`, `stickers`,
///   `presences` and `stage_instances` fields are removed, as they're cached
///   separately
///
/// - `member_count` field is removed, as keeping it up-to-date would add
///   unnecessary caching overhead
///
/// - `voice_states` field is removed, as voice-related caching is not handled
///   by this library
#[derive(Clone, Debug, PartialEq, Eq)]
pub struct CachedGuild {
    pub afk_channel_id: Option<u64>,
    pub afk_timeout: u64,
    pub application_id: Option<u64>,
    pub banner: Option<String>,
    pub default_message_notifications: u8,
    pub description: Option<String>,
    pub discovery_splash: Option<String>,
    pub explicit_content_filter: u8,
    pub features: Vec<String>,
    pub icon: Option<String>,
    pub id: u64,
    pub joined_at: Option<i64>,
    pub large: bool,
    pub max_members: Option<u64>,
    pub max_presences: Option<u64>,
    pub max_video_channel_users: Option<u64>,
    pub mfa_level: u8,
    pub name: String,
    pub nsfw_level: u8,
    pub owner_id: u64,
    pub owner: Option<bool>,
    pub permissions: Option<u64>,
    pub preferred_locale: String,
    pub premium_progress_bar_enabled: bool,
    pub premium_subscription_count: Option<u64>,
    pub premium_tier: u8,
    pub rules_channel_id: Option<u64>,
    pub splash: Option<String>,
    pub system_channel_flags: u64,
    pub system_channel_id: Option<u64>,
    pub unavailable: bool,
    pub vanity_url_code: Option<String>,
    pub verification_level: u8,
    pub widget_channel_id: Option<u64>,
    pub widget_enabled: Option<bool>,
}

/// A guild snapshot as a guild-create event carries it: the guild row plus
/// every owned collection
#[derive(Clone, Debug, PartialEq, Eq)]
pub struct Guild {
    /// The guild row itself
    pub guild: CachedGuild,
    /// The guild's channels
    pub channels: Vec<Channel>,
    /// The guild's threads
    pub threads: Vec<Channel>,
    /// The guild's emojis
    pub emojis: Vec<Emoji>,
    /// The guild's stickers
    pub stickers: Vec<Sticker>,
    /// The guild's members, each with their role IDs
    pub members: Vec<Member>,
    /// The guild's presences
    pub presences: Vec<Presence>,
    /// The guild's roles
    pub roles: Vec<Role>,
    /// The guild's stage instances
    pub stage_instances: Vec<CachedStageInstance>,
}

/// A partial guild-update payload
#[derive(Clone, Debug, PartialEq, Eq)]
pub struct PartialGuild {
    pub id: u64,
    pub afk_channel_id: Option<u64>,
    pub afk_timeout: u64,
    pub application_id: Option<u64>,
    pub banner: Option<String>,
    pub default_message_notifications: u8,
    pub description: Option<String>,
    pub discovery_splash: Option<String>,
    pub explicit_content_filter: u8,
    pub features: Vec<String>,
    pub icon: Option<String>,
    pub max_members: Option<u64>,
    pub max_presences: Option<u64>,
    pub mfa_level: u8,
    pub name: String,
    pub nsfw_level: u8,
    pub owner_id: u64,
    pub owner: Option<bool>,
    pub permissions: Option<u64>,
    pub preferred_locale: String,
    pub premium_progress_bar_enabled: bool,
    pub premium_subscription_count: Option<u64>,
    pub premium_tier: u8,
    pub rules_channel_id: Option<u64>,
    pub splash: Option<String>,
    pub system_channel_flags: u64,
    pub system_channel_id: Option<u64>,
    pub verification_level: u8,
    pub vanity_url_code: Option<String>,
    pub widget_channel_id: Option<u64>,
    pub widget_enabled: Option<bool>,
}

impl CachedGuild {
    /// What a guild row is after applying the partial update `guild`: the
    /// fields the payload carries are replaced, every other field is kept
    /// (`joined_at`, `large`, `max_video_channel_users` and `unavailable`
    /// among them)
    pub open spec fn spec_update(old: CachedGuild, guild: PartialGuild) -> CachedGuild {
        CachedGuild {
            id: guild.id,
            afk_channel_id: guild.afk_channel_id,
            afk_timeout: guild.afk_timeout,
            application_id: guild.application_id,
            banner: guild.banner,
            default_message_notifications: guild.default_message_notifications,
            description: guild.description,
            discovery_splash: guild.discovery_splash,
            explicit_content_filter: guild.explicit_content_filter,
            features: guild.features,
            icon: guild.icon,
            max_members: guild.max_members,
            max_presences: guild.max_presences,
            mfa_level: guild.mfa_level,
            name: guild.name,
            nsfw_level: guild.nsfw_level,
            owner_id: guild.owner_id,
            owner: guild.owner,
            permissions: guild.permissions,
            preferred_locale: guild.preferred_locale,
            premium_progress_bar_enabled: guild.premium_progress_bar_enabled,
            premium_subscription_count: guild.premium_subscription_count,
            premium_tier: guild.premium_tier,
            rules_channel_id: guild.rules_channel_id,
            splash: guild.splash,
            system_channel_flags: guild.system_channel_flags,
            system_channel_id: guild.system_channel_id,
            verification_level: guild.verification_level,
            vanity_url_code: guild.vanity_url_code,
            widget_channel_id: guild.widget_channel_id,
            widget_enabled: guild.widget_enabled,
            ..old
        }
    }

    /// Update the cached guild with the partial guild
    pub fn update(&mut self, guild: PartialGuild)
        ensures
            *final(self) == Self::spec_update(*old(self), guild),
    {
        self.id = guild.id;
        self.afk_channel_id = guild.afk_channel_id;
        self.afk_timeout = guild.afk_timeout;
        self.application_id = guild.application_id;
        self.banner = guild.banner;
        self.default_message_notifications = guild.default_message_notifications;
        self.description = guild.description;
        self.discovery_splash = guild.discovery_splash;
        self.explicit_content_filter = guild.explicit_content_filter;
        self.features = guild.features;
        self.icon = guild.icon;
        self.max_members = guild.max_members;
        self.max_presences = guild.max_presences;
        self.mfa_level = guild.mfa_level;
        self.name = guild.name;
        self.nsfw_level = guild.nsfw_level;
        self.owner_id = guild.owner_id;
        self.owner = guild.owner;
        self.permissions = guild.permissions;
        self.preferred_locale = guild.preferred_locale;
        self.premium_progress_bar_enabled = guild.premium_progress_bar_enabled;
        self.premium_subscription_count = guild.premium_subscription_count;
        self.premium_tier = guild.premium_tier;
        self.rules_channel_id = guild.rules_channel_id;
        self.splash = guild.splash;
        self.system_channel_flags = guild.system_channel_flags;
        self.system_channel_id = guild.system_channel_id;
        self.verification_level = guild.verification_level;
        self.vanity_url_code = guild.vanity_url_code;
        self.widget_channel_id = guild.widget_channel_id;
        self.widget_enabled = guild.widget_enabled;
    }
}

} // verus!
