use vstd::prelude::*;

verus! {

/// Whether a permission overwrite targets a role or a single member
#[derive(Clone, Copy, Debug, PartialEq, Eq, Structural)]
pub enum OverwriteKind {
    /// The overwrite applies to everyone holding a given role
    Role,
    /// The overwrite applies to a single member
    Member,
}

/// The kind of a channel, as the remote service classifies them
#[derive(Clone, Copy, Debug, PartialEq, Eq, Structural)]
pub enum ChannelKind {
    GuildText,
    /// A direct-message channel between the current user and one recipient
    Private,
    GuildVoice,
    /// A direct-message channel with several recipients
    Group,
    GuildCategory,
    GuildNews,
    GuildNewsThread,
    GuildPublicThread,
    GuildPrivateThread,
    GuildStageVoice,
    GuildDirectory,
    GuildForum,
    /// A kind this library does not know; the raw code is kept
    Unknown(u8),
}

/// Thread-only channel metadata, flattened to plain values
#[derive(Clone, Copy, Debug, PartialEq, Eq, Structural)]
pub struct ThreadMetadata {
    pub archived: bool,
    pub auto_archive_duration: u16,
    pub archive_timestamp: i64,
    pub create_timestamp: Option<i64>,
    pub invitable: Option<bool>,
    pub locked: bool,
}

/// A cached permission overwrite
///
/// It's the same as a permission overwrite on the wire except:
///
/// - `channel_id` field is added, making it possible to return a channel's
///   permission overwrites
#[derive(Clone, Copy, Debug, PartialEq, Eq, Structural)]
pub struct CachedPermissionOverwrite {
    pub channel_id: u64,
    pub allow: u64,
    pub deny: u64,
    pub id: u64,
    pub kind: OverwriteKind,
}

/// A permission overwrite as a channel payload carries it, before the owning
/// channel's ID is attached
#[derive(Clone, Copy, Debug, PartialEq, Eq, Structural)]
pub struct PermissionOverwrite {
    pub allow: u64,
    pub deny: u64,
    pub id: u64,
    pub kind: OverwriteKind,
}

impl CachedPermissionOverwrite {
    /// What [`Self::from_permission_overwrite`] returns
    pub open spec fn spec_from_permission_overwrite(
        permission_overwrite: PermissionOverwrite,
        channel_id: u64,
    ) -> Self {
        CachedPermissionOverwrite {
            channel_id,
            allow: permission_overwrite.allow,
            deny: permission_overwrite.deny,
            id: permission_overwrite.id,
            kind: permission_overwrite.kind,
        }
    }

    /// Create a cached permission overwrite from a given permission overwrite
    /// and channel ID
    pub fn from_permission_overwrite(
        permission_overwrite: &PermissionOverwrite,
        channel_id: u64,
    ) -> (r: Self)
        ensures
            r == Self::spec_from_permission_overwrite(*permission_overwrite, channel_id),
    {
        Self {
            channel_id,
            allow: permission_overwrite.allow,
            deny: permission_overwrite.deny,
            id: permission_overwrite.id,
            kind: permission_overwrite.kind,
        }
    }
}

/// A cached channel
///
/// It's the same as a channel on the wire except:
///
/// - `recipients` field is removed, as it's only sent in DM channels, which
///   are cached separately
///
/// - `permission_overwrites` field is removed, as they're cached separately
///
/// - `last_message_id`, `last_pin_timestamp`, `member_count` and
///   `message_count` fields are removed, as keeping them up-to-date would add
///   unnecessary caching overhead
#[derive(Clone, Debug, PartialEq, Eq)]
pub struct CachedChannel {
    pub application_id: Option<u64>,
    pub bitrate: Option<u32>,
    pub default_auto_archive_duration: Option<u16>,
    pub guild_id: Option<u64>,
    pub icon: Option<String>,
    pub id: u64,
    pub invitable: Option<bool>,
    pub kind: ChannelKind,
    pub name: Option<String>,
    pub nsfw: Option<bool>,
    pub owner_id: Option<u64>,
    pub parent_id: Option<u64>,
    pub position: Option<i32>,
    pub rate_limit_per_user: Option<u16>,
    pub rtc_region: Option<String>,
    pub thread_metadata: Option<ThreadMetadata>,
    pub topic: Option<String>,
    pub user_limit: Option<u32>,
    pub video_quality_mode: Option<u8>,
}

/// A channel as a delta event carries it: the cached row plus the wire-only
/// fields that the synchronizer consumes (overwrites and DM recipients)
#[derive(Clone, Debug, PartialEq, Eq)]
pub struct Channel {
    /// The channel row itself
    pub channel: CachedChannel,
    /// The channel's permission overwrites, when the payload carries them
    pub permission_overwrites: Option<Vec<PermissionOverwrite>>,
    /// The user IDs of a DM channel's recipients, when the payload carries
    /// them
    pub recipients: Option<Vec<u64>>,
}

} // verus!
