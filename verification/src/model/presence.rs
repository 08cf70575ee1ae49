use vstd::prelude::*;

verus! {

/// A member's presence status
#[derive(Clone, Copy, Debug, PartialEq, Eq, Structural)]
pub enum Status {
    DoNotDisturb,
    Idle,
    Invisible,
    Offline,
    Online,
}

/// A cached activity
///
/// It is the same as an activity on the wire except:
///
/// - `user_id` and `guild_id` fields are added, making it possible to return
///   a member's activities
///
/// - `buttons` field is removed, as caching it is likely unnecessary
///
/// - `assets`, `emoji`, `party` and `timestamps` fields are flattened, making
///   this struct easier to cache
///
/// - `secrets` field is removed, as it's not sent to bots
#[derive(Clone, Debug, PartialEq, Eq)]
pub struct CachedActivity {
    pub user_id: u64,
    pub guild_id: u64,
    pub application_id: Option<u64>,
    pub asset_large_image: Option<String>,
    pub asset_large_text: Option<String>,
    pub asset_small_image: Option<String>,
    pub asset_small_text: Option<String>,
    pub created_at: Option<u64>,
    pub details: Option<String>,
    pub emoji_animated: Option<bool>,
    pub emoji_name: Option<String>,
    pub emoji_id: Option<String>,
    pub flags: Option<u64>,
    pub id: Option<String>,
    pub instance: Option<bool>,
    pub kind: u8,
    pub name: String,
    pub party_id: Option<String>,
    pub party_size_current: Option<u64>,
    pub party_size_max: Option<u64>,
    pub state: Option<String>,
    pub timestamp_end: Option<u64>,
    pub timestamp_start: Option<u64>,
    pub url: Option<String>,
}

/// An activity as a presence payload carries it, before the owning user and
/// guild IDs are attached
#[derive(Clone, Debug, PartialEq, Eq)]
pub struct Activity {
    pub application_id: Option<u64>,
    pub asset_large_image: Option<String>,
    pub asset_large_text: Option<String>,
    pub asset_small_image: Option<String>,
    pub asset_small_text: Option<String>,
    pub created_at: Option<u64>,
    pub details: Option<String>,
    pub emoji_animated: Option<bool>,
    pub emoji_name: Option<String>,
    pub emoji_id: Option<String>,
    pub flags: Option<u64>,
    pub id: Option<String>,
    pub instance: Option<bool>,
    pub kind: u8,
    pub name: String,
    pub party_id: Option<String>,
    pub party_size_current: Option<u64>,
    pub party_size_max: Option<u64>,
    pub state: Option<String>,
    pub timestamp_end: Option<u64>,
    pub timestamp_start: Option<u64>,
    pub url: Option<String>,
}

impl CachedActivity {
    /// What [`Self::from_activity`] returns
    pub open spec fn spec_from_activity(activity: Activity, user_id: u64, guild_id: u64) -> Self {
        CachedActivity {
            user_id,
            guild_id,
            application_id: activity.application_id,
            asset_large_image: activity.asset_large_image,
            asset_large_text: activity.asset_large_text,
            asset_small_image: activity.asset_small_image,
            asset_small_text: activity.asset_small_text,
            created_at: activity.created_at,
            details: activity.details,
            emoji_animated: activity.emoji_animated,
            emoji_name: activity.emoji_name,
            emoji_id: activity.emoji_id,
            flags: activity.flags,
            id: activity.id,
            instance: activity.instance,
            kind: activity.kind,
            name: activity.name,
            party_id: activity.party_id,
            party_size_current: activity.party_size_current,
            party_size_max: activity.party_size_max,
            state: activity.state,
            timestamp_end: activity.timestamp_end,
            timestamp_start: activity.timestamp_start,
            url: activity.url,
        }
    }

    /// Create a cached activity from a given activity, user ID and guild ID
    pub fn from_activity(activity: Activity, user_id: u64, guild_id: u64) -> (r: Self)
        ensures
            r == Self::spec_from_activity(activity, user_id, guild_id),
    {
        Self {
            user_id,
            guild_id,
            application_id: activity.application_id,
            asset_large_image: activity.asset_large_image,
            asset_large_text: activity.asset_large_text,
            asset_small_image: activity.asset_small_image,
            asset_small_text: activity.asset_small_text,
            created_at: activity.created_at,
            details: activity.details,
            emoji_animated: activity.emoji_animated,
            emoji_name: activity.emoji_name,
            emoji_id: activity.emoji_id,
            flags: activity.flags,
            id: activity.id,
            instance: activity.instance,
            kind: activity.kind,
            name: activity.name,
            party_id: activity.party_id,
            party_size_current: activity.party_size_current,
            party_size_max: activity.party_size_max,
            state: activity.state,
            timestamp_end: activity.timestamp_end,
            timestamp_start: activity.timestamp_start,
            url: activity.url,
        }
    }
}

/// A cached presence
///
/// It's the same as a presence on the wire except:
///
/// - `user` field is changed to a user ID, since users are cached separately
///
/// - `client_status` field is removed, as caching it is likely unnecessary
///
/// - `activities` field is removed, since they're cached separately
#[derive(Clone, Copy, Debug, PartialEq, Eq, Structural)]
pub struct CachedPresence {
    pub guild_id: u64,
    pub status: Status,
    pub user: u64,
}

/// A presence as a delta event carries it: the cached row plus the
/// activities, which are cached separately
#[derive(Clone, Debug, PartialEq, Eq)]
pub struct Presence {
    /// The presence row itself
    pub presence: CachedPresence,
    /// The member's activities
    pub activities: Vec<Activity>,
}

} // verus!
