use vstd::prelude::*;

verus! {

/// A cached emoji
///
/// It's the same as an emoji on the wire except:
///
/// - `guild_id` field is added, making it possible to return a guild's emojis
///
/// - `user` field is changed to a user ID, as users are cached separately
///
/// - `roles` field is removed, as caching it is likely unnecessary
#[derive(Clone, Debug, PartialEq, Eq)]
pub struct CachedEmoji {
    pub guild_id: u64,
    pub animated: bool,
    pub available: bool,
    pub id: u64,
    pub managed: bool,
    pub name: String,
    pub require_colons: bool,
    pub user: Option<u64>,
}

/// An emoji as a delta event carries it, before the owning guild's ID is
/// attached
#[derive(Clone, Debug, PartialEq, Eq)]
pub struct Emoji {
    pub animated: bool,
    pub available: bool,
    pub id: u64,
    pub managed: bool,
    pub name: String,
    pub require_colons: bool,
    pub user: Option<u64>,
}

impl CachedEmoji {
    /// What [`Self::from_emoji`] returns
    pub open spec fn spec_from_emoji(emoji: Emoji, guild_id: u64) -> Self {
        CachedEmoji {
            guild_id,
            animated: emoji.animated,
            available: emoji.available,
            id: emoji.id,
            managed: emoji.managed,
            name: emoji.name,
            require_colons: emoji.require_colons,
            user: emoji.user,
        }
    }

    /// Create a cached emoji from a given emoji and guild ID
    pub fn from_emoji(emoji: Emoji, guild_id: u64) -> (r: Self)
        ensures
            r == Self::spec_from_emoji(emoji, guild_id),
    {
        Self {
            guild_id,
            animated: emoji.animated,
            available: emoji.available,
            id: emoji.id,
            managed: emoji.managed,
            name: emoji.name,
            require_colons: emoji.require_colons,
            user: emoji.user,
        }
    }
}

} // verus!
