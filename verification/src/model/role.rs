use vstd::prelude::*;

verus! {

/// A cached role
///
/// It's the same as a role on the wire except:
///
/// - `guild_id` field is added, making it possible to return a guild's roles
///
/// - `user_id` field is added, making it possible to return a member's roles:
///   a row with `user_id` absent is the guild-level role definition, a row
///   with it present records that the member holds the role
///
/// - `tags` field is flattened, making this struct easier to cache
#[derive(Clone, Debug, PartialEq, Eq)]
pub struct CachedRole {
    pub guild_id: u64,
    pub user_id: Option<u64>,
    pub color: u32,
    pub hoist: bool,
    pub icon: Option<String>,
    pub id: u64,
    pub managed: bool,
    pub mentionable: bool,
    pub name: String,
    pub permissions: u64,
    pub position: i64,
    pub tags_bot_id: Option<u64>,
    pub tags_integration_id: Option<u64>,
    pub tags_premium_subscriber: Option<bool>,
    pub unicode_emoji: Option<String>,
}

/// A role as a delta event carries it, before the owning guild's ID is
/// attached
#[derive(Clone, Debug, PartialEq, Eq)]
pub struct Role {
    pub color: u32,
    pub hoist: bool,
    pub icon: Option<String>,
    pub id: u64,
    pub managed: bool,
    pub mentionable: bool,
    pub name: String,
    pub permissions: u64,
    pub position: i64,
    pub tags_bot_id: Option<u64>,
    pub tags_integration_id: Option<u64>,
    pub tags_premium_subscriber: Option<bool>,
    pub unicode_emoji: Option<String>,
}

impl CachedRole {
    /// What [`Self::from_role`] returns: the guild-level definition row, with
    /// `user_id` absent
    pub open spec fn spec_from_role(role: Role, guild_id: u64) -> Self {
        CachedRole {
            guild_id,
            user_id: None,
            color: role.color,
            hoist: role.hoist,
            icon: role.icon,
            id: role.id,
            managed: role.managed,
            mentionable: role.mentionable,
            name: role.name,
            permissions: role.permissions,
            position: role.position,
            tags_bot_id: role.tags_bot_id,
            tags_integration_id: role.tags_integration_id,
            tags_premium_subscriber: role.tags_premium_subscriber,
            unicode_emoji: role.unicode_emoji,
        }
    }

    /// Create a cached role from a given role and guild ID
    pub fn from_role(role: Role, guild_id: u64) -> (r: Self)
        ensures
            r == Self::spec_from_role(role, guild_id),
    {
        Self {
            guild_id,
            user_id: None,
            color: role.color,
            hoist: role.hoist,
            icon: role.icon,
            id: role.id,
            managed: role.managed,
            mentionable: role.mentionable,
            name: role.name,
            permissions: role.permissions,
            position: role.position,
            tags_bot_id: role.tags_bot_id,
            tags_integration_id: role.tags_integration_id,
            tags_premium_subscriber: role.tags_premium_subscriber,
            unicode_emoji: role.unicode_emoji,
        }
    }
}

} // verus!
