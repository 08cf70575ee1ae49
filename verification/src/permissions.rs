use vstd::prelude::*;

use crate::cache::Error;
use crate::model::{CachedChannel, CachedMember, OverwriteKind};
use crate::state::CacheModel;

verus! {

/// The administrator bit: it bypasses every overwrite and restriction
pub const ADMINISTRATOR: u64 = 1u64 << 3;

/// The bit allowing a channel to be seen
pub const VIEW_CHANNEL: u64 = 1u64 << 10;

/// The bit allowing messages to be sent
pub const SEND_MESSAGES: u64 = 1u64 << 11;

/// The bit allowing old messages to be read
pub const READ_MESSAGE_HISTORY: u64 = 1u64 << 16;

/// Every permission bit, what owners and administrators hold
pub const ALL_PERMISSIONS: u64 = u64::MAX;

/// What remains to a member who is timed out
pub const TIMEOUT_PERMISSIONS: u64 = (1u64 << 10) | (1u64 << 16);

/// The OR of `bits` over every element of a finite set; 0 for an infinite
/// set, which no reachable cache state produces
pub open spec fn or_over<K>(ks: Set<K>, bits: spec_fn(K) -> u64) -> u64
    decreases ks.len() when ks.finite()
{
    if ks.finite() && ks.len() != 0 {
        let k = ks.choose();
        bits(k) | or_over(ks.remove(k), bits)
    } else {
        0
    }
}

/// Folding one more element into an OR-union is an OR, whichever element the
/// fold picks first
pub proof fn lemma_or_over_insert<K>(ks: Set<K>, bits: spec_fn(K) -> u64, k: K)
    requires
        ks.finite(),
        !ks.contains(k),
    ensures
        or_over(ks.insert(k), bits) == bits(k) | or_over(ks, bits),
    decreases ks.len(),
{
    let s1 = ks.insert(k);
    assert(s1.finite());
    assert(s1.len() == ks.len() + 1);
    let c = s1.choose();
    assert(s1.contains(c));
    if c == k {
        assert(s1.remove(c) =~= ks);
    } else {
        assert(ks.contains(c));
        let ks2 = ks.remove(c);
        assert(s1.remove(c) =~= ks2.insert(k));
        lemma_or_over_insert(ks2, bits, k);
        assert(ks =~= ks2.insert(c));
        lemma_or_over_insert(ks2, bits, c);
        let a = bits(c);
        let b = bits(k);
        let x = or_over(ks2, bits);
        assert(a | (b | x) == b | (a | x)) by (bit_vector);
    }
}

/// The permission bits of a role row, as a projection for [`or_over`]
pub open spec fn role_perm_bits(m: CacheModel) -> spec_fn((u64, Option<u64>)) -> u64 {
    |k: (u64, Option<u64>)| m.roles[k].permissions
}

/// The allow bits of an overwrite, as a projection for [`or_over`]
pub open spec fn overwrite_allow_bits(m: CacheModel) -> spec_fn((u64, u64)) -> u64 {
    |k: (u64, u64)| m.overwrites[k].allow
}

/// The deny bits of an overwrite, as a projection for [`or_over`]
pub open spec fn overwrite_deny_bits(m: CacheModel) -> spec_fn((u64, u64)) -> u64 {
    |k: (u64, u64)| m.overwrites[k].deny
}

/// The keys of the role-assignment rows of a member in a guild
pub open spec fn member_role_keys(m: CacheModel, guild_id: u64, user_id: u64) -> Set<
    (u64, Option<u64>),
> {
    Set::new(
        |k: (u64, Option<u64>)|
            k.1 == Some(user_id) && m.roles.contains_key(k) && m.roles[k].guild_id == guild_id,
    )
}

/// The base permissions of a member in a guild: the everyone role's bits
/// OR'd with the bits of every role the member holds
pub open spec fn spec_base_permissions(m: CacheModel, guild_id: u64, user_id: u64) -> u64 {
    m.roles[(guild_id, None)].permissions | or_over(
        member_role_keys(m, guild_id, user_id),
        role_perm_bits(m),
    )
}

/// Applying one allow/deny pair: denied bits are cleared, then allowed bits
/// are set, so the allow of a step beats its own deny and later steps beat
/// earlier ones
pub open spec fn apply_overwrite_pair(base: u64, deny: u64, allow: u64) -> u64 {
    (base & !deny) | allow
}

/// The allow and deny bits of the everyone overwrite of a channel: the
/// role-kind overwrite whose ID is the guild's, or nothing
pub open spec fn everyone_overwrite_bits(m: CacheModel, channel_id: u64, guild_id: u64) -> (
    u64,
    u64,
) {
    if m.overwrites.contains_key((channel_id, guild_id)) && m.overwrites[
        (channel_id, guild_id)
    ].kind == OverwriteKind::Role {
        (m.overwrites[(channel_id, guild_id)].allow, m.overwrites[(channel_id, guild_id)].deny)
    } else {
        (0, 0)
    }
}

/// The keys of the role-kind overwrites of a channel that apply to a member:
/// their role is one the member holds in the guild, and not the everyone
/// role, which is applied on its own
pub open spec fn role_overwrite_keys(
    m: CacheModel,
    channel_id: u64,
    guild_id: u64,
    user_id: u64,
) -> Set<(u64, u64)> {
    Set::new(
        |k: (u64, u64)|
            k.0 == channel_id && m.overwrites.contains_key(k) && m.overwrites[k].kind
                == OverwriteKind::Role && k.1 != guild_id && m.roles.contains_key(
                (k.1, Some(user_id)),
            ) && m.roles[(k.1, Some(user_id))].guild_id == guild_id,
    )
}

/// The allow and deny bits of the member-specific overwrite of a channel, or
/// nothing
pub open spec fn member_overwrite_bits(m: CacheModel, channel_id: u64, user_id: u64) -> (
    u64,
    u64,
) {
    if m.overwrites.contains_key((channel_id, user_id)) && m.overwrites[
        (channel_id, user_id)
    ].kind == OverwriteKind::Member {
        (m.overwrites[(channel_id, user_id)].allow, m.overwrites[(channel_id, user_id)].deny)
    } else {
        (0, 0)
    }
}

/// The permissions of a member in a channel: the base permissions with the
/// channel's overwrites applied in the documented order — everyone first,
/// then the union of the member's role overwrites, then the member-specific
/// overwrite, each one deny-then-allow
pub open spec fn spec_channel_permissions(
    m: CacheModel,
    base: u64,
    channel_id: u64,
    guild_id: u64,
    user_id: u64,
) -> u64 {
    let (everyone_allow, everyone_deny) = everyone_overwrite_bits(m, channel_id, guild_id);
    let after_everyone = apply_overwrite_pair(base, everyone_deny, everyone_allow);
    let role_keys = role_overwrite_keys(m, channel_id, guild_id, user_id);
    let roles_allow = or_over(role_keys, overwrite_allow_bits(m));
    let roles_deny = or_over(role_keys, overwrite_deny_bits(m));
    let after_roles = apply_overwrite_pair(after_everyone, roles_deny, roles_allow);
    let (member_allow, member_deny) = member_overwrite_bits(m, channel_id, user_id);
    apply_overwrite_pair(after_roles, member_deny, member_allow)
}

/// The permission resolver, as a mathematical function: the permissions of a
/// member, in a guild or down in one of its channels, at the wall-clock time
/// `now`, or the error that rejects the query
///
/// The guild, its everyone role and the member must be cached; the guild's
/// owner and members whose base permissions carry the administrator bit hold
/// every permission, untouched by overwrites and timeouts; a timed-out
/// member keeps at most the timeout permissions; a timeout timestamp that is
/// no valid point in time is an error of its own
pub open spec fn spec_resolve<E>(
    m: CacheModel,
    user_id: u64,
    guild_id: u64,
    channel: Option<CachedChannel>,
    now: i64,
) -> Result<u64, Error<E>> {
    if !m.guilds.contains_key(guild_id) {
        Err(Error::PermissionsGuildMissing(guild_id))
    } else if !m.roles.contains_key((guild_id, None)) {
        Err(Error::PermissionsGuildEveryoneRoleMissing(guild_id))
    } else {
        let guild = m.guilds[guild_id];
        let base = spec_base_permissions(m, guild_id, user_id);
        let calculated = if user_id == guild.owner_id || base & ADMINISTRATOR != 0 {
            ALL_PERMISSIONS
        } else {
            match channel {
                None => base,
                Some(ch) => spec_channel_permissions(m, base, ch.id, guild_id, user_id),
            }
        };
        if !m.members.contains_key((guild_id, user_id)) {
            Err(Error::PermissionsMemberMissing { user_id, guild_id })
        } else {
            let member = m.members[(guild_id, user_id)];
            if calculated & ADMINISTRATOR != 0 {
                Ok(calculated)
            } else {
                match CachedMember::spec_communication_disabled(member, now) {
                    Err(_) => Err(Error::MemberBadTimeoutTimestamp(member)),
                    Ok(true) => Ok(calculated & TIMEOUT_PERMISSIONS),
                    Ok(false) => Ok(calculated),
                }
            }
        }
    }
}

/// The permission resolver entered through a channel: the channel must be
/// cached and belong to a guild, and the member's permissions are resolved
/// down in it
pub open spec fn spec_channel_resolve<E>(
    m: CacheModel,
    user_id: u64,
    channel_id: u64,
    now: i64,
) -> Result<u64, Error<E>> {
    if !m.channels.contains_key(channel_id) {
        Err(Error::PermissionsChannelMissing(channel_id))
    } else {
        let channel = m.channels[channel_id];
        match channel.guild_id {
            None => Err(Error::PermissionsChannelNotInGuild(channel)),
            Some(guild_id) => spec_resolve(m, user_id, guild_id, Some(channel), now),
        }
    }
}

} // verus!
