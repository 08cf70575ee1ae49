use vstd::prelude::*;

use crate::backend::Backend;
use crate::events::Event;
use crate::model::{
    CachedActivity, CachedAttachment, CachedChannel, CachedCurrentUser, CachedEmbed,
    CachedEmbedField, CachedEmoji, CachedGuild, CachedMember, CachedMessage,
    CachedPermissionOverwrite, CachedPresence, CachedReaction, CachedRole, CachedStageInstance,
    CachedSticker, Channel, ChannelKind, Member, OverwriteKind,
};
use crate::permissions::{
    member_role_keys, member_overwrite_bits, everyone_overwrite_bits, or_over, role_perm_bits,
    overwrite_allow_bits, overwrite_deny_bits, role_overwrite_keys, spec_base_permissions,
    spec_channel_permissions, spec_channel_resolve, spec_resolve, lemma_or_over_insert,
    ADMINISTRATOR, ALL_PERMISSIONS, TIMEOUT_PERMISSIONS,
};
use crate::state::CacheModel;
use crate::sync::{
    apply_channel, apply_channels, apply_member_roles, apply_members, apply_emojis,
    apply_stickers, apply_presence_rows, apply_roles, apply_stages, apply_attachments,
    apply_message_stickers, apply_embed_fields, apply_embeds, apply_message_delete,
    apply_message_delete_bulk, apply_activities, minted_ids, spec_apply, spec_find_recipient,
    apply_overwrites,
};

verus! {

broadcast use vstd::std_specs::control_flow::group_control_flow_axioms;

/// Wraps what the backend returned, lifting its error into [`Error::Backend`]
fn from_backend<T, E>(r: Result<T, E>) -> (r2: Result<T, Error<E>>)
    ensures
        match r2 {
            Ok(v) => r == Ok::<T, E>(v),
            Err(Error::Backend(e)) => r == Err::<T, E>(e),
            Err(_) => false,
        },
{
    match r {
        Ok(v) => Ok(v),
        Err(e) => Err(Error::Backend(e)),
    }
}

/// Copies a list of IDs
fn copy_ids(ids: &Vec<u64>) -> (r: Vec<u64>)
    ensures
        r@ == ids@,
{
    let mut r: Vec<u64> = Vec::new();
    let mut i: usize = 0;
    while i < ids.len()
        invariant
            i <= ids@.len(),
            r@ == ids@.take(i as int),
        decreases ids@.len() - i,
    {
        r.push(ids[i]);
        proof {
            assert(ids@.take(i as int).push(ids@[i as int]) =~= ids@.take(i as int + 1));
        }
        i = i + 1;
    }
    proof {
        assert(ids@.take(ids@.len() as int) =~= ids@);
    }
    r
}

/// The permission-overwrite keys of the first `n` channels in the list
spec fn prefix_channel_overwrite_keys(channels: Seq<CachedChannel>, n: int) -> Set<(u64, u64)> {
    Set::new(|k: (u64, u64)| exists|j: int| 0 <= j < n && channels[j].id == k.0)
}

/// The embed IDs of the first `n` embed pairs in the list
spec fn prefix_embed_ids(pairs: Seq<(CachedEmbed, Vec<CachedEmbedField>)>, n: int) -> Set<u64> {
    Set::new(|id: u64| exists|j: int| 0 <= j < n && pairs[j].0.id == id)
}

/// The assignment keys of the first `n` roles in the member's role list
spec fn prefix_member_keys(list: Seq<CachedRole>, n: int, user_id: u64) -> Set<
    (u64, Option<u64>),
> {
    Set::new(
        |k: (u64, Option<u64>)| exists|j: int| 0 <= j < n && k == (list[j].id, Some(user_id)),
    )
}

/// Whether the role list carries a role with the given ID
spec fn vec_holds_role(list: Seq<CachedRole>, role_id: u64) -> bool {
    exists|j: int| 0 <= j < list.len() && list[j].id == role_id
}

/// The keys of the role-kind overwrites among the first `n` that apply to
/// the member holding the listed roles
spec fn prefix_overwrite_role_keys(
    overwrites: Seq<CachedPermissionOverwrite>,
    n: int,
    channel_id: u64,
    guild_id: u64,
    roles: Seq<CachedRole>,
) -> Set<(u64, u64)> {
    Set::new(
        |k: (u64, u64)|
            k.0 == channel_id && k.1 != guild_id && vec_holds_role(roles, k.1) && exists|j: int|
                0 <= j < n && overwrites[j].id == k.1 && overwrites[j].kind == OverwriteKind::Role,
    )
}

/// OR the permissions of the member's listed roles into the everyone role's
/// bits, computing the member's base permissions
fn fold_base_permissions(
    everyone_permissions: u64,
    member_role_list: &Vec<CachedRole>,
    guild_id: u64,
    user_id: u64,
    Ghost(m): Ghost<CacheModel>,
) -> (r: u64)
    requires
        m.roles.contains_key((guild_id, None)),
        m.roles[(guild_id, None)].permissions == everyone_permissions,
        forall|j: int|
            0 <= j < member_role_list@.len() ==> {
                let role = #[trigger] member_role_list@[j];
                &&& role.user_id == Some(user_id)
                &&& role.guild_id == guild_id
                &&& m.roles.contains_key((role.id, Some(user_id)))
                &&& m.roles[(role.id, Some(user_id))] == role
            },
        forall|id: u64|
            m.roles.contains_key((id, Some(user_id))) && (#[trigger] m.roles[
                (id, Some(user_id))
            ]).guild_id == guild_id ==> exists|j: int|
                0 <= j < member_role_list@.len() && member_role_list@[j].id == id,
        forall|j: int, j2: int|
            0 <= j < member_role_list@.len() && 0 <= j2 < member_role_list@.len() && j != j2
                ==> #[trigger] member_role_list@[j].id != #[trigger] member_role_list@[j2].id,
    ensures
        r == spec_base_permissions(m, guild_id, user_id),
{
    let ghost rlist = member_role_list@;
    let mut base = everyone_permissions;
    let mut i: usize = 0;
    proof {
        assert(prefix_member_keys(rlist, 0, user_id) =~= Set::<(u64, Option<u64>)>::empty());
        let e = everyone_permissions;
        assert(e | 0u64 == e) by (bit_vector);
    }
    while i < member_role_list.len()
        invariant
            i <= rlist.len(),
            member_role_list@ == rlist,
            forall|j: int|
                0 <= j < rlist.len() ==> {
                    let role = #[trigger] rlist[j];
                    &&& role.user_id == Some(user_id)
                    &&& role.guild_id == guild_id
                    &&& m.roles.contains_key((role.id, Some(user_id)))
                    &&& m.roles[(role.id, Some(user_id))] == role
                },
            forall|j: int, j2: int|
                0 <= j < rlist.len() && 0 <= j2 < rlist.len() && j != j2
                    ==> #[trigger] rlist[j].id != #[trigger] rlist[j2].id,
            prefix_member_keys(rlist, i as int, user_id).finite(),
            base == everyone_permissions | or_over(
                prefix_member_keys(rlist, i as int, user_id),
                role_perm_bits(m),
            ),
        decreases rlist.len() - i,
    {
        let perms = member_role_list[i].permissions;
        proof {
            let prev = prefix_member_keys(rlist, i as int, user_id);
            let newkey = (rlist[i as int].id, Some(user_id));
            assert(!prev.contains(newkey)) by {
                if prev.contains(newkey) {
                    let j = choose|j: int| 0 <= j < i && newkey == (rlist[j].id, Some(user_id));
                    assert(rlist[j].id != rlist[i as int].id);
                }
            }
            assert forall|k: (u64, Option<u64>)|
                prefix_member_keys(rlist, i as int + 1, user_id).contains(k) <==> prev.insert(
                    newkey,
                ).contains(k) by {
                if prefix_member_keys(rlist, i as int + 1, user_id).contains(k) {
                    let j = choose|j: int| 0 <= j < i + 1 && k == (rlist[j].id, Some(user_id));
                    if j < i {
                        assert(prev.contains(k));
                    }
                }
                if prev.insert(newkey).contains(k) {
                    if prev.contains(k) {
                        let j = choose|j: int| 0 <= j < i && k == (rlist[j].id, Some(user_id));
                        assert(0 <= j < i + 1 && k == (rlist[j].id, Some(user_id)));
                    } else {
                        assert(0 <= i < i + 1 && k == (rlist[i as int].id, Some(user_id)));
                    }
                }
            }
            assert(prefix_member_keys(rlist, i as int + 1, user_id) =~= prev.insert(newkey));
            lemma_or_over_insert(prev, role_perm_bits(m), newkey);
            let e = everyone_permissions;
            let b = role_perm_bits(m)(newkey);
            let x = or_over(prev, role_perm_bits(m));
            assert(((e | x) | b) == (e | (b | x))) by (bit_vector);
            assert(b == perms);
        }
        base = base | perms;
        i = i + 1;
    }
    proof {
        let mrk = member_role_keys(m, guild_id, user_id);
        let pk = prefix_member_keys(rlist, rlist.len() as int, user_id);
        assert forall|k: (u64, Option<u64>)| pk.contains(k) <==> mrk.contains(k) by {
            if pk.contains(k) {
                let j = choose|j: int| 0 <= j < rlist.len() && k == (rlist[j].id, Some(user_id));
                assert(m.roles.contains_key((rlist[j].id, Some(user_id))));
            }
            if mrk.contains(k) {
                assert(m.roles.contains_key((k.0, Some(user_id))) && m.roles[
                    (k.0, Some(user_id))
                ].guild_id == guild_id);
                let j = choose|j: int| 0 <= j < rlist.len() && rlist[j].id == k.0;
                assert(0 <= j < rlist.len() && k == (rlist[j].id, Some(user_id)));
            }
        }
        assert(pk =~= mrk);
    }
    base
}

/// Apply a channel's overwrites to the member's base permissions, in the
/// documented order: everyone, then the union of the member's role
/// overwrites, then the member-specific overwrite
fn fold_channel_overwrites(
    base: u64,
    overwrites: &Vec<CachedPermissionOverwrite>,
    member_role_list: &Vec<CachedRole>,
    channel_id: u64,
    guild_id: u64,
    user_id: u64,
    Ghost(m): Ghost<CacheModel>,
) -> (r: u64)
    requires
        forall|j: int|
            0 <= j < overwrites@.len() ==> {
                let o = #[trigger] overwrites@[j];
                &&& o.channel_id == channel_id
                &&& m.overwrites.contains_key((channel_id, o.id))
                &&& m.overwrites[(channel_id, o.id)] == o
            },
        forall|id: u64|
            #[trigger] m.overwrites.contains_key((channel_id, id)) ==> exists|j: int|
                0 <= j < overwrites@.len() && overwrites@[j].id == id,
        forall|j: int, j2: int|
            0 <= j < overwrites@.len() && 0 <= j2 < overwrites@.len() && j != j2
                ==> #[trigger] overwrites@[j].id != #[trigger] overwrites@[j2].id,
        forall|j: int|
            0 <= j < member_role_list@.len() ==> {
                let role = #[trigger] member_role_list@[j];
                &&& role.user_id == Some(user_id)
                &&& role.guild_id == guild_id
                &&& m.roles.contains_key((role.id, Some(user_id)))
                &&& m.roles[(role.id, Some(user_id))] == role
            },
        forall|id: u64|
            m.roles.contains_key((id, Some(user_id))) && (#[trigger] m.roles[
                (id, Some(user_id))
            ]).guild_id == guild_id ==> exists|j: int|
                0 <= j < member_role_list@.len() && member_role_list@[j].id == id,
    ensures
        r == spec_channel_permissions(m, base, channel_id, guild_id, user_id),
{
    let ghost olist = overwrites@;
    let ghost rlist = member_role_list@;
    let mut everyone_allow: u64 = 0;
    let mut everyone_deny: u64 = 0;
    let mut member_allow: u64 = 0;
    let mut member_deny: u64 = 0;
    let mut roles_allow: u64 = 0;
    let mut roles_deny: u64 = 0;
    let mut oi: usize = 0;
    proof {
        assert(prefix_overwrite_role_keys(olist, 0, channel_id, guild_id, rlist) =~= Set::<
            (u64, u64),
        >::empty());
    }
    while oi < overwrites.len()
        invariant
            oi <= olist.len(),
            overwrites@ == olist,
            member_role_list@ == rlist,
            forall|j: int|
                0 <= j < olist.len() ==> {
                    let o = #[trigger] olist[j];
                    &&& o.channel_id == channel_id
                    &&& m.overwrites.contains_key((channel_id, o.id))
                    &&& m.overwrites[(channel_id, o.id)] == o
                },
            forall|j: int, j2: int|
                0 <= j < olist.len() && 0 <= j2 < olist.len() && j != j2
                    ==> #[trigger] olist[j].id != #[trigger] olist[j2].id,
            (exists|j: int|
                0 <= j < oi && (#[trigger] olist[j]).id == guild_id && olist[j].kind
                    == OverwriteKind::Role) ==> (everyone_allow, everyone_deny) == (
            everyone_overwrite_bits(m, channel_id, guild_id)),
            !(exists|j: int|
                0 <= j < oi && (#[trigger] olist[j]).id == guild_id && olist[j].kind
                    == OverwriteKind::Role) ==> (everyone_allow, everyone_deny) == ((0u64, 0u64)),
            (exists|j: int|
                0 <= j < oi && (#[trigger] olist[j]).id == user_id && olist[j].kind
                    == OverwriteKind::Member) ==> (member_allow, member_deny) == (
            member_overwrite_bits(m, channel_id, user_id)),
            !(exists|j: int|
                0 <= j < oi && (#[trigger] olist[j]).id == user_id && olist[j].kind
                    == OverwriteKind::Member) ==> (member_allow, member_deny) == ((0u64, 0u64)),
            prefix_overwrite_role_keys(olist, oi as int, channel_id, guild_id, rlist).finite(),
            roles_allow == or_over(
                prefix_overwrite_role_keys(olist, oi as int, channel_id, guild_id, rlist),
                overwrite_allow_bits(m),
            ),
            roles_deny == or_over(
                prefix_overwrite_role_keys(olist, oi as int, channel_id, guild_id, rlist),
                overwrite_deny_bits(m),
            ),
        decreases olist.len() - oi,
    {
        let o = overwrites[oi];
        let ghost prev = prefix_overwrite_role_keys(olist, oi as int, channel_id, guild_id, rlist);
        let mut role_applies: bool = false;
        match o.kind {
            OverwriteKind::Role => {
                if o.id == guild_id {
                    everyone_allow = o.allow;
                    everyone_deny = o.deny;
                } else if holds_role(member_role_list, o.id) {
                    role_applies = true;
                    roles_allow = roles_allow | o.allow;
                    roles_deny = roles_deny | o.deny;
                }
            },
            OverwriteKind::Member => {
                if o.id == user_id {
                    member_allow = o.allow;
                    member_deny = o.deny;
                }
            },
        }
        proof {
            let next = prefix_overwrite_role_keys(
                olist,
                oi as int + 1,
                channel_id,
                guild_id,
                rlist,
            );
            if role_applies {
                let newkey = (channel_id, o.id);
                assert(!prev.contains(newkey)) by {
                    if prev.contains(newkey) {
                        let j = choose|j: int|
                            0 <= j < oi && olist[j].id == newkey.1 && olist[j].kind
                                == OverwriteKind::Role;
                        assert(olist[j].id != olist[oi as int].id);
                    }
                }
                assert forall|k: (u64, u64)|
                    next.contains(k) <==> prev.insert(newkey).contains(k) by {
                    if next.contains(k) {
                        let j = choose|j: int|
                            0 <= j < oi + 1 && olist[j].id == k.1 && olist[j].kind
                                == OverwriteKind::Role;
                        if j < oi {
                            assert(prev.contains(k));
                        } else {
                            assert(k.1 == o.id);
                        }
                    }
                    if prev.insert(newkey).contains(k) {
                        if prev.contains(k) {
                            let j = choose|j: int|
                                0 <= j < oi && olist[j].id == k.1 && olist[j].kind
                                    == OverwriteKind::Role;
                            assert(0 <= j < oi + 1 && olist[j].id == k.1 && olist[j].kind
                                == OverwriteKind::Role);
                        } else {
                            assert(0 <= oi < oi + 1 && olist[oi as int].id == k.1 && olist[
                                oi as int
                            ].kind == OverwriteKind::Role);
                        }
                    }
                }
                assert(next =~= prev.insert(newkey));
                lemma_or_over_insert(prev, overwrite_allow_bits(m), newkey);
                lemma_or_over_insert(prev, overwrite_deny_bits(m), newkey);
                let a = overwrite_allow_bits(m)(newkey);
                let d = overwrite_deny_bits(m)(newkey);
                let xa = or_over(prev, overwrite_allow_bits(m));
                let xd = or_over(prev, overwrite_deny_bits(m));
                assert((xa | a) == (a | xa)) by (bit_vector);
                assert((xd | d) == (d | xd)) by (bit_vector);
                assert(a == o.allow && d == o.deny);
            } else {
                assert forall|k: (u64, u64)| next.contains(k) <==> prev.contains(k) by {
                    if next.contains(k) {
                        let j = choose|j: int|
                            0 <= j < oi + 1 && olist[j].id == k.1 && olist[j].kind
                                == OverwriteKind::Role;
                        if j == oi {
                            assert(vec_holds_role(rlist, k.1));
                            assert(false);
                        }
                        assert(prev.contains(k));
                    }
                    if prev.contains(k) {
                        let j = choose|j: int|
                            0 <= j < oi && olist[j].id == k.1 && olist[j].kind
                                == OverwriteKind::Role;
                        assert(0 <= j < oi + 1 && olist[j].id == k.1 && olist[j].kind
                            == OverwriteKind::Role);
                    }
                }
                assert(next =~= prev);
            }
        }
        oi = oi + 1;
    }
    proof {
        let rk = role_overwrite_keys(m, channel_id, guild_id, user_id);
        let pk = prefix_overwrite_role_keys(olist, olist.len() as int, channel_id, guild_id, rlist);
        assert forall|k: (u64, u64)| pk.contains(k) <==> rk.contains(k) by {
            if pk.contains(k) {
                let j = choose|j: int|
                    0 <= j < olist.len() && olist[j].id == k.1 && olist[j].kind
                        == OverwriteKind::Role;
                assert(m.overwrites.contains_key((channel_id, olist[j].id)));
                let j2 = choose|j2: int| 0 <= j2 < rlist.len() && rlist[j2].id == k.1;
                assert(m.roles.contains_key((rlist[j2].id, Some(user_id))));
            }
            if rk.contains(k) {
                assert(m.overwrites.contains_key((channel_id, k.1)));
                let j = choose|j: int| 0 <= j < olist.len() && olist[j].id == k.1;
                assert(olist[j] == m.overwrites[(channel_id, k.1)]);
                assert(0 <= j < olist.len() && olist[j].id == k.1 && olist[j].kind
                    == OverwriteKind::Role);
                assert(m.roles.contains_key((k.1, Some(user_id))) && m.roles[
                    (k.1, Some(user_id))
                ].guild_id == guild_id);
                let j2 = choose|j2: int| 0 <= j2 < rlist.len() && rlist[j2].id == k.1;
                assert(0 <= j2 < rlist.len() && rlist[j2].id == k.1);
            }
        }
        assert(pk =~= rk);
        if m.overwrites.contains_key((channel_id, guild_id)) && m.overwrites[
            (channel_id, guild_id)
        ].kind == OverwriteKind::Role {
            let j = choose|j: int| 0 <= j < olist.len() && olist[j].id == guild_id;
            assert(olist[j] == m.overwrites[(channel_id, guild_id)]);
            assert(0 <= j < olist.len() && olist[j].id == guild_id && olist[j].kind
                == OverwriteKind::Role);
        } else {
            if exists|j: int|
                0 <= j < olist.len() && (#[trigger] olist[j]).id == guild_id && olist[j].kind
                    == OverwriteKind::Role {
                let j = choose|j: int|
                    0 <= j < olist.len() && (#[trigger] olist[j]).id == guild_id && olist[j].kind
                        == OverwriteKind::Role;
                assert(m.overwrites[(channel_id, guild_id)] == olist[j]);
                assert(false);
            }
        }
        if m.overwrites.contains_key((channel_id, user_id)) && m.overwrites[
            (channel_id, user_id)
        ].kind == OverwriteKind::Member {
            let j = choose|j: int| 0 <= j < olist.len() && olist[j].id == user_id;
            assert(olist[j] == m.overwrites[(channel_id, user_id)]);
            assert(0 <= j < olist.len() && olist[j].id == user_id && olist[j].kind
                == OverwriteKind::Member);
        } else {
            if exists|j: int|
                0 <= j < olist.len() && (#[trigger] olist[j]).id == user_id && olist[j].kind
                    == OverwriteKind::Member {
                let j = choose|j: int|
                    0 <= j < olist.len() && (#[trigger] olist[j]).id == user_id && olist[j].kind
                        == OverwriteKind::Member;
                assert(m.overwrites[(channel_id, user_id)] == olist[j]);
                assert(false);
            }
        }
    }
    let after_everyone = (base & !everyone_deny) | everyone_allow;
    let after_roles = (after_everyone & !roles_deny) | roles_allow;
    let result = (after_roles & !member_deny) | member_allow;
    proof {
        assert(result == spec_channel_permissions(m, base, channel_id, guild_id, user_id));
    }
    result
}

/// Whether the member's role list carries the given role ID
fn holds_role(roles: &Vec<CachedRole>, role_id: u64) -> (r: bool)
    ensures
        r == vec_holds_role(roles@, role_id),
{
    let mut i: usize = 0;
    while i < roles.len()
        invariant
            i <= roles@.len(),
            forall|j: int| 0 <= j < i ==> (#[trigger] roles@[j]).id != role_id,
        decreases roles@.len() - i,
    {
        if roles[i].id == role_id {
            return true;
        }
        i = i + 1;
    }
    false
}

/// The errors the cache might return
#[derive(Debug, PartialEq, Eq)]
pub enum Error<E> {
    /// An error was returned by the backend
    Backend(E),
    /// The current user isn't in the cache
    CurrentUserMissing,
    /// One of the roles of the member to cache isn't in the cache
    MemberRoleMissing {
        /// The member's user ID
        user_id: u64,
        /// The missing role's ID
        role_id: u64,
    },
    /// The timestamp the member's communication is disabled until isn't valid
    MemberBadTimeoutTimestamp(CachedMember),
    /// The channel to calculate permissions for isn't in the cache
    PermissionsChannelMissing(u64),
    /// The guild to calculate permissions for isn't in the cache
    PermissionsGuildMissing(u64),
    /// The member to calculate permissions for isn't in the cache
    PermissionsMemberMissing {
        /// The member's user ID
        user_id: u64,
        /// The guild's ID
        guild_id: u64,
    },
    /// The everyone role in the guild to calculate permissions for isn't in
    /// the cache
    PermissionsGuildEveryoneRoleMissing(u64),
    /// The given channel to calculate permissions for doesn't have a guild ID
    PermissionsChannelNotInGuild(CachedChannel),
    /// A DM channel's payload doesn't determine a recipient other than the
    /// current user, or arrived before the current user was known
    PrivateChannelMissingRecipient(u64),
}

/// Provides methods to update the cache and get data from it
///
/// This is for the users of the cache
pub trait Cache: Backend {
    /// Get the current user information of the bot
    ///
    /// # Errors
    ///
    /// Returns [`Error::CurrentUserMissing`] when called before the ready
    /// event is received
    fn current_user(&self) -> (r: Result<CachedCurrentUser, Error<Self::Error>>)
        ensures
            match r {
                Ok(user) => self.model().current_user == Some(user),
                Err(Error::CurrentUserMissing) => self.model().current_user is None,
                Err(Error::Backend(_)) => true,
                Err(_) => false,
            },
    ;

    /// Get a cached channel or thread by its ID
    fn channel(&self, channel_id: u64) -> (r: Result<Option<CachedChannel>, Error<Self::Error>>)
        ensures
            match r {
                Ok(Some(channel)) => self.model().channels.contains_key(channel_id)
                    && self.model().channels[channel_id] == channel,
                Ok(None) => !self.model().channels.contains_key(channel_id),
                Err(Error::Backend(_)) => true,
                Err(_) => false,
            },
    ;

    /// Get the cached permission overwrites of a channel by its ID
    fn permission_overwrites(&self, channel_id: u64) -> (r: Result<
        Vec<CachedPermissionOverwrite>,
        Error<Self::Error>,
    >)
        ensures
            match r {
                Ok(overwrites) => {
                    &&& forall|i: int|
                        0 <= i < overwrites@.len() ==> {
                            let o = #[trigger] overwrites@[i];
                            &&& o.channel_id == channel_id
                            &&& self.model().overwrites.contains_key((channel_id, o.id))
                            &&& self.model().overwrites[(channel_id, o.id)] == o
                        }
                    &&& forall|id: u64|
                        #[trigger] self.model().overwrites.contains_key((channel_id, id))
                            ==> exists|i: int|
                                0 <= i < overwrites@.len() && overwrites@[i].id == id
                    &&& forall|i: int, j: int|
                        0 <= i < overwrites@.len() && 0 <= j < overwrites@.len() && i != j
                            ==> #[trigger] overwrites@[i].id != #[trigger] overwrites@[j].id
                },
                Err(Error::Backend(_)) => true,
                Err(_) => false,
            },
    ;

    /// Get a guild's channels and threads by its ID
    fn guild_channels(&self, guild_id: u64) -> (r: Result<Vec<CachedChannel>, Error<Self::Error>>)
        ensures
            match r {
                Ok(channels) => {
                    &&& forall|i: int|
                        0 <= i < channels@.len() ==> {
                            let c = #[trigger] channels@[i];
                            &&& c.guild_id == Some(guild_id)
                            &&& self.model().channels.contains_key(c.id)
                            &&& self.model().channels[c.id] == c
                        }
                    &&& forall|id: u64|
                        self.model().channels.contains_key(id) && (#[trigger] self.model(
                        ).channels[id]).guild_id == Some(guild_id) ==> exists|i: int|
                            0 <= i < channels@.len() && channels@[i].id == id
                    &&& forall|i: int, j: int|
                        0 <= i < channels@.len() && 0 <= j < channels@.len() && i != j
                            ==> #[trigger] channels@[i].id != #[trigger] channels@[j].id
                },
                Err(Error::Backend(_)) => true,
                Err(_) => false,
            },
    ;

    /// Get a cached message by its ID
    ///
    /// The returned message doesn't contain embeds, attachments, reactions or
    /// stickers, since they're cached separately and the method doesn't query
    /// them for you to reduce overhead in case you don't need them
    fn message(&self, message_id: u64) -> (r: Result<Option<CachedMessage>, Error<Self::Error>>)
        ensures
            match r {
                Ok(Some(message)) => self.model().messages.contains_key(message_id)
                    && self.model().messages[message_id] == message,
                Ok(None) => !self.model().messages.contains_key(message_id),
                Err(Error::Backend(_)) => true,
                Err(_) => false,
            },
    ;

    /// Get cached attachments of a message by its ID
    fn attachments(&self, message_id: u64) -> (r: Result<
        Vec<CachedAttachment>,
        Error<Self::Error>,
    >)
        ensures
            match r {
                Ok(attachments) => {
                    &&& forall|i: int|
                        0 <= i < attachments@.len() ==> {
                            let a = #[trigger] attachments@[i];
                            &&& a.message_id == message_id
                            &&& self.model().attachments.contains_key(a.id)
                            &&& self.model().attachments[a.id] == a
                        }
                    &&& forall|id: u64|
                        self.model().attachments.contains_key(id) && (#[trigger] self.model(
                        ).attachments[id]).message_id == message_id ==> exists|i: int|
                            0 <= i < attachments@.len() && attachments@[i].id == id
                    &&& forall|i: int, j: int|
                        0 <= i < attachments@.len() && 0 <= j < attachments@.len() && i != j
                            ==> #[trigger] attachments@[i].id != #[trigger] attachments@[j].id
                },
                Err(Error::Backend(_)) => true,
                Err(_) => false,
            },
    ;

    /// Get cached reactions of a message by its ID
    fn reactions(&self, message_id: u64) -> (r: Result<Vec<CachedReaction>, Error<Self::Error>>)
        ensures
            match r {
                Ok(reactions) => {
                    &&& forall|i: int|
                        0 <= i < reactions@.len() ==> {
                            let rx = #[trigger] reactions@[i];
                            &&& rx.message_id == message_id
                            &&& self.model().reactions.contains_key(
                                (message_id, rx.user_id, rx.emoji.key()),
                            )
                            &&& self.model().reactions[(message_id, rx.user_id, rx.emoji.key())]
                                == rx
                        }
                    &&& forall|k: (u64, u64, crate::model::EmojiKey)|
                        #[trigger] self.model().reactions.contains_key(k) && k.0 == message_id
                            ==> exists|i: int|
                                0 <= i < reactions@.len() && reactions@[i].user_id == k.1
                                    && reactions@[i].emoji.key() == k.2
                    &&& forall|i: int, j: int|
                        0 <= i < reactions@.len() && 0 <= j < reactions@.len() && i != j
                            ==> !((#[trigger] reactions@[i]).user_id == (
                            #[trigger] reactions@[j]).user_id && reactions@[i].emoji.key()
                                == reactions@[j].emoji.key())
                },
                Err(Error::Backend(_)) => true,
                Err(_) => false,
            },
    ;

    /// Get cached stickers of a message by its ID
    fn stickers(&self, message_id: u64) -> (r: Result<Vec<CachedSticker>, Error<Self::Error>>)
        ensures
            match r {
                Ok(stickers) => {
                    &&& forall|i: int|
                        0 <= i < stickers@.len() ==> {
                            let s = #[trigger] stickers@[i];
                            &&& s.message_id == Some(message_id)
                            &&& self.model().stickers.contains_key(s.id)
                            &&& self.model().stickers[s.id] == s
                        }
                    &&& forall|id: u64|
                        self.model().stickers.contains_key(id) && (#[trigger] self.model(
                        ).stickers[id]).message_id == Some(message_id) ==> exists|i: int|
                            0 <= i < stickers@.len() && stickers@[i].id == id
                    &&& forall|i: int, j: int|
                        0 <= i < stickers@.len() && 0 <= j < stickers@.len() && i != j
                            ==> #[trigger] stickers@[i].id != #[trigger] stickers@[j].id
                },
                Err(Error::Backend(_)) => true,
                Err(_) => false,
            },
    ;

    /// Get a channel's most recent `limit` messages by its ID
    ///
    /// A limit of 0 means to return all messages
    ///
    /// The messages are ordered from most recent to least recent by their
    /// timestamps
    fn channel_messages(&self, channel_id: u64, limit: u16) -> (r: Result<
        Vec<CachedMessage>,
        Error<Self::Error>,
    >)
        ensures
            match r {
                Ok(messages) => {
                    &&& forall|i: int|
                        0 <= i < messages@.len() ==> {
                            let msg = #[trigger] messages@[i];
                            &&& msg.channel_id == channel_id
                            &&& self.model().messages.contains_key(msg.id)
                            &&& self.model().messages[msg.id] == msg
                        }
                    &&& forall|i: int, j: int|
                        0 <= i < j < messages@.len() ==> #[trigger] messages@[i].timestamp
                            >= #[trigger] messages@[j].timestamp
                    &&& forall|i: int, j: int|
                        0 <= i < messages@.len() && 0 <= j < messages@.len() && i != j
                            ==> #[trigger] messages@[i].id != #[trigger] messages@[j].id
                    &&& limit == 0 ==> forall|id: u64|
                        self.model().messages.contains_key(id) && (#[trigger] self.model(
                        ).messages[id]).channel_id == channel_id ==> exists|i: int|
                            0 <= i < messages@.len() && messages@[i].id == id
                    &&& limit > 0 ==> messages@.len() <= limit
                },
                Err(Error::Backend(_)) => true,
                Err(_) => false,
            },
    ;

    /// Get a cached member by its user ID and guild ID
    fn member(&self, user_id: u64, guild_id: u64) -> (r: Result<
        Option<CachedMember>,
        Error<Self::Error>,
    >)
        ensures
            match r {
                Ok(Some(member)) => self.model().members.contains_key((guild_id, user_id))
                    && self.model().members[(guild_id, user_id)] == member,
                Ok(None) => !self.model().members.contains_key((guild_id, user_id)),
                Err(Error::Backend(_)) => true,
                Err(_) => false,
            },
    ;

    /// Get the cached role-assignment rows of a member by their ID
    fn member_roles(&self, user_id: u64, guild_id: u64) -> (r: Result<
        Vec<CachedRole>,
        Error<Self::Error>,
    >)
        ensures
            match r {
                Ok(roles) => {
                    &&& forall|i: int|
                        0 <= i < roles@.len() ==> {
                            let role = #[trigger] roles@[i];
                            &&& role.user_id == Some(user_id)
                            &&& role.guild_id == guild_id
                            &&& self.model().roles.contains_key((role.id, Some(user_id)))
                            &&& self.model().roles[(role.id, Some(user_id))] == role
                        }
                    &&& forall|id: u64|
                        self.model().roles.contains_key((id, Some(user_id))) && (
                        #[trigger] self.model().roles[(id, Some(user_id))]).guild_id == guild_id
                            ==> exists|i: int| 0 <= i < roles@.len() && roles@[i].id == id
                    &&& forall|i: int, j: int|
                        0 <= i < roles@.len() && 0 <= j < roles@.len() && i != j
                            ==> #[trigger] roles@[i].id != #[trigger] roles@[j].id
                },
                Err(Error::Backend(_)) => true,
                Err(_) => false,
            },
    ;

    /// Get the cached presence of a member by their user ID, in whichever
    /// guild one is cached
    fn presence(&self, user_id: u64) -> (r: Result<Option<CachedPresence>, Error<Self::Error>>)
        ensures
            match r {
                Ok(Some(presence)) => presence.user == user_id && self.model(
                ).presences.contains_key((presence.guild_id, user_id)) && self.model().presences[
                    (presence.guild_id, user_id)
                ] == presence,
                Ok(None) => forall|guild_id: u64|
                    !(#[trigger] self.model().presences.contains_key((guild_id, user_id))),
                Err(Error::Backend(_)) => true,
                Err(_) => false,
            },
    ;

    /// Get the cached activities of a member by their user ID, over every
    /// guild
    fn member_activities(&self, user_id: u64) -> (r: Result<
        Vec<CachedActivity>,
        Error<Self::Error>,
    >)
        ensures
            match r {
                Ok(activities) => {
                    &&& forall|i: int|
                        0 <= i < activities@.len() ==> {
                            let a = #[trigger] activities@[i];
                            &&& a.user_id == user_id
                            &&& self.model().activities_of(a.guild_id, user_id).contains(a)
                        }
                    &&& forall|guild_id: u64, j: int|
                        0 <= j < self.model().activities_of(guild_id, user_id).len()
                            ==> activities@.contains(
                            #[trigger] self.model().activities_of(guild_id, user_id)[j],
                        )
                },
                Err(Error::Backend(_)) => true,
                Err(_) => false,
            },
    ;

    /// Get a guild's members by its ID
    fn guild_members(&self, guild_id: u64) -> (r: Result<Vec<CachedMember>, Error<Self::Error>>)
        ensures
            match r {
                Ok(members) => {
                    &&& forall|i: int|
                        0 <= i < members@.len() ==> {
                            let member = #[trigger] members@[i];
                            &&& member.guild_id == guild_id
                            &&& self.model().members.contains_key((guild_id, member.id))
                            &&& self.model().members[(guild_id, member.id)] == member
                        }
                    &&& forall|user_id: u64|
                        #[trigger] self.model().members.contains_key((guild_id, user_id))
                            ==> exists|i: int|
                                0 <= i < members@.len() && members@[i].id == user_id
                    &&& forall|i: int, j: int|
                        0 <= i < members@.len() && 0 <= j < members@.len() && i != j
                            ==> #[trigger] members@[i].id != #[trigger] members@[j].id
                },
                Err(Error::Backend(_)) => true,
                Err(_) => false,
            },
    ;

    /// Get a cached guild by its ID
    fn guild(&self, guild_id: u64) -> (r: Result<Option<CachedGuild>, Error<Self::Error>>)
        ensures
            match r {
                Ok(Some(guild)) => self.model().guilds.contains_key(guild_id) && self.model(
                ).guilds[guild_id] == guild,
                Ok(None) => !self.model().guilds.contains_key(guild_id),
                Err(Error::Backend(_)) => true,
                Err(_) => false,
            },
    ;

    /// Get a cached role definition by its ID
    fn role(&self, role_id: u64) -> (r: Result<Option<CachedRole>, Error<Self::Error>>)
        ensures
            match r {
                Ok(Some(role)) => self.model().roles.contains_key((role_id, None))
                    && self.model().roles[(role_id, None)] == role,
                Ok(None) => !self.model().roles.contains_key((role_id, None)),
                Err(Error::Backend(_)) => true,
                Err(_) => false,
            },
    ;

    /// Get a guild's role definitions by its ID
    fn guild_roles(&self, guild_id: u64) -> (r: Result<Vec<CachedRole>, Error<Self::Error>>)
        ensures
            match r {
                Ok(roles) => {
                    &&& forall|i: int|
                        0 <= i < roles@.len() ==> {
                            let role = #[trigger] roles@[i];
                            &&& role.guild_id == guild_id
                            &&& role.user_id is None
                            &&& self.model().roles.contains_key((role.id, None))
                            &&& self.model().roles[(role.id, None)] == role
                        }
                    &&& forall|id: u64|
                        self.model().roles.contains_key((id, None)) && (#[trigger] self.model(
                        ).roles[(id, None)]).guild_id == guild_id ==> exists|i: int|
                            0 <= i < roles@.len() && roles@[i].id == id
                    &&& forall|i: int, j: int|
                        0 <= i < roles@.len() && 0 <= j < roles@.len() && i != j
                            ==> #[trigger] roles@[i].id != #[trigger] roles@[j].id
                },
                Err(Error::Backend(_)) => true,
                Err(_) => false,
            },
    ;

    /// Get a cached emoji by its ID
    fn emoji(&self, emoji_id: u64) -> (r: Result<Option<CachedEmoji>, Error<Self::Error>>)
        ensures
            match r {
                Ok(Some(emoji)) => self.model().emojis.contains_key(emoji_id) && self.model(
                ).emojis[emoji_id] == emoji,
                Ok(None) => !self.model().emojis.contains_key(emoji_id),
                Err(Error::Backend(_)) => true,
                Err(_) => false,
            },
    ;

    /// Get a guild's emojis by its ID
    fn guild_emojis(&self, guild_id: u64) -> (r: Result<Vec<CachedEmoji>, Error<Self::Error>>)
        ensures
            match r {
                Ok(emojis) => {
                    &&& forall|i: int|
                        0 <= i < emojis@.len() ==> {
                            let emoji = #[trigger] emojis@[i];
                            &&& emoji.guild_id == guild_id
                            &&& self.model().emojis.contains_key(emoji.id)
                            &&& self.model().emojis[emoji.id] == emoji
                        }
                    &&& forall|id: u64|
                        self.model().emojis.contains_key(id) && (#[trigger] self.model(
                        ).emojis[id]).guild_id == guild_id ==> exists|i: int|
                            0 <= i < emojis@.len() && emojis@[i].id == id
                    &&& forall|i: int, j: int|
                        0 <= i < emojis@.len() && 0 <= j < emojis@.len() && i != j
                            ==> #[trigger] emojis@[i].id != #[trigger] emojis@[j].id
                },
                Err(Error::Backend(_)) => true,
                Err(_) => false,
            },
    ;

    /// Get a cached sticker by its ID
    fn sticker(&self, sticker_id: u64) -> (r: Result<Option<CachedSticker>, Error<Self::Error>>)
        ensures
            match r {
                Ok(Some(sticker)) => self.model().stickers.contains_key(sticker_id) && self.model(
                ).stickers[sticker_id] == sticker,
                Ok(None) => !self.model().stickers.contains_key(sticker_id),
                Err(Error::Backend(_)) => true,
                Err(_) => false,
            },
    ;

    /// Get a guild's stickers by its ID
    fn guild_stickers(&self, guild_id: u64) -> (r: Result<Vec<CachedSticker>, Error<Self::Error>>)
        ensures
            match r {
                Ok(stickers) => {
                    &&& forall|i: int|
                        0 <= i < stickers@.len() ==> {
                            let sticker = #[trigger] stickers@[i];
                            &&& sticker.guild_id == Some(guild_id)
                            &&& self.model().stickers.contains_key(sticker.id)
                            &&& self.model().stickers[sticker.id] == sticker
                        }
                    &&& forall|id: u64|
                        self.model().stickers.contains_key(id) && (#[trigger] self.model(
                        ).stickers[id]).guild_id == Some(guild_id) ==> exists|i: int|
                            0 <= i < stickers@.len() && stickers@[i].id == id
                    &&& forall|i: int, j: int|
                        0 <= i < stickers@.len() && 0 <= j < stickers@.len() && i != j
                            ==> #[trigger] stickers@[i].id != #[trigger] stickers@[j].id
                },
                Err(Error::Backend(_)) => true,
                Err(_) => false,
            },
    ;

    /// Get a cached stage instance by its ID
    fn stage_instance(&self, stage_id: u64) -> (r: Result<
        Option<CachedStageInstance>,
        Error<Self::Error>,
    >)
        ensures
            match r {
                Ok(Some(stage)) => self.model().stages.contains_key(stage_id) && self.model(
                ).stages[stage_id] == stage,
                Ok(None) => !self.model().stages.contains_key(stage_id),
                Err(Error::Backend(_)) => true,
                Err(_) => false,
            },
    ;

    /// Get the cached embeds of a message by its ID, each with its fields
    fn embeds(&self, message_id: u64) -> (r: Result<
        Vec<(CachedEmbed, Vec<CachedEmbedField>)>,
        Error<Self::Error>,
    >) where Self: Sized
        ensures
            match r {
                Ok(embeds) => {
                    &&& forall|i: int|
                        0 <= i < embeds@.len() ==> {
                            let pair = #[trigger] embeds@[i];
                            &&& pair.0.message_id == message_id
                            &&& self.model().embeds.contains_key(pair.0.id)
                            &&& self.model().embeds[pair.0.id] == pair.0
                            &&& pair.1@ == self.model().fields_of(pair.0.id)
                        }
                    &&& forall|id: u64|
                        self.model().embeds.contains_key(id) && (#[trigger] self.model(
                        ).embeds[id]).message_id == message_id ==> exists|i: int|
                            0 <= i < embeds@.len() && embeds@[i].0.id == id
                    &&& forall|i: int, j: int|
                        0 <= i < embeds@.len() && 0 <= j < embeds@.len() && i != j
                            ==> #[trigger] embeds@[i].0.id != #[trigger] embeds@[j].0.id
                },
                Err(Error::Backend(_)) => true,
                Err(_) => false,
            },
    {
        let cached_embeds = match self.select_message_embeds(message_id) {
            Ok(embeds) => embeds,
            Err(e) => {
                return Err(Error::Backend(e));
            },
        };
        let ghost all = cached_embeds@;
        let mut embeds: Vec<(CachedEmbed, Vec<CachedEmbedField>)> = Vec::new();
        let mut remaining = cached_embeds;
        while remaining.len() > 0
            invariant
                embeds@.len() + remaining@.len() == all.len(),
                forall|i: int|
                    0 <= i < embeds@.len() ==> #[trigger] embeds@[i].0 == all[i] && embeds@[i].1@
                        == self.model().fields_of(all[i].id),
                forall|i: int|
                    0 <= i < remaining@.len() ==> #[trigger] remaining@[i] == all[
                        embeds@.len() + i
                    ],
                forall|i: int|
                    0 <= i < all.len() ==> {
                        let embed = #[trigger] all[i];
                        &&& embed.message_id == message_id
                        &&& self.model().embeds.contains_key(embed.id)
                        &&& self.model().embeds[embed.id] == embed
                    },
                forall|id: u64|
                    self.model().embeds.contains_key(id) && (#[trigger] self.model(
                    ).embeds[id]).message_id == message_id ==> exists|i: int|
                        0 <= i < all.len() && all[i].id == id,
                forall|i: int, j: int|
                    0 <= i < all.len() && 0 <= j < all.len() && i != j ==> #[trigger] all[i].id
                        != #[trigger] all[j].id,
            decreases remaining@.len(),
        {
            let embed = remaining.remove(0);
            let fields = match self.select_embed_fields(embed.id) {
                Ok(fields) => fields,
                Err(e) => {
                    return Err(Error::Backend(e));
                },
            };
            embeds.push((embed, fields));
        }
        proof {
            assert(embeds@.len() == all.len());
            assert forall|id: u64|
                self.model().embeds.contains_key(id) && (#[trigger] self.model(
                ).embeds[id]).message_id == message_id implies exists|i: int|
                0 <= i < embeds@.len() && embeds@[i].0.id == id by {
                let i = choose|i: int| 0 <= i < all.len() && all[i].id == id;
                assert(embeds@[i].0.id == id);
            }
        }
        Ok(embeds)
    }

    /// Updates the cache with the channel: its overwrites, the recipient row
    /// of a DM channel, then the channel row itself
    ///
    /// # Errors
    ///
    /// Returns the error the backend might return
    ///
    /// When the channel is a DM channel, might return
    /// [`Error::PrivateChannelMissingRecipient`]
    fn add_channel(&mut self, channel: Channel) -> (r: Result<(), Error<Self::Error>>) where
        Self: Sized
        ensures
            match r {
                Ok(()) => apply_channel::<Self::Error>(old(self).model(), channel) == Ok::<
                    CacheModel,
                    Error<Self::Error>,
                >(final(self).model()),
                Err(Error::Backend(_)) => true,
                Err(e) => apply_channel::<Self::Error>(old(self).model(), channel) == Err::<
                    CacheModel,
                    Error<Self::Error>,
                >(e),
            },
    {
        let ghost m0 = old(self).model();
        let ghost whole = channel;
        let Channel { channel: row, permission_overwrites, recipients } = channel;
        if let Some(mut overwrites) = permission_overwrites {
            let ghost orig = overwrites@;
            while overwrites.len() > 0
                invariant
                    apply_overwrites(m0, orig, row.id) == apply_overwrites(
                        self.model(),
                        overwrites@,
                        row.id,
                    ),
                decreases overwrites@.len(),
            {
                let ghost before = overwrites@;
                let overwrite = overwrites.remove(0);
                proof {
                    assert(before.remove(0) =~= before.skip(1));
                }
                from_backend(
                    self.upsert_permission_overwrite(
                        CachedPermissionOverwrite::from_permission_overwrite(&overwrite, row.id),
                    ),
                )?;
            }
        }
        proof {
            assert(apply_overwrites(self.model(), Seq::empty(), row.id) == self.model());
            assert((match whole.permission_overwrites {
                Some(overwrites) => apply_overwrites(m0, overwrites@, row.id),
                None => m0,
            }) == self.model());
        }
        if matches!(row.kind, ChannelKind::Private) {
            let user = match self.current_user() {
                Ok(user) => user,
                Err(Error::Backend(e)) => {
                    return Err(Error::Backend(e));
                },
                Err(_) => {
                    return Err(Error::PrivateChannelMissingRecipient(row.id));
                },
            };
            let mut found: Option<u64> = None;
            match &recipients {
                Some(recipient_ids) => {
                    let mut i: usize = 0;
                    proof {
                        assert(recipient_ids@.skip(0) =~= recipient_ids@);
                    }
                    while i < recipient_ids.len() && found.is_none()
                        invariant
                            i <= recipient_ids@.len(),
                            match found {
                                None => spec_find_recipient(recipient_ids@, user.id)
                                    == spec_find_recipient(
                                    recipient_ids@.skip(i as int),
                                    user.id,
                                ),
                                Some(recipient) => spec_find_recipient(recipient_ids@, user.id)
                                    == Some(recipient),
                            },
                        decreases recipient_ids@.len() - i,
                    {
                        proof {
                            assert(recipient_ids@.skip(i as int)[0] == recipient_ids@[i as int]);
                            assert(recipient_ids@.skip(i as int).skip(1) =~= recipient_ids@.skip(
                                i as int + 1,
                            ));
                        }
                        if recipient_ids[i] != user.id {
                            found = Some(recipient_ids[i]);
                        }
                        i = i + 1;
                    }
                    proof {
                        if found is None {
                            assert(recipient_ids@.skip(i as int).len() == 0);
                        }
                    }
                },
                None => {
                },
            }
            match found {
                Some(recipient) => {
                    from_backend(self.upsert_private_channel(row.id, recipient))?;
                    from_backend(self.upsert_channel(row))?;
                    Ok(())
                },
                None => Err(Error::PrivateChannelMissingRecipient(row.id)),
            }
        } else {
            from_backend(self.upsert_channel(row))?;
            Ok(())
        }
    }

    /// Updates the cache with the member's roles: each role's cached
    /// definition is copied into an assignment row keyed by the member
    ///
    /// # Errors
    ///
    /// Returns the error the backend might return
    ///
    /// Returns [`Error::MemberRoleMissing`] when a role's definition isn't
    /// cached
    fn add_member_roles(&mut self, user_id: u64, role_ids: Vec<u64>) -> (r: Result<
        (),
        Error<Self::Error>,
    >)
        ensures
            match r {
                Ok(()) => apply_member_roles::<Self::Error>(old(self).model(), user_id, role_ids@)
                    == Ok::<CacheModel, Error<Self::Error>>(final(self).model()),
                Err(Error::Backend(_)) => true,
                Err(e) => apply_member_roles::<Self::Error>(old(self).model(), user_id, role_ids@)
                    == Err::<CacheModel, Error<Self::Error>>(e),
            },
    {
        let ghost m0 = old(self).model();
        let ghost orig = role_ids@;
        let mut i: usize = 0;
        proof {
            assert(orig.skip(0) =~= orig);
        }
        while i < role_ids.len()
            invariant
                i <= orig.len(),
                role_ids@ == orig,
                m0 == old(self).model(),
                apply_member_roles::<Self::Error>(m0, user_id, orig) == apply_member_roles::<
                    Self::Error,
                >(self.model(), user_id, orig.skip(i as int)),
            decreases orig.len() - i,
        {
            let role_id = role_ids[i];
            proof {
                assert(orig.skip(i as int)[0] == orig[i as int]);
                assert(orig.skip(i as int).skip(1) =~= orig.skip(i as int + 1));
            }
            let role_opt = match self.role(role_id) {
                Ok(role_opt) => role_opt,
                Err(Error::Backend(e)) => {
                    return Err(Error::Backend(e));
                },
                Err(_) => {
                    return Err(Error::MemberRoleMissing { user_id, role_id });
                },
            };
            match role_opt {
                Some(mut role) => {
                    role.user_id = Some(user_id);
                    from_backend(self.upsert_role(role))?;
                },
                None => {
                    return Err(Error::MemberRoleMissing { user_id, role_id });
                },
            }
            i = i + 1;
        }
        proof {
            assert(orig.skip(i as int).len() == 0);
        }
        Ok(())
    }

    /// Applies each channel of a list, in order, stopping at the first failure
    fn add_channels(&mut self, channels: Vec<Channel>) -> (r: Result<
        (),
        Error<Self::Error>,
    >) where Self: Sized
            ensures
            match r {
                Ok(()) => apply_channels::<Self::Error>(old(self).model(), channels@) == Ok::<
                    CacheModel,
                    Error<Self::Error>,
                >(final(self).model()),
                Err(Error::Backend(_)) => true,
                Err(e) => apply_channels::<Self::Error>(old(self).model(), channels@) == Err::<
                    CacheModel,
                    Error<Self::Error>,
                >(e),
            },
    {
        let ghost m0 = old(self).model();
        let ghost orig = channels@;
        let mut remaining = channels;
        while remaining.len() > 0
            invariant
                m0 == old(self).model(),
                orig == channels@,
                apply_channels::<Self::Error>(m0, orig) == apply_channels::<Self::Error>(
                    self.model(),
                    remaining@,
                ),
            decreases remaining@.len(),
        {
            let ghost before = remaining@;
            let channel = remaining.remove(0);
            proof {
                assert(before.remove(0) =~= before.skip(1));
            }
            match self.add_channel(channel) {
                Ok(()) => {},
                Err(Error::Backend(e)) => {
                    return Err(Error::Backend(e));
                },
                Err(e) => {
                    return Err(e);
                },
            }
        }
        Ok(())
    }

    /// Applies each member of a list, in order, stopping at the first failure
    fn add_members(&mut self, members: Vec<Member>) -> (r: Result<(), Error<Self::Error>>) where Self: Sized
            ensures
            match r {
                Ok(()) => apply_members::<Self::Error>(old(self).model(), members@) == Ok::<
                    CacheModel,
                    Error<Self::Error>,
                >(final(self).model()),
                Err(Error::Backend(_)) => true,
                Err(e) => apply_members::<Self::Error>(old(self).model(), members@) == Err::<
                    CacheModel,
                    Error<Self::Error>,
                >(e),
            },
    {
        let ghost m0 = old(self).model();
        let ghost orig = members@;
        let mut remaining = members;
        while remaining.len() > 0
            invariant
                m0 == old(self).model(),
                orig == members@,
                apply_members::<Self::Error>(m0, orig) == apply_members::<Self::Error>(
                    self.model(),
                    remaining@,
                ),
            decreases remaining@.len(),
        {
            let ghost before = remaining@;
            let member = remaining.remove(0);
            proof {
                assert(before.remove(0) =~= before.skip(1));
            }
            let Member { member: row, roles } = member;
            match self.add_member_roles(row.id, roles) {
                Ok(()) => {},
                Err(Error::Backend(e)) => {
                    return Err(Error::Backend(e));
                },
                Err(e) => {
                    return Err(e);
                },
            }
            from_backend(self.upsert_member(row))?;
        }
        Ok(())
    }

    /// Upserts each emoji of a list for a guild, in order
    fn add_emojis(&mut self, emojis: Vec<crate::model::Emoji>, guild_id: u64) -> (r:
        Result<(), Error<Self::Error>>) where Self: Sized
            ensures
            match r {
                Ok(()) => apply_emojis(old(self).model(), emojis@, guild_id) == final(self).model(),
                Err(Error::Backend(_)) => true,
                Err(_) => false,
            },
    {
        let ghost m0 = old(self).model();
        let ghost orig = emojis@;
        let mut remaining = emojis;
        while remaining.len() > 0
            invariant
                m0 == old(self).model(),
                apply_emojis(m0, orig, guild_id) == apply_emojis(self.model(), remaining@, guild_id),
            decreases remaining@.len(),
        {
            let ghost before = remaining@;
            let emoji = remaining.remove(0);
            proof {
                assert(before.remove(0) =~= before.skip(1));
            }
            from_backend(self.upsert_emoji(CachedEmoji::from_emoji(emoji, guild_id)))?;
        }
        Ok(())
    }

    /// Upserts each sticker of a list, in order
    fn add_stickers(&mut self, stickers: Vec<crate::model::Sticker>) -> (r: Result<
        (),
        Error<Self::Error>,
    >) where Self: Sized
            ensures
            match r {
                Ok(()) => apply_stickers(old(self).model(), stickers@) == final(self).model(),
                Err(Error::Backend(_)) => true,
                Err(_) => false,
            },
    {
        let ghost m0 = old(self).model();
        let ghost orig = stickers@;
        let mut remaining = stickers;
        while remaining.len() > 0
            invariant
                m0 == old(self).model(),
                apply_stickers(m0, orig) == apply_stickers(self.model(), remaining@),
            decreases remaining@.len(),
        {
            let ghost before = remaining@;
            let sticker = remaining.remove(0);
            proof {
                assert(before.remove(0) =~= before.skip(1));
            }
            from_backend(self.upsert_sticker(CachedSticker::from_sticker(sticker)))?;
        }
        Ok(())
    }

    /// Upserts each presence row of a list, in order
    fn add_presence_rows(&mut self, presences: Vec<crate::model::Presence>) -> (r:
        Result<(), Error<Self::Error>>) where Self: Sized
            ensures
            match r {
                Ok(()) => apply_presence_rows(old(self).model(), presences@) == final(self).model(),
                Err(Error::Backend(_)) => true,
                Err(_) => false,
            },
    {
        let ghost m0 = old(self).model();
        let ghost orig = presences@;
        let mut remaining = presences;
        while remaining.len() > 0
            invariant
                m0 == old(self).model(),
                apply_presence_rows(m0, orig) == apply_presence_rows(self.model(), remaining@),
            decreases remaining@.len(),
        {
            let ghost before = remaining@;
            let presence = remaining.remove(0);
            proof {
                assert(before.remove(0) =~= before.skip(1));
            }
            from_backend(self.upsert_presence(presence.presence))?;
        }
        Ok(())
    }

    /// Upserts each role definition of a list for a guild, in order
    fn add_roles(&mut self, roles: Vec<crate::model::Role>, guild_id: u64) -> (r:
        Result<(), Error<Self::Error>>) where Self: Sized
            ensures
            match r {
                Ok(()) => apply_roles(old(self).model(), roles@, guild_id) == final(self).model(),
                Err(Error::Backend(_)) => true,
                Err(_) => false,
            },
    {
        let ghost m0 = old(self).model();
        let ghost orig = roles@;
        let mut remaining = roles;
        while remaining.len() > 0
            invariant
                m0 == old(self).model(),
                apply_roles(m0, orig, guild_id) == apply_roles(self.model(), remaining@, guild_id),
            decreases remaining@.len(),
        {
            let ghost before = remaining@;
            let role = remaining.remove(0);
            proof {
                assert(before.remove(0) =~= before.skip(1));
            }
            from_backend(self.upsert_role(CachedRole::from_role(role, guild_id)))?;
        }
        Ok(())
    }

    /// Upserts each stage instance of a list, in order
    fn add_stage_instances(&mut self, stages: Vec<CachedStageInstance>) -> (r: Result<
        (),
        Error<Self::Error>,
    >) where Self: Sized
            ensures
            match r {
                Ok(()) => apply_stages(old(self).model(), stages@) == final(self).model(),
                Err(Error::Backend(_)) => true,
                Err(_) => false,
            },
    {
        let ghost m0 = old(self).model();
        let ghost orig = stages@;
        let mut remaining = stages;
        while remaining.len() > 0
            invariant
                m0 == old(self).model(),
                apply_stages(m0, orig) == apply_stages(self.model(), remaining@),
            decreases remaining@.len(),
        {
            let ghost before = remaining@;
            let stage = remaining.remove(0);
            proof {
                assert(before.remove(0) =~= before.skip(1));
            }
            from_backend(self.upsert_stage_instance(stage))?;
        }
        Ok(())
    }

    /// Upserts each attachment of a message, in order
    fn add_attachments(&mut self,
        attachments: Vec<crate::model::Attachment>,
        message_id: u64,
    ) -> (r: Result<(), Error<Self::Error>>) where Self: Sized
            ensures
            match r {
                Ok(()) => apply_attachments(old(self).model(), attachments@, message_id) == final(self).model(),
                Err(Error::Backend(_)) => true,
                Err(_) => false,
            },
    {
        let ghost m0 = old(self).model();
        let ghost orig = attachments@;
        let mut remaining = attachments;
        while remaining.len() > 0
            invariant
                m0 == old(self).model(),
                apply_attachments(m0, orig, message_id) == apply_attachments(
                    self.model(),
                    remaining@,
                    message_id,
                ),
            decreases remaining@.len(),
        {
            let ghost before = remaining@;
            let attachment = remaining.remove(0);
            proof {
                assert(before.remove(0) =~= before.skip(1));
            }
            from_backend(
                self.upsert_attachment(CachedAttachment::from_attachment(attachment, message_id)),
            )?;
        }
        Ok(())
    }

    /// Upserts each sticker of a message, in order: one already cached keeps its
    /// fields and only gains the message ID
    fn add_message_stickers(&mut self,
        sticker_items: Vec<crate::model::MessageSticker>,
        message_id: u64,
    ) -> (r: Result<(), Error<Self::Error>>) where Self: Sized
            ensures
            match r {
                Ok(()) => apply_message_stickers(old(self).model(), sticker_items@, message_id)
                    == final(self).model(),
                Err(Error::Backend(_)) => true,
                Err(_) => false,
            },
    {
        let ghost m0 = old(self).model();
        let ghost orig = sticker_items@;
        let mut remaining = sticker_items;
        while remaining.len() > 0
            invariant
                m0 == old(self).model(),
                apply_message_stickers(m0, orig, message_id) == apply_message_stickers(
                    self.model(),
                    remaining@,
                    message_id,
                ),
            decreases remaining@.len(),
        {
            let ghost before = remaining@;
            let item = remaining.remove(0);
            proof {
                assert(before.remove(0) =~= before.skip(1));
            }
            let sticker = match self.sticker(item.id) {
                Ok(Some(mut cached_sticker)) => {
                    cached_sticker.message_id = Some(message_id);
                    cached_sticker
                },
                Ok(None) => CachedSticker::from_message_sticker(item, message_id),
                Err(Error::Backend(e)) => {
                    return Err(Error::Backend(e));
                },
                Err(e) => {
                    return Err(e);
                },
            };
            from_backend(self.upsert_sticker(sticker))?;
        }
        Ok(())
    }

    /// Mints an ID for each embed of a message and adds it with its fields, in
    /// order
    fn add_embeds(&mut self, embeds: Vec<crate::model::Embed>, message_id: u64) -> (r:
        Result<(), Error<Self::Error>>) where Self: Sized
            requires
            old(self).model().next_id + embeds@.len() <= u64::MAX,
        ensures
            match r {
                Ok(()) => apply_embeds(old(self).model(), embeds@, message_id) == final(self).model(),
                Err(Error::Backend(_)) => true,
                Err(_) => false,
            },
    {
        let ghost m0 = old(self).model();
        let ghost orig = embeds@;
        let mut remaining = embeds;
        while remaining.len() > 0
            invariant
                m0 == old(self).model(),
                self.model().next_id + remaining@.len() <= u64::MAX,
                apply_embeds(m0, orig, message_id) == apply_embeds(
                    self.model(),
                    remaining@,
                    message_id,
                ),
            decreases remaining@.len(),
        {
            let ghost before = remaining@;
            let embed = remaining.remove(0);
            proof {
                assert(before.remove(0) =~= before.skip(1));
            }
            let crate::model::Embed { embed: body, fields } = embed;
            let id = self.fresh_id();
            let ghost mid_model = self.model();
            let ghost forig = fields@;
            let mut frem = fields;
            while frem.len() > 0
                invariant
                    mid_model.next_id == self.model().next_id,
                    apply_embed_fields(mid_model, forig, id) == apply_embed_fields(
                        self.model(),
                        frem@,
                        id,
                    ),
                decreases frem@.len(),
            {
                let ghost fbefore = frem@;
                let field = frem.remove(0);
                proof {
                    assert(fbefore.remove(0) =~= fbefore.skip(1));
                }
                from_backend(self.upsert_embed_field(CachedEmbedField::from_embed_field(field, id)))?;
            }
            from_backend(self.upsert_embed(CachedEmbed::from_embed(body, message_id, id)))?;
        }
        Ok(())
    }

    /// Adds each activity of a member, in order
    fn add_activities(&mut self,
        activities: Vec<crate::model::Activity>,
        user_id: u64,
        guild_id: u64,
    ) -> (r: Result<(), Error<Self::Error>>) where Self: Sized
            ensures
            match r {
                Ok(()) => apply_activities(old(self).model(), activities@, user_id, guild_id)
                    == final(self).model(),
                Err(Error::Backend(_)) => true,
                Err(_) => false,
            },
    {
        let ghost m0 = old(self).model();
        let ghost orig = activities@;
        let mut remaining = activities;
        while remaining.len() > 0
            invariant
                m0 == old(self).model(),
                apply_activities(m0, orig, user_id, guild_id) == apply_activities(
                    self.model(),
                    remaining@,
                    user_id,
                    guild_id,
                ),
            decreases remaining@.len(),
        {
            let ghost before = remaining@;
            let activity = remaining.remove(0);
            proof {
                assert(before.remove(0) =~= before.skip(1));
            }
            from_backend(
                self.upsert_activity(CachedActivity::from_activity(activity, user_id, guild_id)),
            )?;
        }
        Ok(())
    }

    /// Removes every embed of a message, with its fields, from the cache
    fn remove_message_embeds(&mut self, message_id: u64) -> (r: Result<
        (),
        Error<Self::Error>,
    >) where Self: Sized
            ensures
            match r {
                Ok(()) => final(self).model() == old(self).model().without_message_embeds(
                    message_id,
                ),
                Err(Error::Backend(_)) => true,
                Err(_) => false,
            },
    {
        let ghost m0 = old(self).model();
        let pairs = match self.embeds(message_id) {
            Ok(pairs) => pairs,
            Err(Error::Backend(e)) => {
                return Err(Error::Backend(e));
            },
            Err(e) => {
                return Err(e);
            },
        };
        let ghost all = pairs@;
        let mut i: usize = 0;
        while i < pairs.len()
            invariant
                m0 == old(self).model(),
                i <= all.len(),
                pairs@ == all,
                self.model() == (CacheModel {
                    embeds: m0.embeds.remove_keys(prefix_embed_ids(all, i as int)),
                    embed_fields: m0.embed_fields.remove_keys(prefix_embed_ids(all, i as int)),
                    ..m0
                }),
            decreases all.len() - i,
        {
            let embed_id = pairs[i].0.id;
            from_backend(self.delete_embed_fields(embed_id))?;
            from_backend(self.delete_embed(embed_id))?;
            proof {
                assert(self.model().embeds =~= m0.embeds.remove_keys(
                    prefix_embed_ids(all, i as int + 1),
                ));
                assert(self.model().embed_fields =~= m0.embed_fields.remove_keys(
                    prefix_embed_ids(all, i as int + 1),
                ));
                assert(self.model() =~= (CacheModel {
                    embeds: m0.embeds.remove_keys(prefix_embed_ids(all, i as int + 1)),
                    embed_fields: m0.embed_fields.remove_keys(prefix_embed_ids(all, i as int + 1)),
                    ..m0
                }));
            }
            i = i + 1;
        }
        proof {
            let message_embed_ids = Set::new(
                |id: u64| m0.embeds.contains_key(id) && m0.embeds[id].message_id == message_id,
            );
            assert forall|id: u64| #[trigger]
                prefix_embed_ids(all, all.len() as int).contains(id)
                    <==> message_embed_ids.contains(id) by {
                if prefix_embed_ids(all, all.len() as int).contains(id) {
                    let j = choose|j: int| 0 <= j < all.len() && all[j].0.id == id;
                    assert(m0.embeds.contains_key(all[j].0.id));
                }
                if message_embed_ids.contains(id) {
                    let j = choose|j: int| 0 <= j < all.len() && all[j].0.id == id;
                    assert(all[j].0.id == id);
                }
            }
            assert(prefix_embed_ids(all, all.len() as int) =~= message_embed_ids);
            assert(self.model() =~= m0.without_message_embeds(message_id));
        }
        Ok(())
    }

    /// Removes the permission overwrites of every channel of a guild from the
    /// cache
    fn remove_guild_channel_overwrites(&mut self, guild_id: u64) -> (r: Result<
        (),
        Error<Self::Error>,
    >) where Self: Sized
            ensures
            match r {
                Ok(()) => final(self).model() == old(self).model().without_guild_channel_overwrites(
                    guild_id,
                ),
                Err(Error::Backend(_)) => true,
                Err(_) => false,
            },
    {
        let ghost m0 = old(self).model();
        let channels = match self.guild_channels(guild_id) {
            Ok(channels) => channels,
            Err(Error::Backend(e)) => {
                return Err(Error::Backend(e));
            },
            Err(e) => {
                return Err(e);
            },
        };
        let ghost chs = channels@;
        let mut i: usize = 0;
        while i < channels.len()
            invariant
                m0 == old(self).model(),
                i <= chs.len(),
                channels@ == chs,
                self.model() == (CacheModel {
                    overwrites: m0.overwrites.remove_keys(
                        prefix_channel_overwrite_keys(chs, i as int),
                    ),
                    ..m0
                }),
            decreases chs.len() - i,
        {
            let channel_id = channels[i].id;
            from_backend(self.delete_channel_permission_overwrites(channel_id))?;
            proof {
                assert(self.model().overwrites =~= m0.overwrites.remove_keys(
                    prefix_channel_overwrite_keys(chs, i as int + 1),
                ));
                assert(self.model() =~= (CacheModel {
                    overwrites: m0.overwrites.remove_keys(
                        prefix_channel_overwrite_keys(chs, i as int + 1),
                    ),
                    ..m0
                }));
            }
            i = i + 1;
        }
        proof {
            let guild_keys = Set::new(
                |k: (u64, u64)|
                    m0.channels.contains_key(k.0) && m0.channels[k.0].guild_id == Some(guild_id),
            );
            assert forall|k: (u64, u64)| #[trigger]
                prefix_channel_overwrite_keys(chs, chs.len() as int).contains(k)
                    <==> guild_keys.contains(k) by {
                if prefix_channel_overwrite_keys(chs, chs.len() as int).contains(k) {
                    let j = choose|j: int| 0 <= j < chs.len() && chs[j].id == k.0;
                    assert(m0.channels.contains_key(chs[j].id));
                }
                if guild_keys.contains(k) {
                    let j = choose|j: int| 0 <= j < chs.len() && chs[j].id == k.0;
                    assert(chs[j].id == k.0);
                }
            }
            assert(prefix_channel_overwrite_keys(chs, chs.len() as int) =~= guild_keys);
            assert(self.model() =~= m0.without_guild_channel_overwrites(guild_id));
        }
        Ok(())
    }

    /// Removes each message of a list from the cache, in order
    fn remove_messages(&mut self, ids: Vec<u64>) -> (r: Result<
        (),
        Error<Self::Error>,
    >) where Self: Sized
            ensures
            match r {
                Ok(()) => apply_message_delete_bulk(old(self).model(), ids@) == final(self).model(),
                Err(Error::Backend(_)) => true,
                Err(_) => false,
            },
    {
        let ghost m0 = old(self).model();
        let ghost orig = ids@;
        let mut i: usize = 0;
        proof {
            assert(orig.skip(0) =~= orig);
        }
        while i < ids.len()
            invariant
                m0 == old(self).model(),
                i <= orig.len(),
                ids@ == orig,
                apply_message_delete_bulk(m0, orig) == apply_message_delete_bulk(
                    self.model(),
                    orig.skip(i as int),
                ),
            decreases orig.len() - i,
        {
            proof {
                assert(orig.skip(i as int)[0] == orig[i as int]);
                assert(orig.skip(i as int).skip(1) =~= orig.skip(i as int + 1));
            }
            match self.remove_message(ids[i]) {
                Ok(()) => {},
                Err(Error::Backend(e)) => {
                    return Err(Error::Backend(e));
                },
                Err(e) => {
                    return Err(e);
                },
            }
            i = i + 1;
        }
        proof {
            assert(orig.skip(i as int).len() == 0);
        }
        Ok(())
    }


    /// Removes the message from the cache: its embeds with their fields, its
    /// attachments, reactions and stickers all go, then the message row
    ///
    /// # Errors
    ///
    /// Returns the error the backend might return
    fn remove_message(&mut self, message_id: u64) -> (r: Result<(), Error<Self::Error>>) where
        Self: Sized
        ensures
            match r {
                Ok(()) => final(self).model() == apply_message_delete(
                    old(self).model(),
                    message_id,
                ),
                Err(Error::Backend(_)) => true,
                Err(_) => false,
            },
    {
        self.remove_message_embeds(message_id)?;
        from_backend(self.delete_message_attachments(message_id))?;
        from_backend(self.delete_message_reactions(message_id))?;
        from_backend(self.delete_message_stickers(message_id))?;
        from_backend(self.delete_message(message_id))?;
        Ok(())
    }

    /// Update the cache with the given event, should be called for every
    /// event to keep the cache valid
    ///
    /// What one call does to the abstract state is exactly what
    /// [`spec_apply`] says: on success the new state is the one it gives, and
    /// an event it rejects is rejected here too, with the same error
    ///
    /// # Errors
    ///
    /// Returns the error the backend might return
    ///
    /// On channel events carrying a DM channel, might return
    /// [`Error::PrivateChannelMissingRecipient`]; on events carrying member
    /// roles, might return [`Error::MemberRoleMissing`]
    fn update(&mut self, event: Event) -> (r: Result<(), Error<Self::Error>>) where Self: Sized
        requires
            old(self).model().next_id + minted_ids(event) <= u64::MAX,
        ensures
            match r {
                Ok(()) => spec_apply::<Self::Error>(old(self).model(), event) == Ok::<
                    CacheModel,
                    Error<Self::Error>,
                >(final(self).model()),
                Err(Error::Backend(_)) => true,
                Err(e) => spec_apply::<Self::Error>(old(self).model(), event) == Err::<
                    CacheModel,
                    Error<Self::Error>,
                >(e),
            },
            event is Other ==> r == Ok::<(), Error<Self::Error>>(()),
            (event matches Event::GuildDelete(deletion) && deletion.unavailable) ==> r == Ok::<
                (),
                Error<Self::Error>,
            >(()),
    {
        match event {
            Event::ChannelCreate(channel) => self.add_channel(channel),
            Event::ChannelUpdate(channel) => self.add_channel(channel),
            Event::ChannelDelete(channel) => {
                from_backend(self.delete_channel_permission_overwrites(channel.channel.id))?;
                from_backend(self.delete_channel(channel.channel.id))?;
                Ok(())
            },
            Event::ThreadCreate(thread) => self.add_channel(thread),
            Event::ThreadUpdate(thread) => self.add_channel(thread),
            Event::ThreadDelete(thread) => {
                from_backend(self.delete_channel_permission_overwrites(thread.id))?;
                from_backend(self.delete_channel(thread.id))?;
                Ok(())
            },
            Event::GuildCreate(guild) => {
                let crate::model::Guild {
                    guild: row,
                    channels,
                    threads,
                    emojis,
                    stickers,
                    members,
                    presences,
                    roles,
                    stage_instances,
                } = guild;
                self.add_channels(channels)?;
                self.add_channels(threads)?;
                self.add_emojis(emojis, row.id)?;
                self.add_stickers(stickers)?;
                self.add_roles(roles, row.id)?;
                self.add_members(members)?;
                self.add_presence_rows(presences)?;
                self.add_stage_instances(stage_instances)?;
                from_backend(self.upsert_guild(row))?;
                Ok(())
            },
            Event::GuildUpdate(guild) => {
                let cached = match self.guild(guild.id) {
                    Ok(cached) => cached,
                    Err(Error::Backend(e)) => {
                        return Err(Error::Backend(e));
                    },
                    Err(e) => {
                        return Err(e);
                    },
                };
                match cached {
                    Some(mut cached_guild) => {
                        cached_guild.update(guild);
                        from_backend(self.upsert_guild(cached_guild))?;
                        Ok(())
                    },
                    None => Ok(()),
                }
            },
            Event::GuildDelete(deletion) => {
                if deletion.unavailable {
                    Ok(())
                } else {
                    self.remove_guild_channel_overwrites(deletion.id)?;
                    from_backend(self.delete_guild_channels(deletion.id))?;
                    from_backend(self.delete_guild_emojis(deletion.id))?;
                    from_backend(self.delete_guild_stickers(deletion.id))?;
                    from_backend(self.delete_guild_members(deletion.id))?;
                    from_backend(self.delete_guild_presences(deletion.id))?;
                    from_backend(self.delete_guild_roles(deletion.id))?;
                    from_backend(self.delete_guild_stage_instances(deletion.id))?;
                    from_backend(self.delete_guild(deletion.id))?;
                    Ok(())
                }
            },
            Event::GuildEmojisUpdate { guild_id, emojis } => {
                from_backend(self.delete_guild_emojis(guild_id))?;
                self.add_emojis(emojis, guild_id)?;
                Ok(())
            },
            Event::GuildStickersUpdate { guild_id, stickers } => {
                from_backend(self.delete_guild_stickers(guild_id))?;
                self.add_stickers(stickers)?;
                Ok(())
            },
            Event::MemberAdd(member) => {
                let Member { member: row, roles } = member;
                self.add_member_roles(row.id, roles)?;
                from_backend(self.upsert_member(row))?;
                Ok(())
            },
            Event::MemberChunk { members } => self.add_members(members),
            Event::MemberUpdate(member_update) => {
                let cached = match self.member(member_update.user_id, member_update.guild_id) {
                    Ok(cached) => cached,
                    Err(Error::Backend(e)) => {
                        return Err(Error::Backend(e));
                    },
                    Err(e) => {
                        return Err(e);
                    },
                };
                match cached {
                    Some(mut cached_member) => {
                        let role_ids = copy_ids(&member_update.roles);
                        cached_member.update(&member_update);
                        from_backend(self.upsert_member(cached_member))?;
                        from_backend(
                            self.delete_member_roles(
                                member_update.guild_id,
                                member_update.user_id,
                            ),
                        )?;
                        self.add_member_roles(member_update.user_id, role_ids)?;
                        Ok(())
                    },
                    None => Ok(()),
                }
            },
            Event::MemberRemove { guild_id, user_id } => {
                from_backend(self.delete_member(user_id, guild_id))?;
                from_backend(self.delete_member_roles(guild_id, user_id))?;
                Ok(())
            },
            Event::MessageCreate(message) => {
                let crate::model::Message { message: row, attachments, sticker_items, embeds } =
                    message;
                proof {
                    crate::sync::lemma_apply_attachments_next_id(
                        old(self).model(),
                        attachments@,
                        row.id,
                    );
                    crate::sync::lemma_apply_message_stickers_next_id(
                        crate::sync::apply_attachments(old(self).model(), attachments@, row.id),
                        sticker_items@,
                        row.id,
                    );
                }
                self.add_attachments(attachments, row.id)?;
                self.add_message_stickers(sticker_items, row.id)?;
                self.add_embeds(embeds, row.id)?;
                from_backend(self.upsert_message(row))?;
                Ok(())
            },
            Event::MessageUpdate(message_update) => {
                let cached = match self.message(message_update.id) {
                    Ok(cached) => cached,
                    Err(Error::Backend(e)) => {
                        return Err(Error::Backend(e));
                    },
                    Err(e) => {
                        return Err(e);
                    },
                };
                match cached {
                    Some(mut cached_message) => {
                        cached_message.update(&message_update);
                        let crate::model::MessageUpdate {
                            id,
                            channel_id: _,
                            attachments,
                            embeds,
                            content: _,
                            edited_timestamp: _,
                            mention_everyone: _,
                            pinned: _,
                        } = message_update;
                        if let Some(new_attachments) = attachments {
                            from_backend(self.delete_message_attachments(id))?;
                            proof {
                                crate::sync::lemma_apply_attachments_next_id(
                                    self.model(),
                                    new_attachments@,
                                    id,
                                );
                            }
                            self.add_attachments(new_attachments, id)?;
                        }
                        if let Some(new_embeds) = embeds {
                            self.remove_message_embeds(id)?;
                            self.add_embeds(new_embeds, id)?;
                        }
                        from_backend(self.upsert_message(cached_message))?;
                        Ok(())
                    },
                    None => Ok(()),
                }
            },
            Event::MessageDelete { id } => {
                self.remove_message(id)?;
                Ok(())
            },
            Event::MessageDeleteBulk { ids } => self.remove_messages(ids),
            Event::PresenceUpdate(presence) => {
                let crate::model::Presence { presence: row, activities } = presence;
                from_backend(self.delete_user_activities(row.guild_id, row.user))?;
                self.add_activities(activities, row.user, row.guild_id)?;
                from_backend(self.upsert_presence(row))?;
                Ok(())
            },
            Event::ReactionAdd(reaction) => {
                from_backend(self.upsert_reaction(CachedReaction::from_reaction(reaction)))?;
                Ok(())
            },
            Event::ReactionRemove(reaction) => {
                let crate::model::Reaction {
                    channel_id: _,
                    emoji,
                    guild_id: _,
                    message_id,
                    user_id,
                } = reaction;
                from_backend(self.delete_reaction(message_id, user_id, emoji))?;
                Ok(())
            },
            Event::ReactionRemoveEmoji { message_id, emoji } => {
                from_backend(self.delete_message_reactions_by_emoji(message_id, emoji))?;
                Ok(())
            },
            Event::ReactionRemoveAll { message_id } => {
                from_backend(self.delete_message_reactions(message_id))?;
                Ok(())
            },
            Event::Ready { user } => {
                from_backend(self.set_current_user(user))?;
                Ok(())
            },
            Event::UserUpdate(user) => {
                from_backend(self.set_current_user(user))?;
                Ok(())
            },
            Event::RoleCreate { guild_id, role } => {
                from_backend(self.upsert_role(CachedRole::from_role(role, guild_id)))?;
                Ok(())
            },
            Event::RoleUpdate { guild_id, role } => {
                from_backend(self.upsert_role(CachedRole::from_role(role, guild_id)))?;
                Ok(())
            },
            Event::RoleDelete { guild_id: _, role_id } => {
                from_backend(self.delete_role(role_id))?;
                Ok(())
            },
            Event::StageInstanceCreate(stage) => {
                from_backend(self.upsert_stage_instance(stage))?;
                Ok(())
            },
            Event::StageInstanceUpdate(stage) => {
                from_backend(self.upsert_stage_instance(stage))?;
                Ok(())
            },
            Event::StageInstanceDelete { id } => {
                from_backend(self.delete_stage_instance(id))?;
                Ok(())
            },
            Event::Other => Ok(()),
        }
    }

    /// Get the permissions with the given parameters: in the guild when no
    /// channel is given, down in the channel otherwise
    ///
    /// What this returns is exactly what [`spec_resolve`] says, at some
    /// wall-clock instant for the timeout restriction; the errors do not
    /// depend on the clock at all
    ///
    /// # Errors
    ///
    /// Returns the error the backend might return
    ///
    /// Returns [`Error::PermissionsGuildMissing`],
    /// [`Error::PermissionsGuildEveryoneRoleMissing`],
    /// [`Error::PermissionsMemberMissing`] or
    /// [`Error::MemberBadTimeoutTimestamp`]
    fn permissions(
        &self,
        user_id: u64,
        guild_id: u64,
        cached_channel: Option<CachedChannel>,
    ) -> (r: Result<u64, Error<Self::Error>>) where Self: Sized
        ensures
            match r {
                Ok(p) => exists|now: i64|
                    spec_resolve::<Self::Error>(self.model(), user_id, guild_id, cached_channel, now)
                        == Ok::<u64, Error<Self::Error>>(p),
                Err(Error::Backend(_)) => true,
                Err(e) => forall|now: i64|
                    spec_resolve::<Self::Error>(self.model(), user_id, guild_id, cached_channel, now)
                        == Err::<u64, Error<Self::Error>>(e),
            },
    {
        let ghost m = self.model();
        let guild = match self.guild(guild_id) {
            Ok(Some(guild)) => guild,
            Ok(None) => {
                return Err(Error::PermissionsGuildMissing(guild_id));
            },
            Err(Error::Backend(e)) => {
                return Err(Error::Backend(e));
            },
            Err(e) => {
                return Err(e);
            },
        };
        let everyone_role = match self.role(guild_id) {
            Ok(Some(role)) => role,
            Ok(None) => {
                return Err(Error::PermissionsGuildEveryoneRoleMissing(guild_id));
            },
            Err(Error::Backend(e)) => {
                return Err(Error::Backend(e));
            },
            Err(e) => {
                return Err(e);
            },
        };
        let member_role_list = match self.member_roles(user_id, guild_id) {
            Ok(list) => list,
            Err(Error::Backend(e)) => {
                return Err(Error::Backend(e));
            },
            Err(e) => {
                return Err(e);
            },
        };
        let base = fold_base_permissions(
            everyone_role.permissions,
            &member_role_list,
            guild_id,
            user_id,
            Ghost(m),
        );

        let calculated: u64;
        if user_id == guild.owner_id || base & ADMINISTRATOR != 0 {
            calculated = ALL_PERMISSIONS;
        } else {
            match &cached_channel {
                None => {
                    calculated = base;
                },
                Some(channel) => {
                    let channel_id = channel.id;
                    let overwrites = match self.permission_overwrites(channel_id) {
                        Ok(overwrites) => overwrites,
                        Err(Error::Backend(e)) => {
                            return Err(Error::Backend(e));
                        },
                        Err(e) => {
                            return Err(e);
                        },
                    };
                    calculated = fold_channel_overwrites(
                        base,
                        &overwrites,
                        &member_role_list,
                        channel_id,
                        guild_id,
                        user_id,
                        Ghost(m),
                    );
                },
            }
        }

        let member = match self.member(user_id, guild_id) {
            Ok(Some(member)) => member,
            Ok(None) => {
                return Err(Error::PermissionsMemberMissing { user_id, guild_id });
            },
            Err(Error::Backend(e)) => {
                return Err(Error::Backend(e));
            },
            Err(e) => {
                return Err(e);
            },
        };
        if calculated & ADMINISTRATOR != 0 {
            proof {
                assert(spec_resolve::<Self::Error>(m, user_id, guild_id, cached_channel, 0i64)
                    == Ok::<u64, Error<Self::Error>>(calculated));
            }
            Ok(calculated)
        } else {
            let now = crate::clock::now_unix_timestamp();
            match member.communication_disabled_at(now) {
                Err(_) => {
                    proof {
                        assert forall|now2: i64|
                            spec_resolve::<Self::Error>(m, user_id, guild_id, cached_channel, now2)
                                == Err::<u64, Error<Self::Error>>(
                                Error::MemberBadTimeoutTimestamp(member),
                            ) by {
                            assert(CachedMember::spec_communication_disabled(member, now2)
                                is Err);
                        }
                    }
                    Err(Error::MemberBadTimeoutTimestamp(member))
                },
                Ok(true) => {
                    proof {
                        assert(spec_resolve::<Self::Error>(
                            m,
                            user_id,
                            guild_id,
                            cached_channel,
                            now,
                        ) == Ok::<u64, Error<Self::Error>>(calculated & TIMEOUT_PERMISSIONS));
                    }
                    Ok(calculated & TIMEOUT_PERMISSIONS)
                },
                Ok(false) => {
                    proof {
                        assert(spec_resolve::<Self::Error>(
                            m,
                            user_id,
                            guild_id,
                            cached_channel,
                            now,
                        ) == Ok::<u64, Error<Self::Error>>(calculated));
                    }
                    Ok(calculated)
                },
            }
        }
    }

    /// Get the permissions of the given user in the given channel
    ///
    /// # Errors
    ///
    /// Returns the error the backend might return
    ///
    /// Returns [`Error::PermissionsChannelMissing`],
    /// [`Error::PermissionsChannelNotInGuild`],
    /// [`Error::PermissionsGuildMissing`],
    /// [`Error::PermissionsGuildEveryoneRoleMissing`],
    /// [`Error::PermissionsMemberMissing`] or
    /// [`Error::MemberBadTimeoutTimestamp`]
    fn channel_permissions(&self, user_id: u64, channel_id: u64) -> (r: Result<
        u64,
        Error<Self::Error>,
    >) where Self: Sized
        ensures
            match r {
                Ok(p) => exists|now: i64|
                    spec_channel_resolve::<Self::Error>(self.model(), user_id, channel_id, now)
                        == Ok::<u64, Error<Self::Error>>(p),
                Err(Error::Backend(_)) => true,
                Err(e) => forall|now: i64|
                    spec_channel_resolve::<Self::Error>(self.model(), user_id, channel_id, now)
                        == Err::<u64, Error<Self::Error>>(e),
            },
    {
        let channel = match self.channel(channel_id) {
            Ok(Some(channel)) => channel,
            Ok(None) => {
                return Err(Error::PermissionsChannelMissing(channel_id));
            },
            Err(Error::Backend(e)) => {
                return Err(Error::Backend(e));
            },
            Err(e) => {
                return Err(e);
            },
        };
        let guild_id = match channel.guild_id {
            Some(guild_id) => guild_id,
            None => {
                return Err(Error::PermissionsChannelNotInGuild(channel));
            },
        };
        let ghost channel_snapshot = channel;
        let r = self.permissions(user_id, guild_id, Some(channel));
        proof {
            if let Ok(ref p) = r {
                let now = choose|now: i64|
                    spec_resolve::<Self::Error>(
                        self.model(),
                        user_id,
                        guild_id,
                        Some(channel_snapshot),
                        now,
                    ) == Ok::<u64, Error<Self::Error>>(*p);
                assert(spec_channel_resolve::<Self::Error>(self.model(), user_id, channel_id, now)
                    == Ok::<u64, Error<Self::Error>>(*p));
            }
        }
        r
    }

    /// Get the permissions of the given user in the given guild
    ///
    /// # Errors
    ///
    /// Returns the error the backend might return
    ///
    /// Returns [`Error::PermissionsGuildMissing`],
    /// [`Error::PermissionsGuildEveryoneRoleMissing`],
    /// [`Error::PermissionsMemberMissing`] or
    /// [`Error::MemberBadTimeoutTimestamp`]
    fn guild_permissions(&self, user_id: u64, guild_id: u64) -> (r: Result<
        u64,
        Error<Self::Error>,
    >) where Self: Sized
        ensures
            match r {
                Ok(p) => exists|now: i64|
                    spec_resolve::<Self::Error>(self.model(), user_id, guild_id, None, now)
                        == Ok::<u64, Error<Self::Error>>(p),
                Err(Error::Backend(_)) => true,
                Err(e) => forall|now: i64|
                    spec_resolve::<Self::Error>(self.model(), user_id, guild_id, None, now)
                        == Err::<u64, Error<Self::Error>>(e),
            },
    {
        self.permissions(user_id, guild_id, None)
    }

    /// Get the permissions of the current user in the given channel
    ///
    /// This is a convenience method for [`Self::channel_permissions`] with
    /// the current user's ID
    ///
    /// # Errors
    ///
    /// Returns the error the backend might return
    ///
    /// Returns [`Error::CurrentUserMissing`] and whatever
    /// [`Self::channel_permissions`] returns
    fn self_channel_permissions(&self, channel_id: u64) -> (r: Result<u64, Error<Self::Error>>)
        where Self: Sized
        ensures
            match r {
                Ok(p) => (match self.model().current_user {
                    Some(user) => exists|now: i64|
                        spec_channel_resolve::<Self::Error>(self.model(), user.id, channel_id, now)
                            == Ok::<u64, Error<Self::Error>>(p),
                    None => false,
                }),
                Err(Error::CurrentUserMissing) => self.model().current_user is None,
                Err(Error::Backend(_)) => true,
                Err(e) => (match self.model().current_user {
                    Some(user) => forall|now: i64|
                        spec_channel_resolve::<Self::Error>(self.model(), user.id, channel_id, now)
                            == Err::<u64, Error<Self::Error>>(e),
                    None => false,
                }),
            },
    {
        let current_user = match self.current_user() {
            Ok(user) => user,
            Err(Error::Backend(e)) => {
                return Err(Error::Backend(e));
            },
            Err(e) => {
                return Err(e);
            },
        };
        let r = self.channel_permissions(current_user.id, channel_id);
        proof {
            if let Err(ref e) = r {
                if *e == Error::<Self::Error>::CurrentUserMissing {
                    assert(spec_channel_resolve::<Self::Error>(
                        self.model(),
                        current_user.id,
                        channel_id,
                        0i64,
                    ) == Err::<u64, Error<Self::Error>>(*e));
                    assert(false);
                }
            }
            if let Ok(ref p) = r {
                let now = choose|now: i64|
                    spec_channel_resolve::<Self::Error>(
                        self.model(),
                        current_user.id,
                        channel_id,
                        now,
                    ) == Ok::<u64, Error<Self::Error>>(*p);
                assert(spec_channel_resolve::<Self::Error>(
                    self.model(),
                    current_user.id,
                    channel_id,
                    now,
                ) == Ok::<u64, Error<Self::Error>>(*p));
            }
        }
        r
    }

    /// Get the permissions of the current user in the given guild
    ///
    /// This is a convenience method for [`Self::guild_permissions`] with the
    /// current user's ID
    ///
    /// # Errors
    ///
    /// Returns the error the backend might return
    ///
    /// Returns [`Error::CurrentUserMissing`] and whatever
    /// [`Self::guild_permissions`] returns
    fn self_guild_permissions(&self, guild_id: u64) -> (r: Result<u64, Error<Self::Error>>) where
        Self: Sized
        ensures
            match r {
                Ok(p) => (match self.model().current_user {
                    Some(user) => exists|now: i64|
                        spec_resolve::<Self::Error>(self.model(), user.id, guild_id, None, now)
                            == Ok::<u64, Error<Self::Error>>(p),
                    None => false,
                }),
                Err(Error::CurrentUserMissing) => self.model().current_user is None,
                Err(Error::Backend(_)) => true,
                Err(e) => (match self.model().current_user {
                    Some(user) => forall|now: i64|
                        spec_resolve::<Self::Error>(self.model(), user.id, guild_id, None, now)
                            == Err::<u64, Error<Self::Error>>(e),
                    None => false,
                }),
            },
    {
        let current_user = match self.current_user() {
            Ok(user) => user,
            Err(Error::Backend(e)) => {
                return Err(Error::Backend(e));
            },
            Err(e) => {
                return Err(e);
            },
        };
        let r = self.guild_permissions(current_user.id, guild_id);
        proof {
            if let Err(ref e) = r {
                if *e == Error::<Self::Error>::CurrentUserMissing {
                    assert(spec_resolve::<Self::Error>(
                        self.model(),
                        current_user.id,
                        guild_id,
                        None,
                        0i64,
                    ) == Err::<u64, Error<Self::Error>>(*e));
                    assert(false);
                }
            }
            if let Ok(ref p) = r {
                let now = choose|now: i64|
                    spec_resolve::<Self::Error>(self.model(), current_user.id, guild_id, None, now)
                        == Ok::<u64, Error<Self::Error>>(*p);
                assert(spec_resolve::<Self::Error>(
                    self.model(),
                    current_user.id,
                    guild_id,
                    None,
                    now,
                ) == Ok::<u64, Error<Self::Error>>(*p));
            }
        }
        r
    }
}

} // verus!
