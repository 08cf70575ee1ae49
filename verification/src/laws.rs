use vstd::prelude::*;

use crate::cache::Error;
use crate::events::{Event, GuildDelete};
use crate::model::{
    BadTimeoutTimestamp, CachedAttachment, CachedChannel, CachedCurrentUser, CachedEmbed,
    CachedEmoji, CachedGuild, CachedMember, CachedMessage, CachedPermissionOverwrite,
    CachedPresence, CachedReaction, CachedRole, CachedStageInstance, CachedSticker, EmojiKey,
    MemberUpdate,
};
use crate::permissions::{
    member_overwrite_bits, spec_base_permissions, spec_channel_permissions, spec_resolve,
    ADMINISTRATOR, ALL_PERMISSIONS, TIMEOUT_PERMISSIONS,
};
use crate::state::CacheModel;
use crate::sync::{apply_member_roles, apply_member_update, apply_message_delete, spec_apply};

verus! {

/// Upsert idempotence: applying the identical upsert for an entity twice
/// yields the same stored state as applying it once, for every keyed entity
/// the cache holds
pub proof fn lemma_upsert_idempotent(
    m: CacheModel,
    user: CachedCurrentUser,
    channel: CachedChannel,
    overwrite: CachedPermissionOverwrite,
    message: CachedMessage,
    embed: CachedEmbed,
    attachment: CachedAttachment,
    reaction: CachedReaction,
    member: CachedMember,
    presence: CachedPresence,
    guild: CachedGuild,
    role: CachedRole,
    emoji: CachedEmoji,
    sticker: CachedSticker,
    stage: CachedStageInstance,
)
    ensures
        m.with_current_user(user).with_current_user(user) == m.with_current_user(user),
        m.with_channel(channel).with_channel(channel) == m.with_channel(channel),
        m.with_overwrite(overwrite).with_overwrite(overwrite) == m.with_overwrite(overwrite),
        m.with_message(message).with_message(message) == m.with_message(message),
        m.with_embed(embed).with_embed(embed) == m.with_embed(embed),
        m.with_attachment(attachment).with_attachment(attachment) == m.with_attachment(
            attachment,
        ),
        m.with_reaction(reaction).with_reaction(reaction) == m.with_reaction(reaction),
        m.with_member(member).with_member(member) == m.with_member(member),
        m.with_presence(presence).with_presence(presence) == m.with_presence(presence),
        m.with_guild(guild).with_guild(guild) == m.with_guild(guild),
        m.with_role(role).with_role(role) == m.with_role(role),
        m.with_emoji(emoji).with_emoji(emoji) == m.with_emoji(emoji),
        m.with_sticker(sticker).with_sticker(sticker) == m.with_sticker(sticker),
        m.with_stage(stage).with_stage(stage) == m.with_stage(stage),
{
    assert(m.with_current_user(user).with_current_user(user) =~= m.with_current_user(user));
    assert(m.with_channel(channel).with_channel(channel) =~= m.with_channel(channel));
    assert(m.with_overwrite(overwrite).with_overwrite(overwrite) =~= m.with_overwrite(overwrite));
    assert(m.with_message(message).with_message(message) =~= m.with_message(message));
    assert(m.with_embed(embed).with_embed(embed) =~= m.with_embed(embed));
    assert(m.with_attachment(attachment).with_attachment(attachment) =~= m.with_attachment(
        attachment,
    ));
    assert(m.with_reaction(reaction).with_reaction(reaction) =~= m.with_reaction(reaction));
    assert(m.with_member(member).with_member(member) =~= m.with_member(member));
    assert(m.with_presence(presence).with_presence(presence) =~= m.with_presence(presence));
    assert(m.with_guild(guild).with_guild(guild) =~= m.with_guild(guild));
    assert(m.with_role(role).with_role(role) =~= m.with_role(role));
    assert(m.with_emoji(emoji).with_emoji(emoji) =~= m.with_emoji(emoji));
    assert(m.with_sticker(sticker).with_sticker(sticker) =~= m.with_sticker(sticker));
    assert(m.with_stage(stage).with_stage(stage) =~= m.with_stage(stage));
}

/// Cascade completeness: after a message-delete event, none of the message's
/// embeds, embed fields, attachments, reactions or stickers remain
/// queryable, and the message row itself is gone
pub proof fn lemma_message_delete_cascades<E>(m: CacheModel, message_id: u64)
    ensures
        spec_apply::<E>(m, Event::MessageDelete { id: message_id }) == Ok::<
            CacheModel,
            Error<E>,
        >(apply_message_delete(m, message_id)),
        !apply_message_delete(m, message_id).messages.contains_key(message_id),
        forall|id: u64|
            #[trigger] apply_message_delete(m, message_id).embeds.contains_key(id)
                ==> apply_message_delete(m, message_id).embeds[id].message_id != message_id,
        forall|id: u64|
            m.embeds.contains_key(id) && (#[trigger] m.embeds[id]).message_id == message_id
                ==> !apply_message_delete(m, message_id).embeds.contains_key(id)
                    && !apply_message_delete(m, message_id).embed_fields.contains_key(id),
        forall|id: u64|
            #[trigger] apply_message_delete(m, message_id).attachments.contains_key(id)
                ==> apply_message_delete(m, message_id).attachments[id].message_id != message_id,
        forall|k: (u64, u64, EmojiKey)|
            #[trigger] apply_message_delete(m, message_id).reactions.contains_key(k)
                ==> k.0 != message_id,
        forall|id: u64|
            #[trigger] apply_message_delete(m, message_id).stickers.contains_key(id)
                ==> apply_message_delete(m, message_id).stickers[id].message_id != Some(
                    message_id,
                ),
{
}

/// Whether a sequence holds an element is decided by its head and its tail
proof fn lemma_seq_contains_split(s: Seq<u64>, x: u64)
    requires
        s.len() > 0,
    ensures
        s.contains(x) <==> (s[0] == x || s.skip(1).contains(x)),
{
    if s.contains(x) {
        let i = choose|i: int| 0 <= i < s.len() && s[i] == x;
        if i > 0 {
            assert(s.skip(1)[i - 1] == x);
        }
    }
    if s.skip(1).contains(x) {
        let i = choose|i: int| 0 <= i < s.skip(1).len() && s.skip(1)[i] == x;
        assert(s[i + 1] == x);
    }
}

/// The state after recording a member's role assignments, or the state
/// unchanged where recording fails
spec fn roles_after<E>(m: CacheModel, user_id: u64, role_ids: Seq<u64>) -> CacheModel {
    match apply_member_roles::<E>(m, user_id, role_ids) {
        Ok(m2) => m2,
        Err(_) => m,
    }
}

/// Recording a member's role assignments succeeds when every role definition
/// is cached in the guild, adds exactly one assignment row per listed role,
/// and touches nothing else
proof fn lemma_apply_member_roles_effect<E>(
    m: CacheModel,
    user_id: u64,
    role_ids: Seq<u64>,
    guild_id: u64,
)
    requires
        forall|i: int|
            0 <= i < role_ids.len() ==> m.roles.contains_key(((#[trigger] role_ids[i]), None))
                && m.roles[(role_ids[i], None)].guild_id == guild_id && m.roles[
                (role_ids[i], None)
            ].id == role_ids[i],
    ensures
        apply_member_roles::<E>(m, user_id, role_ids) is Ok,
        roles_after::<E>(m, user_id, role_ids) == (CacheModel {
            roles: roles_after::<E>(m, user_id, role_ids).roles,
            ..m
        }),
        forall|k: (u64, Option<u64>)|
            k.1 != Some(user_id) ==> (#[trigger] roles_after::<E>(
                m,
                user_id,
                role_ids,
            ).roles.contains_key(k) == m.roles.contains_key(k)) && (m.roles.contains_key(k)
                ==> roles_after::<E>(m, user_id, role_ids).roles[k] == m.roles[k]),
        forall|rid: u64|
            #[trigger] role_ids.contains(rid) ==> roles_after::<E>(
                m,
                user_id,
                role_ids,
            ).roles.contains_key((rid, Some(user_id))) && roles_after::<E>(
                m,
                user_id,
                role_ids,
            ).roles[(rid, Some(user_id))].guild_id == guild_id && roles_after::<E>(
                m,
                user_id,
                role_ids,
            ).roles[(rid, Some(user_id))].user_id == Some(user_id),
        forall|rid: u64|
            !(#[trigger] role_ids.contains(rid)) ==> (roles_after::<E>(
                m,
                user_id,
                role_ids,
            ).roles.contains_key((rid, Some(user_id))) == m.roles.contains_key(
                (rid, Some(user_id)),
            )) && (m.roles.contains_key((rid, Some(user_id))) ==> roles_after::<E>(
                m,
                user_id,
                role_ids,
            ).roles[(rid, Some(user_id))] == m.roles[(rid, Some(user_id))]),
    decreases role_ids.len(),
{
    if role_ids.len() == 0 {
        assert(roles_after::<E>(m, user_id, role_ids) =~= (CacheModel {
            roles: roles_after::<E>(m, user_id, role_ids).roles,
            ..m
        }));
    } else {
        let rid0 = role_ids[0];
        let assignment = CachedRole { user_id: Some(user_id), ..m.roles[(rid0, None)] };
        let m1 = m.with_role(assignment);
        assert forall|i: int|
            0 <= i < role_ids.skip(1).len() implies m1.roles.contains_key(
            ((#[trigger] role_ids.skip(1)[i]), None),
        ) && m1.roles[(role_ids.skip(1)[i], None)].guild_id == guild_id && m1.roles[
            (role_ids.skip(1)[i], None)
        ].id == role_ids.skip(1)[i] by {
            assert(role_ids.skip(1)[i] == role_ids[i + 1]);
        }
        lemma_apply_member_roles_effect::<E>(m1, user_id, role_ids.skip(1), guild_id);
        assert(assignment.id == rid0);
        assert(apply_member_roles::<E>(m, user_id, role_ids) == apply_member_roles::<E>(
            m1,
            user_id,
            role_ids.skip(1),
        ));
        let after = roles_after::<E>(m, user_id, role_ids);
        assert(after == roles_after::<E>(m1, user_id, role_ids.skip(1)));
        assert(after =~= (CacheModel { roles: after.roles, ..m }));
        assert forall|k: (u64, Option<u64>)|
            k.1 != Some(user_id) implies (#[trigger] after.roles.contains_key(k)
            == m.roles.contains_key(k)) && (m.roles.contains_key(k) ==> after.roles[k]
            == m.roles[k]) by {
            assert(k != (rid0, Some(user_id)));
            assert(m1.roles.contains_key(k) == m.roles.contains_key(k));
        }
        assert forall|rid: u64| #[trigger]
            role_ids.contains(rid) implies after.roles.contains_key((rid, Some(user_id)))
            && after.roles[(rid, Some(user_id))].guild_id == guild_id && after.roles[
            (rid, Some(user_id))
        ].user_id == Some(user_id) by {
            lemma_seq_contains_split(role_ids, rid);
            if !role_ids.skip(1).contains(rid) {
                assert(rid == rid0);
                assert(m1.roles.contains_key((rid0, Some(user_id))));
                assert(m1.roles[(rid0, Some(user_id))] == assignment);
            }
        }
        assert forall|rid: u64|
            !(#[trigger] role_ids.contains(rid)) implies (after.roles.contains_key(
            (rid, Some(user_id)),
        ) == m.roles.contains_key((rid, Some(user_id)))) && (m.roles.contains_key(
            (rid, Some(user_id)),
        ) ==> after.roles[(rid, Some(user_id))] == m.roles[(rid, Some(user_id))]) by {
            lemma_seq_contains_split(role_ids, rid);
            assert(rid != rid0) by {
                assert(role_ids[0] == rid0);
                if rid == rid0 {
                    assert(role_ids.contains(rid0));
                }
            }
            assert(!role_ids.skip(1).contains(rid));
            assert(m1.roles.contains_key((rid, Some(user_id))) == m.roles.contains_key(
                (rid, Some(user_id)),
            ));
        }
    }
}

/// Partial-update preservation: a member update leaves every field the
/// payload does not carry exactly as it was — nick, guild avatar, timeout,
/// deafen, mute, pending and premium markers each stay unless carried, and
/// the fields no partial payload ever carries (the join time, the bot flag,
/// the guild) always stay
pub proof fn lemma_member_update_preserves_uncarried(
    before: CachedMember,
    update: MemberUpdate,
)
    ensures
        update.nick is Keep ==> CachedMember::spec_update(before, update).nick == before.nick,
        update.avatar is Keep ==> CachedMember::spec_update(before, update).guild_avatar
            == before.guild_avatar,
        update.communication_disabled_until is Keep ==> CachedMember::spec_update(
            before,
            update,
        ).communication_disabled_until == before.communication_disabled_until,
        update.deaf is Keep ==> CachedMember::spec_update(before, update).deaf == before.deaf,
        update.mute is Keep ==> CachedMember::spec_update(before, update).mute == before.mute,
        update.pending is Keep ==> CachedMember::spec_update(before, update).pending
            == before.pending,
        update.premium_since is Keep ==> CachedMember::spec_update(before, update).premium_since
            == before.premium_since,
        CachedMember::spec_update(before, update).joined_at == before.joined_at,
        CachedMember::spec_update(before, update).guild_id == before.guild_id,
        CachedMember::spec_update(before, update).bot == before.bot,
{
}

/// Role-assignment replace semantics: a member-update event carrying a role
/// set leaves the member with exactly that set assigned, when every carried
/// role's definition is cached in the guild — roles no longer listed are
/// removed and newly listed ones are added
pub proof fn lemma_member_update_replaces_roles<E>(m: CacheModel, update: MemberUpdate)
    requires
        m.members.contains_key((update.guild_id, update.user_id)),
        forall|i: int|
            0 <= i < update.roles@.len() ==> m.roles.contains_key(
                ((#[trigger] update.roles@[i]), None),
            ) && m.roles[(update.roles@[i], None)].guild_id == update.guild_id && m.roles[
                (update.roles@[i], None)
            ].id == update.roles@[i],
    ensures
        apply_member_update::<E>(m, update) is Ok,
        ({
            let m2 = match apply_member_update::<E>(m, update) {
                Ok(m2) => m2,
                Err(_) => m,
            };
            forall|rid: u64|
                (#[trigger] m2.roles.contains_key((rid, Some(update.user_id)))
                    && m2.roles[(rid, Some(update.user_id))].guild_id == update.guild_id)
                    <==> update.roles@.contains(rid)
        }),
{
    let merged = CachedMember::spec_update(
        m.members[(update.guild_id, update.user_id)],
        update,
    );
    let m1 = m.with_member(merged);
    let m2 = m1.without_member_roles(update.guild_id, update.user_id);
    assert forall|i: int|
        0 <= i < update.roles@.len() implies m2.roles.contains_key(
        ((#[trigger] update.roles@[i]), None),
    ) && m2.roles[(update.roles@[i], None)].guild_id == update.guild_id && m2.roles[
        (update.roles@[i], None)
    ].id == update.roles@[i] by {}
    lemma_apply_member_roles_effect::<E>(m2, update.user_id, update.roles@, update.guild_id);
}

/// A member-update event carrying a role whose definition is not cached is
/// rejected rather than silently dropping the role
pub proof fn lemma_member_update_missing_role_fails<E>(m: CacheModel, update: MemberUpdate)
    requires
        m.members.contains_key((update.guild_id, update.user_id)),
        exists|i: int|
            0 <= i < update.roles@.len() && !m.roles.contains_key(
                ((#[trigger] update.roles@[i]), None),
            ),
    ensures
        apply_member_update::<E>(m, update) is Err,
{
    let merged = CachedMember::spec_update(
        m.members[(update.guild_id, update.user_id)],
        update,
    );
    let m1 = m.with_member(merged);
    let m2 = m1.without_member_roles(update.guild_id, update.user_id);
    lemma_apply_member_roles_missing::<E>(m2, update.user_id, update.roles@);
}

/// Recording role assignments fails when some listed role has no cached
/// definition
proof fn lemma_apply_member_roles_missing<E>(m: CacheModel, user_id: u64, role_ids: Seq<u64>)
    requires
        exists|i: int|
            0 <= i < role_ids.len() && !m.roles.contains_key(((#[trigger] role_ids[i]), None)),
    ensures
        apply_member_roles::<E>(m, user_id, role_ids) is Err,
    decreases role_ids.len(),
{
    let i = choose|i: int|
        0 <= i < role_ids.len() && !m.roles.contains_key(((role_ids[i]), None));
    if m.roles.contains_key((role_ids[0], None)) {
        let assignment = CachedRole { user_id: Some(user_id), ..m.roles[(role_ids[0], None)] };
        let m1 = m.with_role(assignment);
        assert(i > 0);
        assert(role_ids.skip(1)[i - 1] == role_ids[i]);
        assert(!m1.roles.contains_key((role_ids.skip(1)[i - 1], None)));
        lemma_apply_member_roles_missing::<E>(m1, user_id, role_ids.skip(1));
    }
}

/// Permission overwrite precedence: every bit the member-specific overwrite
/// allows is granted in the resolved channel permissions, whatever the
/// earlier everyone and role overwrites denied
pub proof fn lemma_member_overwrite_allow_wins(
    m: CacheModel,
    base: u64,
    channel_id: u64,
    guild_id: u64,
    user_id: u64,
)
    ensures
        spec_channel_permissions(m, base, channel_id, guild_id, user_id) & member_overwrite_bits(
            m,
            channel_id,
            user_id,
        ).0 == member_overwrite_bits(m, channel_id, user_id).0,
{
    let allow = member_overwrite_bits(m, channel_id, user_id).0;
    let deny = member_overwrite_bits(m, channel_id, user_id).1;
    let p = spec_channel_permissions(m, base, channel_id, guild_id, user_id);
    let before = crate::permissions::apply_overwrite_pair(
        crate::permissions::apply_overwrite_pair(
            base,
            crate::permissions::everyone_overwrite_bits(m, channel_id, guild_id).1,
            crate::permissions::everyone_overwrite_bits(m, channel_id, guild_id).0,
        ),
        crate::permissions::or_over(
            crate::permissions::role_overwrite_keys(m, channel_id, guild_id, user_id),
            crate::permissions::overwrite_deny_bits(m),
        ),
        crate::permissions::or_over(
            crate::permissions::role_overwrite_keys(m, channel_id, guild_id, user_id),
            crate::permissions::overwrite_allow_bits(m),
        ),
    );
    assert(p == (before & !deny) | allow);
    assert((((before & !deny) | allow) & allow) == allow) by (bit_vector);
}

/// Timeout restriction: when a member is timed out at the moment of
/// resolution, a resolved permission set without the administrator bit is a
/// subset of the timeout permissions
pub proof fn lemma_timeout_restricts<E>(
    m: CacheModel,
    user_id: u64,
    guild_id: u64,
    channel: Option<CachedChannel>,
    now: i64,
)
    requires
        m.members.contains_key((guild_id, user_id)),
        CachedMember::spec_communication_disabled(m.members[(guild_id, user_id)], now) == Ok::<
            bool,
            BadTimeoutTimestamp,
        >(true),
    ensures
        match spec_resolve::<E>(m, user_id, guild_id, channel, now) {
            Ok(p) => p & ADMINISTRATOR != 0 || p & !TIMEOUT_PERMISSIONS == 0,
            Err(_) => true,
        },
{
    if spec_resolve::<E>(m, user_id, guild_id, channel, now) is Ok {
        let guild = m.guilds[guild_id];
        let base = spec_base_permissions(m, guild_id, user_id);
        let calculated = if user_id == guild.owner_id || base & ADMINISTRATOR != 0 {
            ALL_PERMISSIONS
        } else {
            match channel {
                None => base,
                Some(ch) => spec_channel_permissions(m, base, ch.id, guild_id, user_id),
            }
        };
        if calculated & ADMINISTRATOR == 0 {
            let c = calculated;
            let t = TIMEOUT_PERMISSIONS;
            assert(((c & t) & !t) == 0) by (bit_vector);
        }
    }
}

/// An administrator's permissions are untouched by overwrites and timeouts:
/// a member whose base permissions carry the administrator bit resolves to
/// every permission, at every instant
pub proof fn lemma_administrator_bypasses_timeout<E>(
    m: CacheModel,
    user_id: u64,
    guild_id: u64,
    channel: Option<CachedChannel>,
    now: i64,
)
    requires
        m.guilds.contains_key(guild_id),
        m.roles.contains_key((guild_id, None)),
        m.members.contains_key((guild_id, user_id)),
        spec_base_permissions(m, guild_id, user_id) & ADMINISTRATOR != 0,
    ensures
        spec_resolve::<E>(m, user_id, guild_id, channel, now) == Ok::<u64, Error<E>>(
            ALL_PERMISSIONS,
        ),
{
    assert(ALL_PERMISSIONS & ADMINISTRATOR != 0) by (bit_vector);
}

/// Unavailable-guild no-op: a guild-delete event carrying the unavailable
/// flag leaves the cache exactly as it was, the guild and every owned
/// collection untouched
pub proof fn lemma_unavailable_guild_noop<E>(m: CacheModel, guild_id: u64)
    ensures
        spec_apply::<E>(
            m,
            Event::GuildDelete(GuildDelete { id: guild_id, unavailable: true }),
        ) == Ok::<CacheModel, Error<E>>(m),
{
}

} // verus!
