use vstd::prelude::*;

verus! {

/// A cached member
///
/// It's the same as a member on the wire except:
///
/// - the user is flattened into it and the user's `avatar` field is renamed to
///   `avatar` while the member's is `guild_avatar`, since member users are
///   rarely duplicates, making this struct easier to cache
///
/// - `roles` field is removed, as member roles are cached separately
///
/// - `email` and `verified` fields are removed, as they're only sent by some
///   HTTP endpoints
#[derive(Clone, Debug, PartialEq, Eq)]
pub struct CachedMember {
    pub guild_avatar: Option<String>,
    pub communication_disabled_until: Option<i64>,
    pub deaf: bool,
    pub guild_id: u64,
    pub joined_at: i64,
    pub mute: bool,
    pub nick: Option<String>,
    pub pending: bool,
    pub premium_since: Option<i64>,
    pub accent_color: Option<u32>,
    pub avatar: Option<String>,
    pub banner: Option<String>,
    pub bot: bool,
    pub discriminator: u16,
    pub flags: Option<u64>,
    pub id: u64,
    pub locale: Option<String>,
    pub mfa_enabled: Option<bool>,
    pub name: String,
    pub premium_type: Option<u8>,
    pub public_flags: Option<u64>,
    pub system: Option<bool>,
}

/// A member as a delta event carries it: the cached row plus the role IDs the
/// member holds
#[derive(Clone, Debug, PartialEq, Eq)]
pub struct Member {
    /// The member row itself
    pub member: CachedMember,
    /// The IDs of the roles the member holds
    pub roles: Vec<u64>,
}

/// Whether a partial payload carries a field
///
/// A partial update applies only the fields it carries and preserves every
/// other one, so "not carried" is kept apart from any carried value — in
/// particular from a carried clearing, where the value is itself an option
#[derive(Clone, Debug, PartialEq, Eq)]
pub enum FieldUpdate<T> {
    /// The payload does not carry the field; the cached value stays
    Keep,
    /// The payload carries this value, which replaces the cached one
    Replace(T),
}

/// A partial member-update payload
///
/// The member-level fields are each marked carried or not; a field the
/// payload does not carry leaves the cached value untouched.  The user-level
/// fields below them are always carried, since the event always embeds the
/// whole user, and the role IDs always fully replace the member's
/// assignments
#[derive(Clone, Debug, PartialEq, Eq)]
pub struct MemberUpdate {
    pub guild_id: u64,
    pub roles: Vec<u64>,
    pub avatar: FieldUpdate<Option<String>>,
    pub communication_disabled_until: FieldUpdate<Option<i64>>,
    pub deaf: FieldUpdate<bool>,
    pub mute: FieldUpdate<bool>,
    pub nick: FieldUpdate<Option<String>>,
    pub pending: FieldUpdate<bool>,
    pub premium_since: FieldUpdate<Option<i64>>,
    pub accent_color: Option<u32>,
    pub user_avatar: Option<String>,
    pub banner: Option<String>,
    pub discriminator: u16,
    pub flags: Option<u64>,
    pub user_id: u64,
    pub locale: Option<String>,
    pub mfa_enabled: Option<bool>,
    pub name: String,
    pub premium_type: Option<u8>,
    pub public_flags: Option<u64>,
    pub system: Option<bool>,
}

/// The timeout timestamp of a member failed to parse as a point in time
#[derive(Clone, Copy, Debug, PartialEq, Eq, Structural)]
pub struct BadTimeoutTimestamp;

impl CachedMember {
    /// Whether the member is timed out at the wall-clock time `now` (in unix
    /// seconds): the member carries a timeout timestamp that lies in the
    /// future.  A timestamp outside the supported calendar range is an error,
    /// never treated as "not timed out".
    pub open spec fn spec_communication_disabled(
        member: CachedMember,
        now: i64,
    ) -> Result<bool, BadTimeoutTimestamp> {
        match member.communication_disabled_until {
            None => Ok(false),
            Some(timestamp) => if crate::clock::timestamp_in_range(timestamp) {
                Ok(timestamp > now)
            } else {
                Err(BadTimeoutTimestamp)
            },
        }
    }

    /// Return whether the member is timed out at the given wall-clock time,
    /// in unix seconds
    ///
    /// # Errors
    ///
    /// Returns an error if the member's timeout timestamp isn't a valid point
    /// in time
    pub fn communication_disabled_at(&self, now: i64) -> (r: Result<bool, BadTimeoutTimestamp>)
        ensures
            r == Self::spec_communication_disabled(*self, now),
    {
        if let Some(timestamp) = self.communication_disabled_until {
            if crate::clock::unix_timestamp_valid(timestamp) {
                Ok(timestamp > now)
            } else {
                Err(BadTimeoutTimestamp)
            }
        } else {
            Ok(false)
        }
    }

    /// Return whether the member is timed out now
    ///
    /// # Warnings
    ///
    /// Make sure the system time is correct
    ///
    /// # Errors
    ///
    /// Returns an error if the member's timeout timestamp isn't a valid point
    /// in time
    pub fn communication_disabled(&self) -> (r: Result<bool, BadTimeoutTimestamp>)
        ensures
            exists|now: i64| r == Self::spec_communication_disabled(*self, now),
            r is Err <==> (match self.communication_disabled_until {
                Some(timestamp) => !crate::clock::timestamp_in_range(timestamp),
                None => false,
            }),
    {
        let now = crate::clock::now_unix_timestamp();
        let r = self.communication_disabled_at(now);
        proof {
            assert(r == Self::spec_communication_disabled(*self, now));
        }
        r
    }

    /// What a member row is after applying the partial update `member`: the
    /// fields the payload carries are replaced, every field it does not
    /// carry is kept as it was
    pub open spec fn spec_update(old: CachedMember, member: MemberUpdate) -> CachedMember {
        CachedMember {
            guild_avatar: match member.avatar {
                FieldUpdate::Replace(avatar) => avatar,
                FieldUpdate::Keep => old.guild_avatar,
            },
            communication_disabled_until: match member.communication_disabled_until {
                FieldUpdate::Replace(timestamp) => timestamp,
                FieldUpdate::Keep => old.communication_disabled_until,
            },
            deaf: match member.deaf {
                FieldUpdate::Replace(deaf) => deaf,
                FieldUpdate::Keep => old.deaf,
            },
            mute: match member.mute {
                FieldUpdate::Replace(mute) => mute,
                FieldUpdate::Keep => old.mute,
            },
            nick: match member.nick {
                FieldUpdate::Replace(nick) => nick,
                FieldUpdate::Keep => old.nick,
            },
            pending: match member.pending {
                FieldUpdate::Replace(pending) => pending,
                FieldUpdate::Keep => old.pending,
            },
            premium_since: match member.premium_since {
                FieldUpdate::Replace(timestamp) => timestamp,
                FieldUpdate::Keep => old.premium_since,
            },
            accent_color: member.accent_color,
            avatar: member.user_avatar,
            banner: member.banner,
            discriminator: member.discriminator,
            flags: member.flags,
            id: member.user_id,
            locale: member.locale,
            mfa_enabled: member.mfa_enabled,
            name: member.name,
            premium_type: member.premium_type,
            public_flags: member.public_flags,
            system: member.system,
            ..old
        }
    }

    /// Update the cached member with the partial member: only the fields the
    /// payload carries are applied
    pub fn update(&mut self, member: &MemberUpdate)
        ensures
            *final(self) == Self::spec_update(*old(self), *member),
    {
        match &member.avatar {
            FieldUpdate::Replace(avatar) => {
                self.guild_avatar = clone_opt_string(avatar);
            },
            FieldUpdate::Keep => {},
        }
        match &member.communication_disabled_until {
            FieldUpdate::Replace(timestamp) => {
                self.communication_disabled_until = *timestamp;
            },
            FieldUpdate::Keep => {},
        }
        match &member.deaf {
            FieldUpdate::Replace(deaf) => {
                self.deaf = *deaf;
            },
            FieldUpdate::Keep => {},
        }
        match &member.mute {
            FieldUpdate::Replace(mute) => {
                self.mute = *mute;
            },
            FieldUpdate::Keep => {},
        }
        match &member.nick {
            FieldUpdate::Replace(nick) => {
                self.nick = clone_opt_string(nick);
            },
            FieldUpdate::Keep => {},
        }
        match &member.pending {
            FieldUpdate::Replace(pending) => {
                self.pending = *pending;
            },
            FieldUpdate::Keep => {},
        }
        match &member.premium_since {
            FieldUpdate::Replace(timestamp) => {
                self.premium_since = *timestamp;
            },
            FieldUpdate::Keep => {},
        }
        self.accent_color = member.accent_color;
        self.avatar = clone_opt_string(&member.user_avatar);
        self.banner = clone_opt_string(&member.banner);
        self.discriminator = member.discriminator;
        self.flags = member.flags;
        self.id = member.user_id;
        self.locale = clone_opt_string(&member.locale);
        self.mfa_enabled = member.mfa_enabled;
        self.name = member.name.clone();
        self.premium_type = member.premium_type;
        self.public_flags = member.public_flags;
        self.system = member.system;
    }
}

/// Clones an optional string, keeping its value
pub fn clone_opt_string(s: &Option<String>) -> (r: Option<String>)
    ensures
        r == *s,
{
    match s {
        Some(inner) => Some(inner.clone()),
        None => None,
    }
}

} // verus!
