use vstd::prelude::*;

use crate::model::{
    CachedCurrentUser, CachedStageInstance, Channel, Emoji, Guild, Member, MemberUpdate, Message,
    MessageUpdate, PartialGuild, Presence, Reaction, ReactionEmoji, Role, Sticker,
};

verus! {

/// The remains of a thread that was deleted
#[derive(Clone, Debug, PartialEq, Eq)]
pub struct ThreadDelete {
    pub guild_id: u64,
    pub id: u64,
    pub parent_id: Option<u64>,
}

/// A guild was deleted, or became unavailable
#[derive(Clone, Copy, Debug, PartialEq, Eq, Structural)]
pub struct GuildDelete {
    pub id: u64,
    /// When set, the guild suffered a temporary outage and was not really
    /// deleted: the event must leave the cache untouched
    pub unavailable: bool,
}

/// A delta event from the remote service
///
/// One variant per resource-lifecycle transition the synchronizer handles;
/// kinds this library does not track arrive as [`Event::Other`] and are a
/// documented no-op
#[derive(Clone, Debug, PartialEq, Eq)]
pub enum Event {
    ChannelCreate(Channel),
    ChannelUpdate(Channel),
    ChannelDelete(Channel),
    ThreadCreate(Channel),
    ThreadUpdate(Channel),
    ThreadDelete(ThreadDelete),
    GuildCreate(Guild),
    GuildUpdate(PartialGuild),
    GuildDelete(GuildDelete),
    GuildEmojisUpdate { guild_id: u64, emojis: Vec<Emoji> },
    GuildStickersUpdate { guild_id: u64, stickers: Vec<Sticker> },
    MemberAdd(Member),
    MemberChunk { members: Vec<Member> },
    MemberUpdate(MemberUpdate),
    MemberRemove { guild_id: u64, user_id: u64 },
    MessageCreate(Message),
    MessageUpdate(MessageUpdate),
    MessageDelete { id: u64 },
    MessageDeleteBulk { ids: Vec<u64> },
    PresenceUpdate(Presence),
    ReactionAdd(Reaction),
    ReactionRemove(Reaction),
    ReactionRemoveEmoji { message_id: u64, emoji: ReactionEmoji },
    ReactionRemoveAll { message_id: u64 },
    Ready { user: CachedCurrentUser },
    UserUpdate(CachedCurrentUser),
    RoleCreate { guild_id: u64, role: Role },
    RoleUpdate { guild_id: u64, role: Role },
    RoleDelete { guild_id: u64, role_id: u64 },
    StageInstanceCreate(CachedStageInstance),
    StageInstanceUpdate(CachedStageInstance),
    StageInstanceDelete { id: u64 },
    /// An event kind the cache does not track; updating with it is a no-op
    Other,
}

} // verus!
