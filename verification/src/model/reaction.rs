use vstd::prelude::*;

verus! {

/// The emoji of a reaction: either a custom emoji keyed by its ID or a
/// unicode emoji keyed by its name
///
/// Reactions are cached under this value; backends that store reactions as
/// text can render the ID as its decimal digits
#[derive(Clone, Debug, PartialEq, Eq)]
pub enum ReactionEmoji {
    /// A custom emoji, keyed by its ID
    Custom { id: u64 },
    /// A unicode emoji, keyed by its name
    Unicode { name: String },
}

/// The mathematical key of a [`ReactionEmoji`]: the name is taken by its
/// characters, so that two emojis with the same text are the same key
pub enum EmojiKey {
    Custom(u64),
    Unicode(Seq<char>),
}

impl ReactionEmoji {
    /// The key under which a reaction with this emoji is cached
    pub open spec fn key(self) -> EmojiKey {
        match self {
            ReactionEmoji::Custom { id } => EmojiKey::Custom(id),
            ReactionEmoji::Unicode { name } => EmojiKey::Unicode(name@),
        }
    }

    /// Whether this emoji and `other` are cached under the same key
    pub fn same_key(&self, other: &ReactionEmoji) -> (r: bool)
        ensures
            r == (self.key() == other.key()),
    {
        match (self, other) {
            (ReactionEmoji::Custom { id }, ReactionEmoji::Custom { id: other_id }) => {
                *id == *other_id
            },
            (ReactionEmoji::Unicode { name }, ReactionEmoji::Unicode { name: other_name }) => {
                *name == *other_name
            },
            _ => false,
        }
    }
}

/// A cached reaction
///
/// It's the same as a reaction on the wire except:
///
/// - `member` field is removed, as members are cached separately
///
/// Only the combination of message ID, user ID and emoji key is unique;
/// none of them is unique on its own
#[derive(Clone, Debug, PartialEq, Eq)]
pub struct CachedReaction {
    pub channel_id: u64,
    pub emoji: ReactionEmoji,
    pub guild_id: Option<u64>,
    pub message_id: u64,
    pub user_id: u64,
}

/// A reaction as a delta event carries it
#[derive(Clone, Debug, PartialEq, Eq)]
pub struct Reaction {
    pub channel_id: u64,
    pub emoji: ReactionEmoji,
    pub guild_id: Option<u64>,
    pub message_id: u64,
    pub user_id: u64,
}

impl CachedReaction {
    /// What [`Self::from_reaction`] returns
    pub open spec fn spec_from_reaction(reaction: Reaction) -> Self {
        CachedReaction {
            channel_id: reaction.channel_id,
            emoji: reaction.emoji,
            guild_id: reaction.guild_id,
            message_id: reaction.message_id,
            user_id: reaction.user_id,
        }
    }

    /// Create a cached reaction from a given reaction
    pub fn from_reaction(reaction: Reaction) -> (r: Self)
        ensures
            r == Self::spec_from_reaction(reaction),
    {
        Self {
            channel_id: reaction.channel_id,
            emoji: reaction.emoji,
            guild_id: reaction.guild_id,
            message_id: reaction.message_id,
            user_id: reaction.user_id,
        }
    }
}

} // verus!
