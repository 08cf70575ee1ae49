pub use channel::{
    CachedChannel, CachedPermissionOverwrite, Channel, ChannelKind, OverwriteKind,
    PermissionOverwrite, ThreadMetadata,
};
pub use emoji::{CachedEmoji, Emoji};
pub use guild::{CachedGuild, Guild, PartialGuild};
pub use member::{BadTimeoutTimestamp, CachedMember, FieldUpdate, Member, MemberUpdate};
pub use message::{
    Attachment, CachedAttachment, CachedEmbed, CachedEmbedField, CachedMessage, Embed, EmbedData,
    EmbedField, Message, MessageSticker, MessageUpdate,
};
pub use presence::{Activity, CachedActivity, CachedPresence, Presence, Status};
pub use reaction::{CachedReaction, EmojiKey, Reaction, ReactionEmoji};
pub use role::{CachedRole, Role};
pub use stage::CachedStageInstance;
pub use sticker::{CachedSticker, Sticker};
pub use user::CachedCurrentUser;

/// Definition and implementations for [`CachedChannel`]
mod channel;
/// Definition and implementations for [`CachedEmoji`]
mod emoji;
/// Definition and implementations for [`CachedGuild`]
mod guild;
/// Definition and implementations for [`CachedMember`]
mod member;
/// Definition and implementations for [`CachedMessage`] and its fields
mod message;
/// Definition and implementations for [`CachedPresence`] and its fields
mod presence;
/// Definition and implementations for [`CachedReaction`]
mod reaction;
/// Definition and implementations for [`CachedRole`]
mod role;
/// Definition and implementations for [`CachedStageInstance`]
mod stage;
/// Definition and implementations for [`CachedSticker`]
mod sticker;
/// Definition and implementations for [`CachedCurrentUser`]
mod user;
