use vstd::prelude::*;

verus! {

/// The cached current user of the session
///
/// Set once a ready event arrives; reading it before that fails with a
/// missing-current-user condition rather than silently defaulting
#[derive(Clone, Debug, PartialEq, Eq)]
pub struct CachedCurrentUser {
    pub accent_color: Option<u32>,
    pub avatar: Option<String>,
    pub banner: Option<String>,
    pub bot: bool,
    pub discriminator: u16,
    pub email: Option<String>,
    pub flags: Option<u64>,
    pub id: u64,
    pub locale: Option<String>,
    pub mfa_enabled: bool,
    pub name: String,
    pub premium_type: Option<u8>,
    pub public_flags: Option<u64>,
    pub verified: Option<bool>,
}

} // verus!
