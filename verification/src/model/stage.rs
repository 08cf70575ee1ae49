use vstd::prelude::*;

verus! {

/// A cached stage instance, flattened to plain values
#[derive(Clone, Debug, PartialEq, Eq)]
pub struct CachedStageInstance {
    pub channel_id: u64,
    pub guild_id: u64,
    pub guild_scheduled_event_id: Option<u64>,
    pub id: u64,
    pub privacy_level: u8,
    pub topic: String,
}

} // verus!
