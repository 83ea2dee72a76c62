//! Voice-presence engine: target registry, stream identity table,
//! playback registry, and the decisions that drive joins, leaves and
//! activity-gated playback.
use vstd::prelude::*;

pub mod gate;
pub mod identity;
pub mod playback;
pub mod presence;
pub mod targets;

verus! {

/// Identifier of a guild (a chat/voice server instance).
pub type GuildId = u64;

/// Identifier of a user, stable across sessions.
pub type UserId = u64;

/// Identifier of a voice channel within a guild.
pub type ChannelId = u64;

/// Transport-level audio stream identifier (SSRC); reused across sessions.
pub type StreamId = u32;

} // verus!
