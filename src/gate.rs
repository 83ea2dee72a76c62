//! The activity gate: resumes a guild's looped track while a target speaks
//! and pauses it otherwise.
use vstd::prelude::*;

use crate::identity::IdentityTable;
use crate::playback::{Playback, PlaybackRegistry};
use crate::targets::{spec_is_target, TargetRegistry, TargetsModel};
use crate::{GuildId, StreamId, UserId};

verus! {

/// The targets of guild `g` that some speaking stream resolves to.
pub open spec fn speaking_targets(
    speaking: Seq<StreamId>,
    ids: Map<StreamId, UserId>,
    targets: TargetsModel,
    g: GuildId,
) -> Set<UserId> {
    Set::new(
        |u: UserId|
            spec_is_target(targets, g, u) && exists|i: int|
                0 <= i < speaking.len() && ids.contains_key(speaking[i]) && ids[speaking[i]] == u,
    )
}

/// What one speaking tick did.
#[derive(PartialEq, Eq, Structural, Clone, Copy, Debug)]
pub enum TickOutcome {
    /// The guild has no target entry: the tick changed nothing.
    Disabled,
    /// No target is speaking: the track was paused.
    Paused,
    /// A target is speaking: the track was resumed.
    Resumed,
    /// The guild has no installed track: the tick was skipped.
    NoHandle,
}

/// Telemetry handler bound to one guild's voice connection.
pub struct Receiver {
    pub guild_id: GuildId,
}

impl Receiver {
    /// A handler for guild `guild_id`.
    pub fn new(guild_id: GuildId) -> (r: Receiver)
        ensures
            r.guild_id == guild_id,
    {
        Receiver { guild_id }
    }

    /// A speaking-state announcement: stream `ssrc` now belongs to `user`,
    /// when the announcement names one.
    pub fn on_speaking_update(&self, ids: &mut IdentityTable, ssrc: StreamId, user: Option<UserId>)
        ensures
            final(ids)@ == (match user {
                Some(u) => old(ids)@.insert(ssrc, u),
                None => old(ids)@,
            }),
    {
        if let Some(u) = user {
            ids.observe(ssrc, u);
        }
    }

    /// A speaking tick with the streams currently producing audio: the
    /// guild's track plays exactly when one of them resolves to a target.
    pub fn on_voice_tick<H>(
        &self,
        targets: &TargetRegistry,
        ids: &IdentityTable,
        playback: &mut PlaybackRegistry<H>,
        speaking: &Vec<StreamId>,
    ) -> (r: TickOutcome)
        ensures
            !targets@.contains_key(self.guild_id) ==> r == TickOutcome::Disabled && final(playback)@
                == old(playback)@,
            targets@.contains_key(self.guild_id) && !old(playback)@.contains_key(self.guild_id)
                ==> r == TickOutcome::NoHandle && final(playback)@ == old(playback)@,
            targets@.contains_key(self.guild_id) && old(playback)@.contains_key(self.guild_id)
                ==> {
                let active = !speaking_targets(speaking@, ids@, targets@, self.guild_id).is_empty();
                &&& final(playback)@ == old(playback)@.insert(
                    self.guild_id,
                    (Playback { handle: old(playback)@[self.guild_id].handle, playing: active }),
                )
                &&& r == (if active {
                    TickOutcome::Resumed
                } else {
                    TickOutcome::Paused
                })
            },
    {
        let g = self.guild_id;
        if !targets.has_entry(g) {
            return TickOutcome::Disabled;
        }
        let active = any_target_speaking(targets, ids, g, speaking);
        if playback.set_playing(g, active) {
            if active {
                TickOutcome::Resumed
            } else {
                TickOutcome::Paused
            }
        } else {
            TickOutcome::NoHandle
        }
    }
}

/// Whether some stream in `speaking` resolves to a target of guild `g`.
fn any_target_speaking(
    targets: &TargetRegistry,
    ids: &IdentityTable,
    g: GuildId,
    speaking: &Vec<StreamId>,
) -> (r: bool)
    ensures
        r == !speaking_targets(speaking@, ids@, targets@, g).is_empty(),
{
    let ghost t = speaking_targets(speaking@, ids@, targets@, g);
    let mut i: usize = 0;
    while i < speaking.len()
        invariant
            i <= speaking@.len(),
            t == speaking_targets(speaking@, ids@, targets@, g),
            forall|j: int|
                0 <= j < i ==> !(ids@.contains_key(#[trigger] speaking@[j]) && spec_is_target(
                    targets@,
                    g,
                    ids@[speaking@[j]],
                )),
        decreases speaking@.len() - i,
    {
        if let Some(u) = ids.resolve(speaking[i]) {
            if targets.is_target(g, u) {
                assert(t.contains(u));
                return true;
            }
        }
        i = i + 1;
    }
    assert(t =~= Set::<UserId>::empty());
    false
}

} // verus!
