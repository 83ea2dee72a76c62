//! Per-guild looped playback handles and whether each is currently playing.
use vstd::prelude::*;
use std::collections::HashMap;

use crate::GuildId;

verus! {

broadcast use vstd::std_specs::hash::group_hash_axioms;

/// A guild's looped track: the handle that controls it and its play state.
pub struct Playback<H> {
    pub handle: H,
    pub playing: bool,
}

/// At most one playback handle per guild. An entry is installed on join and
/// is not cleared on leave: it simply goes stale until the next install.
pub struct PlaybackRegistry<H> {
    tracks: HashMap<GuildId, Playback<H>>,
}

impl<H> View for PlaybackRegistry<H> {
    type V = Map<GuildId, Playback<H>>;

    closed spec fn view(&self) -> Map<GuildId, Playback<H>> {
        self.tracks@
    }
}

impl<H> PlaybackRegistry<H> {
    /// A registry without handles.
    pub fn new() -> (r: PlaybackRegistry<H>)
        ensures
            r@ == Map::<GuildId, Playback<H>>::empty(),
    {
        PlaybackRegistry { tracks: HashMap::new() }
    }

    /// Installs `handle` as guild `g`'s track, paused, replacing any earlier one.
    pub fn install(&mut self, g: GuildId, handle: H)
        ensures
            final(self)@ == old(self)@.insert(g, (Playback { handle, playing: false })),
    {
        self.tracks.insert(g, Playback { handle, playing: false });
    }

    /// Guild `g`'s track, if one was ever installed.
    pub fn get(&self, g: GuildId) -> (r: Option<&Playback<H>>)
        ensures
            r == (if self@.contains_key(g) {
                Some(&self@[g])
            } else {
                None::<&Playback<H>>
            }),
    {
        self.tracks.get(&g)
    }

    /// Marks guild `g`'s track as playing or paused. Returns false, changing
    /// nothing, when the guild has no track.
    pub fn set_playing(&mut self, g: GuildId, playing: bool) -> (r: bool)
        ensures
            r == old(self)@.contains_key(g),
            r ==> final(self)@ == old(self)@.insert(
                g,
                (Playback { handle: old(self)@[g].handle, playing }),
            ),
            !r ==> final(self)@ == old(self)@,
    {
        match self.tracks.remove(&g) {
            Some(p) => {
                let ghost before = old(self)@;
                self.tracks.insert(g, Playback { handle: p.handle, playing });
                assert(self@ =~= before.insert(g, (Playback { handle: before[g].handle, playing })));
                true
            },
            None => false,
        }
    }
}

} // verus!
