//! Mapping from transport stream identifiers to the users behind them.
use vstd::prelude::*;
use std::collections::HashMap;

use crate::{StreamId, UserId};

verus! {

broadcast use vstd::std_specs::hash::group_hash_axioms;

/// Which user each announced stream identifier currently stands for; the most
/// recent announcement for an identifier wins, and entries are never purged.
pub struct IdentityTable {
    streams: HashMap<StreamId, UserId>,
}

impl View for IdentityTable {
    type V = Map<StreamId, UserId>;

    closed spec fn view(&self) -> Map<StreamId, UserId> {
        self.streams@
    }
}

impl IdentityTable {
    /// A table that knows no stream.
    pub fn new() -> (r: IdentityTable)
        ensures
            r@ == Map::<StreamId, UserId>::empty(),
    {
        IdentityTable { streams: HashMap::new() }
    }

    /// Records that stream `s` now belongs to user `u`, replacing any earlier
    /// mapping of `s`.
    pub fn observe(&mut self, s: StreamId, u: UserId)
        ensures
            final(self)@ == old(self)@.insert(s, u),
    {
        self.streams.insert(s, u);
    }

    /// The user that stream `s` was last announced for, if any.
    pub fn resolve(&self, s: StreamId) -> (r: Option<UserId>)
        ensures
            r == (if self@.contains_key(s) {
                Some(self@[s])
            } else {
                None::<UserId>
            }),
    {
        match self.streams.get(&s) {
            Some(u) => Some(*u),
            None => None,
        }
    }
}

} // verus!
