//! Per-guild sets of target users.
use vstd::prelude::*;
use std::collections::HashMap;

use crate::{GuildId, UserId};

verus! {

broadcast use vstd::std_specs::hash::group_hash_axioms;

/// Abstract registry: each guild that has an entry maps to its set of targets.
pub type TargetsModel = Map<GuildId, Set<UserId>>;

/// The targets of guild `g`; a guild without an entry has none.
pub open spec fn targets_in(m: TargetsModel, g: GuildId) -> Set<UserId> {
    if m.contains_key(g) {
        m[g]
    } else {
        Set::empty()
    }
}

/// Whether `u` is a target in guild `g`.
pub open spec fn spec_is_target(m: TargetsModel, g: GuildId, u: UserId) -> bool {
    targets_in(m, g).contains(u)
}

/// The registry after `add_target(g, u)`: the guild gets an entry holding `u`.
pub open spec fn spec_add(m: TargetsModel, g: GuildId, u: UserId) -> TargetsModel {
    m.insert(g, targets_in(m, g).insert(u))
}

/// The registry after `remove_target(g, u)`: `u` leaves the guild's set, if
/// the guild has an entry at all; the entry itself stays, possibly empty.
pub open spec fn spec_remove(m: TargetsModel, g: GuildId, u: UserId) -> TargetsModel {
    if m.contains_key(g) {
        m.insert(g, m[g].remove(u))
    } else {
        m
    }
}

/// Guild-scoped sets of target users, each kept as a list without repeats.
pub struct TargetRegistry {
    guilds: HashMap<GuildId, Vec<UserId>>,
}

impl View for TargetRegistry {
    type V = TargetsModel;

    closed spec fn view(&self) -> TargetsModel {
        Map::new(
            |g: GuildId| self.guilds@.contains_key(g),
            |g: GuildId| self.guilds@[g]@.to_set(),
        )
    }
}

impl TargetRegistry {
    /// Every guild's list holds each user at most once.
    pub closed spec fn wf(&self) -> bool {
        forall|g: GuildId| #[trigger] self.guilds@.contains_key(g) ==> self.guilds@[g]@.no_duplicates()
    }

    /// An empty registry: no guild has an entry.
    pub fn new() -> (r: TargetRegistry)
        ensures
            r.wf(),
            r@ == Map::<GuildId, Set<UserId>>::empty(),
    {
        let r = TargetRegistry { guilds: HashMap::new() };
        assert(r@ =~= Map::<GuildId, Set<UserId>>::empty());
        r
    }

    /// Whether guild `g` has an entry at all (possibly an empty one).
    pub fn has_entry(&self, g: GuildId) -> (r: bool)
        ensures
            r == self@.contains_key(g),
    {
        self.guilds.contains_key(&g)
    }

    /// Whether `u` is a target in guild `g`; a guild without an entry has none.
    pub fn is_target(&self, g: GuildId, u: UserId) -> (r: bool)
        ensures
            r == spec_is_target(self@, g, u),
    {
        match self.guilds.get(&g) {
            Some(users) => list_contains(users, u),
            None => false,
        }
    }

    /// Whether guild `g` has at least one target.
    pub fn has_targets(&self, g: GuildId) -> (r: bool)
        ensures
            r == !targets_in(self@, g).is_empty(),
    {
        match self.guilds.get(&g) {
            Some(users) => {
                proof {
                    let s = users@;
                    if s.len() > 0 {
                        assert(s.to_set().contains(s[0]));
                    } else {
                        assert(s.to_set() =~= Set::<UserId>::empty());
                    }
                }
                users.len() > 0
            },
            None => false,
        }
    }

    /// Makes `u` a target in guild `g`; does nothing if it already is one.
    pub fn add_target(&mut self, g: GuildId, u: UserId)
        requires
            old(self).wf(),
        ensures
            final(self).wf(),
            final(self)@ == spec_add(old(self)@, g, u),
    {
        let ghost before = self@;
        match self.guilds.remove(&g) {
            Some(mut users) => {
                let ghost prev = users@;
                if !list_contains(&users, u) {
                    users.push(u);
                    proof {
                        assert(users@ == prev + seq![u]);
                        Seq::<UserId>::lemma_to_set_insert_commutes(prev, u);
                        assert forall|i: int, j: int|
                            0 <= i < users@.len() && 0 <= j < users@.len() && i != j implies
                            users@[i] != users@[j] by {
                            if i == prev.len() {
                                assert(prev[j] == users@[j]);
                            } else if j == prev.len() {
                                assert(prev[i] == users@[i]);
                            }
                        }
                    }
                } else {
                    assert(prev.to_set() =~= prev.to_set().insert(u));
                }
                self.guilds.insert(g, users);
            },
            None => {
                let users: Vec<UserId> = vec![u];
                proof {
                    assert(users@.to_set() =~= Set::<UserId>::empty().insert(u)) by {
                        assert(users@[0] == u);
                    }
                }
                self.guilds.insert(g, users);
            },
        }
        assert(self@ =~= spec_add(before, g, u));
    }

    /// Removes `u` from guild `g`'s targets; does nothing if it is not one.
    /// A guild's entry stays in place even when its last target leaves.
    pub fn remove_target(&mut self, g: GuildId, u: UserId)
        requires
            old(self).wf(),
        ensures
            final(self).wf(),
            final(self)@ == spec_remove(old(self)@, g, u),
    {
        let ghost before = self@;
        match self.guilds.remove(&g) {
            Some(users) => {
                let kept = list_without(&users, u);
                assert(kept@.to_set() =~= users@.to_set().remove(u));
                self.guilds.insert(g, kept);
                assert(self@ =~= spec_remove(before, g, u));
            },
            None => {
                assert(self@ =~= before);
            },
        }
    }
}

/// Makes `user_id` a target in guild `guild_id`; idempotent.
pub fn add_annoy_user(targets: &mut TargetRegistry, guild_id: &GuildId, user_id: UserId)
    requires
        old(targets).wf(),
    ensures
        final(targets).wf(),
        final(targets)@ == spec_add(old(targets)@, *guild_id, user_id),
{
    targets.add_target(*guild_id, user_id);
}

/// Stops `user_id` being a target in guild `guild_id`; idempotent.
pub fn remove_annoy_user(targets: &mut TargetRegistry, guild_id: &GuildId, user_id: UserId)
    requires
        old(targets).wf(),
    ensures
        final(targets).wf(),
        final(targets)@ == spec_remove(old(targets)@, *guild_id, user_id),
{
    targets.remove_target(*guild_id, user_id);
}

/// Adding a target a second time changes nothing, and removing a user that
/// is not a target of the guild changes nothing.
pub proof fn lemma_idempotent(m: TargetsModel, g: GuildId, u: UserId)
    ensures
        spec_add(spec_add(m, g, u), g, u) == spec_add(m, g, u),
        spec_remove(spec_remove(m, g, u), g, u) == spec_remove(m, g, u),
        !spec_is_target(m, g, u) ==> spec_remove(m, g, u) == m,
{
    let a = spec_add(m, g, u);
    assert(targets_in(a, g) == targets_in(m, g).insert(u));
    assert(targets_in(a, g).insert(u) =~= targets_in(a, g));
    assert(spec_add(a, g, u) =~= a);
    if m.contains_key(g) {
        let r = spec_remove(m, g, u);
        assert(r[g].remove(u) =~= r[g]);
        assert(spec_remove(r, g, u) =~= r);
        if !spec_is_target(m, g, u) {
            assert(m[g].remove(u) =~= m[g]);
            assert(r =~= m);
        }
    }
}

/// Adding or removing a target in guild `g` leaves every other guild's
/// entry, and so its targets, as it was.
pub proof fn lemma_isolation(m: TargetsModel, g: GuildId, h: GuildId, u: UserId)
    requires
        g != h,
    ensures
        spec_add(m, g, u).contains_key(h) == m.contains_key(h),
        targets_in(spec_add(m, g, u), h) == targets_in(m, h),
        spec_remove(m, g, u).contains_key(h) == m.contains_key(h),
        targets_in(spec_remove(m, g, u), h) == targets_in(m, h),
{
}

/// Whether `u` occurs in `v`.
fn list_contains(v: &Vec<UserId>, u: UserId) -> (r: bool)
    ensures
        r == v@.contains(u),
{
    let mut i: usize = 0;
    while i < v.len()
        invariant
            i <= v@.len(),
            forall|j: int| 0 <= j < i ==> v@[j] != u,
        decreases v@.len() - i,
    {
        if v[i] == u {
            return true;
        }
        i = i + 1;
    }
    false
}

/// The elements of `v` other than `u`, in order.
fn list_without(v: &Vec<UserId>, u: UserId) -> (r: Vec<UserId>)
    requires
        v@.no_duplicates(),
    ensures
        r@.no_duplicates(),
        forall|x: UserId| r@.contains(x) <==> (x != u && v@.contains(x)),
{
    let mut kept: Vec<UserId> = Vec::new();
    let mut i: usize = 0;
    while i < v.len()
        invariant
            i <= v@.len(),
            v@.no_duplicates(),
            kept@.no_duplicates(),
            forall|x: UserId|
                kept@.contains(x) <==> (x != u && exists|j: int| 0 <= j < i && v@[j] == x),
        decreases v@.len() - i,
    {
        let x = v[i];
        if x != u {
            let ghost prev = kept@;
            assert(!prev.contains(x)) by {
                if prev.contains(x) {
                    let j = choose|j: int| 0 <= j < i && v@[j] == x;
                    assert(v@[j] == v@[i as int]);
                }
            }
            kept.push(x);
            assert forall|a: int, b: int|
                0 <= a < kept@.len() && 0 <= b < kept@.len() && a != b implies
                kept@[a] != kept@[b] by {
                if a == prev.len() {
                    assert(prev.contains(kept@[b]));
                } else if b == prev.len() {
                    assert(prev.contains(kept@[a]));
                }
            }
            assert forall|y: UserId|
                kept@.contains(y) <==> (y != u && exists|j: int| 0 <= j < i + 1 && v@[j] == y) by {
                if kept@.contains(y) {
                    let k = choose|k: int| 0 <= k < kept@.len() && kept@[k] == y;
                    if k < prev.len() {
                        assert(prev.contains(y));
                    } else {
                        assert(v@[i as int] == y);
                    }
                }
                if y != u && exists|j: int| 0 <= j < i + 1 && v@[j] == y {
                    let j = choose|j: int| 0 <= j < i + 1 && v@[j] == y;
                    if j < i {
                        assert(prev.contains(y));
                        let k = choose|k: int| 0 <= k < prev.len() && prev[k] == y;
                        assert(kept@[k] == y);
                    } else {
                        assert(kept@[prev.len() as int] == y);
                    }
                }
            }
        } else {
            assert forall|y: UserId|
                kept@.contains(y) <==> (y != u && exists|j: int| 0 <= j < i + 1 && v@[j] == y) by {
                if y != u && exists|j: int| 0 <= j < i + 1 && v@[j] == y {
                    let j = choose|j: int| 0 <= j < i + 1 && v@[j] == y;
                    assert(j < i);
                }
            }
        }
        i = i + 1;
    }
    kept
}

} // verus!
