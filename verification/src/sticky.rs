//! The set of sticky window ids.

use std::collections::HashSet;
use vstd::prelude::*;
use vstd::std_specs::iter::IteratorSpec;

verus! {

broadcast use vstd::std_specs::hash::group_hash_axioms;

/// What `StickySet::add` did.
#[derive(Clone, Copy, Debug, PartialEq, Eq, Structural)]
pub enum AddOutcome {
    Inserted,
    AlreadyPresent,
}

/// What `StickySet::remove` did.
#[derive(Clone, Copy, Debug, PartialEq, Eq, Structural)]
pub enum RemoveOutcome {
    Removed,
    NotPresent,
}

/// The entries of `listing` ascend strictly.
pub open spec fn ascending(listing: Seq<u64>) -> bool {
    forall|i: int, j: int| 0 <= i < j < listing.len() ==> listing[i] < listing[j]
}

/// `listing` holds the members of `ids`, each once, in ascending order.
pub open spec fn is_listing_of(listing: Seq<u64>, ids: Set<u64>) -> bool {
    &&& ascending(listing)
    &&& forall|id: u64| listing.contains(id) <==> ids.contains(id)
}

/// Puts `id` at its place in an ascending vector, unless it is there already.
fn insert_ascending(listing: &mut Vec<u64>, id: u64)
    requires
        ascending(old(listing)@),
    ensures
        ascending(final(listing)@),
        forall|x: u64| final(listing)@.contains(x) <==> old(listing)@.contains(x) || x == id,
{
    let mut at: usize = 0;
    while at < listing.len() && listing[at] < id
        invariant
            at <= listing.len(),
            *listing == *old(listing),
            forall|k: int| 0 <= k < at ==> listing@[k] < id,
        decreases listing.len() - at,
    {
        at += 1;
    }
    if at < listing.len() && listing[at] == id {
        assert(old(listing)@[at as int] == id);
    } else {
        let ghost before = listing@;
        listing.insert(at, id);
        assert forall|x: u64| #[trigger]
            listing@.contains(x) <==> before.contains(x) || x == id by {
            if listing@.contains(x) {
                let k = choose|k: int| 0 <= k < listing@.len() && listing@[k] == x;
                if k < at {
                    assert(before[k] == x);
                } else if k > at {
                    assert(before[k - 1] == x);
                }
            }
            if before.contains(x) {
                let k = choose|k: int| 0 <= k < before.len() && before[k] == x;
                if k < at {
                    assert(listing@[k] == x);
                } else {
                    assert(listing@[k + 1] == x);
                }
            }
            if x == id {
                assert(listing@[at as int] == x);
            }
        }
    }
}

/// The windows that follow the user from workspace to workspace.
///
/// A member may be the id of a window that is gone: the set is held against the windows
/// that exist only when a request changes it and when a workspace becomes active. Every
/// operation works on the set alone and waits for nothing, so a caller that shares the set
/// behind a lock holds the lock for one operation at a time.
pub struct StickySet {
    ids: HashSet<u64>,
}

impl View for StickySet {
    type V = Set<u64>;

    closed spec fn view(&self) -> Set<u64> {
        self.ids@
    }
}

impl StickySet {
    /// An empty set.
    pub fn new() -> (set: Self)
        ensures
            set@ == Set::<u64>::empty(),
    {
        StickySet { ids: HashSet::new() }
    }

    /// Makes `id` a member, and says whether it was one before.
    pub fn add(&mut self, id: u64) -> (outcome: AddOutcome)
        ensures
            final(self)@ == old(self)@.insert(id),
            outcome == if old(self)@.contains(id) {
                AddOutcome::AlreadyPresent
            } else {
                AddOutcome::Inserted
            },
    {
        if self.ids.insert(id) {
            AddOutcome::Inserted
        } else {
            AddOutcome::AlreadyPresent
        }
    }

    /// Takes `id` out, and says whether it was a member.
    pub fn remove(&mut self, id: u64) -> (outcome: RemoveOutcome)
        ensures
            final(self)@ == old(self)@.remove(id),
            outcome == if old(self)@.contains(id) {
                RemoveOutcome::Removed
            } else {
                RemoveOutcome::NotPresent
            },
    {
        if self.ids.remove(&id) {
            RemoveOutcome::Removed
        } else {
            RemoveOutcome::NotPresent
        }
    }

    /// Whether `id` is a member.
    pub fn contains(&self, id: u64) -> (found: bool)
        ensures
            found == self@.contains(id),
    {
        self.ids.contains(&id)
    }

    /// A copy of the members as they are now, in ascending order.
    pub fn snapshot(&self) -> (listing: Vec<u64>)
        ensures
            is_listing_of(listing@, self@),
    {
        let mut listing: Vec<u64> = Vec::new();
        let ghost keys: Seq<u64> = vstd::std_specs::hash::spec_hash_keys_iter(
            &self.ids,
        ).remaining().unref();
        let ghost mut seen: int = 0;
        for id in iter: self.ids.iter()
            invariant
                iter.seq().unref() == keys,
                seen == iter.index(),
                ascending(listing@),
                forall|x: u64|
                    listing@.contains(x) <==> exists|k: int| 0 <= k < seen && keys[k] == x,
        {
            assert(keys[seen] == *id);
            insert_ascending(&mut listing, *id);
            proof {
                seen = seen + 1;
            }
        }
        proof {
            assert(seen == keys.len());
            assert(keys.to_set() == self.ids@);
            assert forall|x: u64| listing@.contains(x) <==> self.ids@.contains(x) by {
                if listing@.contains(x) {
                    let k = choose|k: int| 0 <= k < seen && keys[k] == x;
                    assert(keys.contains(x));
                }
                if keys.contains(x) {
                    let k = choose|k: int| 0 <= k < keys.len() && keys[k] == x;
                    assert(0 <= k < seen && keys[k] == x);
                }
            }
        }
        listing
    }

    /// Keeps the members that `keep` accepts and drops the others.
    pub fn retain<F: Fn(u64) -> bool>(&mut self, keep: F)
        requires
            forall|id: u64| old(self)@.contains(id) ==> call_requires(keep, (id,)),
        ensures
            final(self)@.subset_of(old(self)@),
            forall|id: u64|
                old(self)@.contains(id) ==> call_ensures(keep, (id,), final(self)@.contains(id)),
    {
        let listing = self.snapshot();
        let mut at: usize = 0;
        while at < listing.len()
            invariant
                at <= listing.len(),
                is_listing_of(listing@, old(self)@),
                forall|id: u64| old(self)@.contains(id) ==> call_requires(keep, (id,)),
                self@.subset_of(old(self)@),
                forall|k: int|
                    0 <= k < at ==> call_ensures(
                        keep,
                        (#[trigger] listing@[k],),
                        self@.contains(listing@[k]),
                    ),
                forall|k: int| at <= k < listing.len() ==> self@.contains(#[trigger] listing@[k]),
            decreases listing.len() - at,
        {
            let id = listing[at];
            assert(listing@.contains(id));
            if !keep(id) {
                self.remove(id);
            }
            at += 1;
        }
        assert forall|id: u64| old(self)@.contains(id) implies call_ensures(
            keep,
            (id,),
            self@.contains(id),
        ) by {
            assert(listing@.contains(id));
            let k = choose|k: int| 0 <= k < listing@.len() && listing@[k] == id;
            assert(listing@[k] == id);
        }
    }
}

} // verus!
