//! The failure registry.
//!
//! A run-lifetime, append-only set of source paths for which a connection
//! abort was observed.  Once a path is a member it is skipped for the
//! remainder of the run; there is no eviction.  The registry is an owned
//! value handed to the traversal engine, so every test can build a fresh
//! one.

use vstd::prelude::*;

verus! {

/// The set of source paths abandoned after a connection abort.
pub struct FailureRegistry {
    failed: Vec<String>,
}

impl View for FailureRegistry {
    type V = Set<Seq<char>>;

    closed spec fn view(&self) -> Set<Seq<char>> {
        Set::new(
            |p: Seq<char>|
                exists|i: int| 0 <= i < self.failed@.len() && #[trigger] self.failed@[i]@ == p,
        )
    }
}

impl FailureRegistry {
    /// An empty registry: no path has failed yet.
    pub fn new() -> (r: FailureRegistry)
        ensures
            r@ == Set::<Seq<char>>::empty(),
    {
        let r = FailureRegistry { failed: Vec::new() };
        proof {
            assert(r@ =~= Set::<Seq<char>>::empty());
        }
        r
    }

    /// Marks a path as permanently failed for this run.
    pub fn remember_failure(&mut self, path: &String)
        ensures
            final(self)@ == old(self)@.insert(path@),
    {
        self.failed.push(path.clone());
        proof {
            assert forall|p: Seq<char>| final(self)@.contains(p) implies old(self)@.insert(
                path@,
            ).contains(p) by {
                let i = choose|i: int|
                    0 <= i < self.failed@.len() && #[trigger] self.failed@[i]@ == p;
                if i < old(self).failed@.len() {
                    assert(old(self).failed@[i]@ == p);
                }
            }
            assert forall|p: Seq<char>| old(self)@.insert(path@).contains(p) implies final(self)@.contains(p) by {
                if old(self)@.contains(p) {
                    let i = choose|i: int|
                        0 <= i < old(self).failed@.len() && #[trigger] old(self).failed@[i]@ == p;
                    assert(self.failed@[i]@ == p);
                } else {
                    assert(self.failed@[old(self).failed@.len() as int]@ == p);
                }
            }
            assert(final(self)@ =~= old(self)@.insert(path@));
        }
    }

    /// Reports whether a path has been marked failed in this run.
    pub fn is_failure(&self, path: &String) -> (b: bool)
        ensures
            b == self@.contains(path@),
    {
        let n = self.failed.len();
        let mut i: usize = 0;
        while i < n
            invariant
                n == self.failed@.len(),
                i <= n,
                forall|j: int| 0 <= j < i ==> #[trigger] self.failed@[j]@ != path@,
            decreases n - i,
        {
            if self.failed[i].eq(path) {
                return true;
            }
            i = i + 1;
        }
        false
    }
}

} // verus!
