//! The identifier allocator for newly created units.

use vstd::prelude::*;

verus! {

/// Issues strictly increasing unit identifiers, starting at one and never
/// reusing an identifier, even after the unit that carried it is gone.
pub struct IdGen {
    counter: u32,
}

impl IdGen {
    /// How many identifiers have been issued so far.
    pub closed spec fn count(self) -> u32 {
        self.counter
    }

    /// The set of identifiers issued so far: exactly one through `count()`.
    pub open spec fn issued(self) -> Set<u32> {
        Set::new(|i: u32| 1 <= i <= self.count())
    }

    /// A fresh allocator that has issued nothing yet.
    pub fn new() -> (r: Self)
        ensures
            r.count() == 0,
            r.issued() =~= Set::<u32>::empty(),
    {
        Self { counter: 0 }
    }

    /// Issues the next identifier: one more than the count so far, and
    /// never an identifier this allocator has returned before.
    pub fn next(&mut self) -> (r: u32)
        requires
            old(self).count() < u32::MAX,
        ensures
            r == old(self).count() + 1,
            final(self).count() == r,
            !old(self).issued().contains(r),
            final(self).issued() =~= old(self).issued().insert(r),
    {
        self.counter = self.counter + 1;
        self.counter
    }

    /// The count of identifiers issued so far.
    pub fn total(&self) -> (r: u32)
        ensures
            r == self.count(),
    {
        self.counter
    }
}

} // verus!
