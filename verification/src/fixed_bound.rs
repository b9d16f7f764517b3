use vstd::prelude::*;
use crate::pool::Pool;

verus! {

/// A global allocator with one bound for the whole program: the bytes it
/// has handed out, and the most it may hand out.
#[derive(Clone, Copy, Debug, PartialEq, Eq, Structural)]
pub struct BoundedAllocator {
    pub total_alloc: usize,
    pub alloc_bound: usize,
}

impl BoundedAllocator {
    /// The allocator as one pool.
    pub open spec fn pool(self) -> Pool {
        Pool { allocated: self.total_alloc, bound: self.alloc_bound }
    }

    /// An allocator that has handed out nothing and may hand out `bound` bytes.
    pub fn new(bound: usize) -> (a: BoundedAllocator)
        ensures
            a == (BoundedAllocator { total_alloc: 0, alloc_bound: bound }),
    {
        BoundedAllocator { total_alloc: 0, alloc_bound: bound }
    }

    /// Decides a request of `size` bytes: it is granted, and counted, when the
    /// total stays within the bound; otherwise it is refused and nothing
    /// changes.
    pub fn allocate(&mut self, size: usize) -> (granted: bool)
        ensures
            granted == old(self).pool().fits(size),
            granted ==> final(self).pool() == old(self).pool().charged(size),
            !granted ==> *final(self) == *old(self),
            final(self).alloc_bound == old(self).alloc_bound,
            granted <==> old(self).total_alloc + size <= old(self).alloc_bound,
            granted ==> final(self).total_alloc == old(self).total_alloc + size,
    {
        let mut p = Pool { allocated: self.total_alloc, bound: self.alloc_bound };
        let granted = p.charge(size);
        self.total_alloc = p.allocated;
        granted
    }

    /// Counts `size` bytes as given back.
    pub fn deallocate(&mut self, size: usize)
        ensures
            final(self).pool() == old(self).pool().released(size),
            size <= old(self).total_alloc ==> final(self).total_alloc == old(self).total_alloc
                - size,
            final(self).alloc_bound == old(self).alloc_bound,
    {
        let mut p = Pool { allocated: self.total_alloc, bound: self.alloc_bound };
        p.release(size);
        self.total_alloc = p.allocated;
    }
}

} // verus!
