use vstd::prelude::*;

verus! {

/// Memory accounting of one pool: the bytes currently charged to it and the
/// most it may hold.
#[derive(Clone, Copy, Debug, PartialEq, Eq, Structural)]
pub struct Pool {
    pub allocated: usize,
    pub bound: usize,
}

impl Pool {
    /// A request of `size` bytes fits when the running total stays within the bound.
    pub open spec fn fits(self, size: usize) -> bool {
        self.allocated + size <= self.bound
    }

    /// The pool holds no more than it is allowed to.
    pub open spec fn within_bound(self) -> bool {
        self.allocated <= self.bound
    }

    /// The pool after `size` more bytes were charged to it.
    pub open spec fn charged(self, size: usize) -> Pool {
        Pool { allocated: (self.allocated + size) as usize, bound: self.bound }
    }

    /// The pool after `size` bytes were given back; the counter wraps as an
    /// atomic `fetch_sub` does.
    pub open spec fn released(self, size: usize) -> Pool {
        Pool { allocated: self.allocated.wrapping_sub(size), bound: self.bound }
    }

    /// An empty pool with the given bound.
    pub fn new(bound: usize) -> (p: Pool)
        ensures
            p == (Pool { allocated: 0, bound }),
    {
        Pool { allocated: 0, bound }
    }

    /// Charges `size` bytes when they fit; otherwise leaves the pool as it was.
    pub fn charge(&mut self, size: usize) -> (granted: bool)
        ensures
            granted == old(self).fits(size),
            granted ==> *final(self) == old(self).charged(size),
            !granted ==> *final(self) == *old(self),
            granted <==> old(self).allocated + size <= old(self).bound,
            granted ==> final(self).allocated == old(self).allocated + size,
            final(self).bound == old(self).bound,
    {
        match self.allocated.checked_add(size) {
            Some(total) => {
                if total > self.bound {
                    false
                } else {
                    self.allocated = total;
                    true
                }
            },
            None => false,
        }
    }

    /// Gives `size` bytes back to the pool.
    pub fn release(&mut self, size: usize)
        ensures
            *final(self) == old(self).released(size),
            size <= old(self).allocated ==> final(self).allocated == old(self).allocated - size,
            final(self).bound == old(self).bound,
    {
        self.allocated = self.allocated.wrapping_sub(size);
    }
}

/// A request fits exactly when the running total stays within the bound,
/// whatever its size; charging adds exactly the request to the total and
/// giving back subtracts it, both keeping the bound.
pub proof fn lemma_pool_arithmetic(p: Pool, size: usize)
    ensures
        p.fits(size) <==> p.allocated + size <= p.bound,
        p.fits(size) ==> p.charged(size).allocated == p.allocated + size,
        p.charged(size).bound == p.bound,
        size <= p.allocated ==> p.released(size).allocated == p.allocated - size,
        size > p.allocated ==> p.released(size).allocated == p.allocated - size + usize::MAX + 1,
        p.released(size).bound == p.bound,
{
}

/// Charging never lets a pool exceed its bound.
pub proof fn lemma_charge_keeps_bound(p: Pool, size: usize)
    requires
        p.within_bound(),
    ensures
        p.fits(size) ==> p.charged(size).within_bound(),
{
}

/// Giving back what was just charged restores the pool exactly.
pub proof fn lemma_release_undoes_charge(p: Pool, size: usize)
    requires
        p.fits(size),
    ensures
        p.charged(size).released(size) == p,
{
}

/// Giving back no more than is charged keeps the pool within its bound.
pub proof fn lemma_release_keeps_bound(p: Pool, size: usize)
    requires
        p.within_bound(),
        size <= p.allocated,
    ensures
        p.released(size).within_bound(),
        p.released(size).allocated == p.allocated - size,
{
}

} // verus!
