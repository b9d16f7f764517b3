use vstd::prelude::*;
use std::collections::HashMap;
use crate::pool::Pool;

verus! {

broadcast use vstd::std_specs::hash::group_hash_axioms;

/// Bound given to a group that allocates before any bound was set for it.
pub const DEFAULT_BOUND: usize = 4096;

/// Number of groups the pool table makes room for when it is created.
pub const GROUP_LIMIT: usize = 10;

/// What a thread knows of itself: the group it allocates for, whether it ran
/// out of memory, and whether it was told to die.
#[derive(Clone, Copy, Debug, PartialEq, Eq, Structural)]
pub struct ThreadContext {
    pub is_oom: bool,
    pub group: Option<u64>,
    pub is_dead: bool,
}

impl ThreadContext {
    /// A fresh thread: no group, not out of memory, alive.
    pub fn new() -> (ctx: ThreadContext)
        ensures
            ctx == (ThreadContext { is_oom: false, group: None, is_dead: false }),
    {
        ThreadContext { is_oom: false, group: None, is_dead: false }
    }
}

/// Puts the thread into `group`.
pub fn set_group(ctx: &mut ThreadContext, group: u64)
    ensures
        *final(ctx) == (ThreadContext { group: Some(group), ..*old(ctx) }),
{
    ctx.group = Some(group);
}

/// The group the thread allocates for, if any.
pub fn get_group(ctx: &ThreadContext) -> (group: Option<u64>)
    ensures
        group == ctx.group,
{
    ctx.group
}

/// Marks the thread as dead.
pub fn die(ctx: &mut ThreadContext)
    ensures
        *final(ctx) == (ThreadContext { is_dead: true, ..*old(ctx) }),
{
    ctx.is_dead = true;
}

/// How the allocator answers one allocation request.
#[derive(Clone, Copy, Debug, PartialEq, Eq, Structural)]
pub enum AllocOutcome {
    /// The request is served without accounting.
    Untracked,
    /// The request was charged to the thread's group and may be served.
    Granted,
    /// The group's bound would be exceeded; the request is refused.
    OutOfMemory,
}

/// The pool that accounting of `id` starts from: its own, or a fresh one
/// with the default bound.
pub open spec fn pool_or_default(pools: Map<u64, Pool>, id: u64) -> Pool {
    if pools.contains_key(id) {
        pools[id]
    } else {
        Pool { allocated: 0, bound: DEFAULT_BOUND }
    }
}

/// Whether a request is accounted to a group at all.
pub open spec fn is_accounted(ctx: ThreadContext, pools_valid: bool, panicking: bool) -> bool {
    pools_valid && !panicking && ctx.group is Some
}

/// Whether a request of the thread `ctx` is accounted to a group: only
/// while the pools are set up, the thread is not panicking, and it belongs to
/// a group.
pub fn accounts(ctx: &ThreadContext, pools_valid: bool, panicking: bool) -> (b: bool)
    ensures
        b == is_accounted(*ctx, pools_valid, panicking),
{
    pools_valid && !panicking && ctx.group.is_some()
}

/// The pool table after an accounted allocation of `size` bytes for `id`.
pub open spec fn after_alloc(pools: Map<u64, Pool>, id: u64, size: usize) -> Map<u64, Pool> {
    let p = pool_or_default(pools, id);
    if p.fits(size) {
        pools.insert(id, p.charged(size))
    } else {
        pools.insert(id, p)
    }
}

/// The pool table after an accounted deallocation of `size` bytes for `id`. A
/// group without a pool gets a fresh one whose counter ends at zero.
pub open spec fn after_dealloc(pools: Map<u64, Pool>, id: u64, size: usize) -> Map<u64, Pool> {
    if pools.contains_key(id) {
        pools.insert(id, pools[id].released(size))
    } else {
        pools.insert(id, Pool { allocated: 0, bound: DEFAULT_BOUND })
    }
}

/// Every pool of the table is within its bound.
pub open spec fn all_within_bound(pools: Map<u64, Pool>) -> bool {
    forall|id: u64| pools.contains_key(id) ==> #[trigger] pools[id].within_bound()
}

/// The table of per-group pools that a bounded global allocator consults.
pub struct BoundedAllocator {
    pools: HashMap<u64, Pool>,
}

impl View for BoundedAllocator {
    type V = Map<u64, Pool>;

    closed spec fn view(&self) -> Map<u64, Pool> {
        self.pools@
    }
}

impl BoundedAllocator {
    /// An allocator with no pools.
    pub fn new() -> (a: BoundedAllocator)
        ensures
            a@ == Map::<u64, Pool>::empty(),
    {
        let mut pools: HashMap<u64, Pool> = HashMap::new();
        pools.reserve(GROUP_LIMIT);
        BoundedAllocator { pools }
    }

    fn pool_of(&self, id: u64) -> (p: Pool)
        ensures
            p == pool_or_default(self@, id),
    {
        match self.pools.get(&id) {
            Some(p) => *p,
            None => Pool::new(DEFAULT_BOUND),
        }
    }

    /// Decides an allocation of `size` bytes for the thread `ctx`.
    ///
    /// Nothing is accounted while the pools are not set up, while the thread
    /// panics, or when it belongs to no group. Otherwise the group's pool (a
    /// default one if it has none) is charged when the request fits its bound;
    /// when it does not, the pool is left as it was and the thread is marked
    /// out of memory.
    pub fn allocate(
        &mut self,
        ctx: &mut ThreadContext,
        pools_valid: bool,
        panicking: bool,
        size: usize,
    ) -> (outcome: AllocOutcome)
        ensures
            !is_accounted(*old(ctx), pools_valid, panicking) ==> {
                &&& outcome == AllocOutcome::Untracked
                &&& final(self)@ == old(self)@
                &&& *final(ctx) == *old(ctx)
            },
            is_accounted(*old(ctx), pools_valid, panicking) ==> {
                let id = old(ctx).group.unwrap();
                let p = pool_or_default(old(self)@, id);
                &&& final(self)@ == after_alloc(old(self)@, id, size)
                &&& p.fits(size) ==> outcome == AllocOutcome::Granted && *final(ctx) == *old(ctx)
                &&& !p.fits(size) ==> outcome == AllocOutcome::OutOfMemory && *final(ctx)
                    == (ThreadContext { is_oom: true, ..*old(ctx) })
                &&& final(self)@.contains_key(id)
                &&& final(self)@[id].bound == p.bound
                &&& outcome == AllocOutcome::Granted <==> p.allocated + size <= p.bound
                &&& outcome == AllocOutcome::Granted ==> final(self)@[id].allocated == p.allocated
                    + size
                &&& outcome != AllocOutcome::Granted ==> final(self)@[id].allocated == p.allocated
            },
    {
        if !accounts(ctx, pools_valid, panicking) {
            return AllocOutcome::Untracked;
        }
        let id = get_group(ctx).unwrap();
        let mut p = self.pool_of(id);
        let granted = p.charge(size);
        self.pools.insert(id, p);
        if granted {
            AllocOutcome::Granted
        } else {
            ctx.is_oom = true;
            AllocOutcome::OutOfMemory
        }
    }

    /// Accounts a deallocation of `size` bytes for the thread `ctx`; returns
    /// whether it was accounted to a group.
    pub fn deallocate(
        &mut self,
        ctx: &ThreadContext,
        pools_valid: bool,
        panicking: bool,
        size: usize,
    ) -> (accounted: bool)
        ensures
            accounted == is_accounted(*ctx, pools_valid, panicking),
            !accounted ==> final(self)@ == old(self)@,
            accounted ==> final(self)@ == after_dealloc(old(self)@, ctx.group.unwrap(), size),
            accounted ==> final(self)@.contains_key(ctx.group.unwrap()),
            accounted && old(self)@.contains_key(ctx.group.unwrap()) && size <= old(
                self,
            )@[ctx.group.unwrap()].allocated ==> final(self)@[ctx.group.unwrap()] == (Pool {
                allocated: (old(self)@[ctx.group.unwrap()].allocated - size) as usize,
                bound: old(self)@[ctx.group.unwrap()].bound,
            }),
    {
        if !accounts(ctx, pools_valid, panicking) {
            return false;
        }
        let id = get_group(ctx).unwrap();
        let mut p = match self.pools.get(&id) {
            Some(p) => *p,
            None => Pool { allocated: size, bound: DEFAULT_BOUND },
        };
        p.release(size);
        self.pools.insert(id, p);
        true
    }
}

/// Gives group `id` the pool bound `bound`, with nothing charged to it.
pub fn add_bound(allocator: &mut BoundedAllocator, id: u64, bound: usize)
    ensures
        final(allocator)@ == old(allocator)@.insert(id, Pool { allocated: 0, bound }),
{
    allocator.pools.insert(id, Pool::new(bound));
}

/// The bytes charged to group `id`; zero for a group without a pool.
pub fn get_allocated(allocator: &BoundedAllocator, id: u64) -> (n: usize)
    ensures
        n == (if allocator@.contains_key(id) { allocator@[id].allocated } else { 0 }),
{
    match allocator.pools.get(&id) {
        Some(p) => p.allocated,
        None => 0,
    }
}

/// The bound of group `id`; zero for a group without a pool.
pub fn get_bound(allocator: &BoundedAllocator, id: u64) -> (n: usize)
    ensures
        n == (if allocator@.contains_key(id) { allocator@[id].bound } else { 0 }),
{
    match allocator.pools.get(&id) {
        Some(p) => p.bound,
        None => 0,
    }
}


/// An allocation keeps every pool within its bound: a request that would
/// exceed the bound is refused, and a group without a pool starts empty.
pub proof fn lemma_allocate_keeps_bounds(pools: Map<u64, Pool>, id: u64, size: usize)
    requires
        all_within_bound(pools),
    ensures
        all_within_bound(after_alloc(pools, id, size)),
{
    let after = after_alloc(pools, id, size);
    assert forall|k: u64| after.contains_key(k) implies #[trigger] after[k].within_bound() by {
        if k != id {
            assert(pools.contains_key(k));
        }
    }
}

/// A refused allocation changes no counter: the table only gains the group's
/// default pool if it had none.
pub proof fn lemma_refused_allocation_changes_nothing(pools: Map<u64, Pool>, id: u64, size: usize)
    requires
        !pool_or_default(pools, id).fits(size),
    ensures
        after_alloc(pools, id, size) == pools.insert(id, pool_or_default(pools, id)),
        pools.contains_key(id) ==> after_alloc(pools, id, size) == pools,
{
    if pools.contains_key(id) {
        assert(pools.insert(id, pools[id]) =~= pools);
    }
}

/// Freeing what was just allocated, in the same group, restores every
/// counter.
pub proof fn lemma_deallocate_undoes_allocate(pools: Map<u64, Pool>, id: u64, size: usize)
    requires
        pool_or_default(pools, id).fits(size),
    ensures
        after_dealloc(after_alloc(pools, id, size), id, size) == pools.insert(
            id,
            pool_or_default(pools, id),
        ),
        pools.contains_key(id) ==> after_dealloc(after_alloc(pools, id, size), id, size) == pools,
{
    let p = pool_or_default(pools, id);
    assert(p.charged(size).released(size) == p);
    assert(after_dealloc(after_alloc(pools, id, size), id, size) =~= pools.insert(id, p));
    if pools.contains_key(id) {
        assert(pools.insert(id, pools[id]) =~= pools);
    }
}

/// Allocating and freeing for one group leaves every other group's pool as
/// it was.
pub proof fn lemma_other_groups_untouched(pools: Map<u64, Pool>, id: u64, other: u64, size: usize)
    requires
        other != id,
    ensures
        after_alloc(pools, id, size).contains_key(other) == pools.contains_key(other),
        after_dealloc(pools, id, size).contains_key(other) == pools.contains_key(other),
        pools.contains_key(other) ==> after_alloc(pools, id, size)[other] == pools[other],
        pools.contains_key(other) ==> after_dealloc(pools, id, size)[other] == pools[other],
{
}

/// Freeing no more than a group holds keeps every pool within its bound.
pub proof fn lemma_deallocate_keeps_bounds(pools: Map<u64, Pool>, id: u64, size: usize)
    requires
        all_within_bound(pools),
        pools.contains_key(id) ==> size <= pools[id].allocated,
    ensures
        all_within_bound(after_dealloc(pools, id, size)),
{
    let after = after_dealloc(pools, id, size);
    assert forall|k: u64| after.contains_key(k) implies #[trigger] after[k].within_bound() by {
        if k != id {
            assert(pools.contains_key(k));
        } else if pools.contains_key(id) {
            assert(pools[id].within_bound());
        }
    }
}

/// Setting a bound gives the group that bound with nothing charged, and
/// keeps every pool within its bound.
pub proof fn lemma_add_bound_resets(pools: Map<u64, Pool>, id: u64, bound: usize)
    requires
        all_within_bound(pools),
    ensures
        pools.insert(id, Pool { allocated: 0, bound })[id] == (Pool { allocated: 0, bound }),
        all_within_bound(pools.insert(id, Pool { allocated: 0, bound })),
{
    let after = pools.insert(id, Pool { allocated: 0, bound });
    assert forall|k: u64| after.contains_key(k) implies #[trigger] after[k].within_bound() by {
        if k != id {
            assert(pools.contains_key(k));
        }
    }
}


/// Once a thread is put into a group, its allocations are accounted to that
/// group while the pools are set up and the thread is not panicking.
pub proof fn lemma_set_group_routes_allocations(ctx: ThreadContext, group: u64)
    ensures
        is_accounted(ThreadContext { group: Some(group), ..ctx }, true, false),
        (ThreadContext { group: Some(group), ..ctx }).group == Some(group),
{
}


/// A request is accounted exactly when the pools are set up, the thread is not
/// panicking and it belongs to a group; in particular nothing is accounted
/// while the thread panics, whatever else holds of it.
pub proof fn lemma_accounting_conditions(ctx: ThreadContext, pools_valid: bool, panicking: bool)
    ensures
        is_accounted(ctx, pools_valid, panicking) <==> (pools_valid && !panicking
            && ctx.group is Some),
        panicking ==> !is_accounted(ctx, pools_valid, panicking),
        !pools_valid ==> !is_accounted(ctx, pools_valid, panicking),
        ctx.group is None ==> !is_accounted(ctx, pools_valid, panicking),
{
}

/// An accounted allocation of `size` bytes for group `id`: a group without a
/// pool starts from nothing charged and a bound of 4096 bytes; the request is
/// charged, raising the counter by exactly `size`, when the total stays within
/// the bound, whatever the size; otherwise the counter is left as it was. The
/// bound never changes.
pub proof fn lemma_allocation_counts(pools: Map<u64, Pool>, id: u64, size: usize)
    ensures
        after_alloc(pools, id, size).contains_key(id),
        pools.contains_key(id) && pools[id].allocated + size <= pools[id].bound ==> after_alloc(
            pools,
            id,
            size,
        )[id] == (Pool { allocated: (pools[id].allocated + size) as usize, bound: pools[id].bound }),
        pools.contains_key(id) && pools[id].allocated + size > pools[id].bound ==> after_alloc(
            pools,
            id,
            size,
        )[id] == pools[id],
        !pools.contains_key(id) && size <= 4096 ==> after_alloc(pools, id, size)[id] == (Pool {
            allocated: size,
            bound: 4096,
        }),
        !pools.contains_key(id) && size > 4096 ==> after_alloc(pools, id, size)[id] == (Pool {
            allocated: 0,
            bound: 4096,
        }),
{
}

/// An accounted deallocation of `size` bytes for group `id` lowers its counter
/// by exactly `size` (wrapping below zero as an atomic counter does) and keeps
/// its bound; a group without a pool gets one with nothing charged and a
/// bound of 4096 bytes.
pub proof fn lemma_deallocation_counts(pools: Map<u64, Pool>, id: u64, size: usize)
    ensures
        after_dealloc(pools, id, size).contains_key(id),
        pools.contains_key(id) && size <= pools[id].allocated ==> after_dealloc(pools, id, size)[id]
            == (Pool { allocated: (pools[id].allocated - size) as usize, bound: pools[id].bound }),
        pools.contains_key(id) && size > pools[id].allocated ==> after_dealloc(
            pools,
            id,
            size,
        )[id] == (Pool {
            allocated: (pools[id].allocated - size + usize::MAX + 1) as usize,
            bound: pools[id].bound,
        }),
        !pools.contains_key(id) ==> after_dealloc(pools, id, size)[id] == (Pool {
            allocated: 0,
            bound: 4096,
        }),
{
}

} // verus!
