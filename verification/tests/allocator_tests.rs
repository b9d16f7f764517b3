use anodize::allocator::{
    add_bound, die, get_allocated, get_bound, get_group, set_group, AllocOutcome,
    BoundedAllocator, ThreadContext, DEFAULT_BOUND, GROUP_LIMIT,
};

fn in_group(group: u64) -> ThreadContext {
    let mut ctx = ThreadContext::new();
    set_group(&mut ctx, group);
    ctx
}

#[test]
fn constants_match_the_allocator() {
    assert_eq!(DEFAULT_BOUND, 4096);
    assert_eq!(GROUP_LIMIT, 10);
}

#[test]
fn thread_context_starts_empty() {
    let ctx = ThreadContext::new();
    assert_eq!(ctx, ThreadContext { is_oom: false, group: None, is_dead: false });
    assert_eq!(get_group(&ctx), None);
}

#[test]
fn set_group_then_get_group() {
    let mut ctx = ThreadContext::new();
    set_group(&mut ctx, 0x41);
    assert_eq!(get_group(&ctx), Some(0x41));
    set_group(&mut ctx, 0x10);
    assert_eq!(get_group(&ctx), Some(0x10));
    assert!(!ctx.is_dead);
}

#[test]
fn die_marks_thread_dead() {
    let mut ctx = in_group(3);
    die(&mut ctx);
    assert!(ctx.is_dead);
    assert_eq!(ctx.group, Some(3));
    assert!(!ctx.is_oom);
}

#[test]
fn unknown_group_reports_zero() {
    let a = BoundedAllocator::new();
    assert_eq!(get_allocated(&a, 0x41), 0);
    assert_eq!(get_bound(&a, 0x41), 0);
}

#[test]
fn add_bound_sets_bound_and_resets_count() {
    let mut a = BoundedAllocator::new();
    add_bound(&mut a, 0x41, 2048);
    assert_eq!(get_bound(&a, 0x41), 2048);
    assert_eq!(get_allocated(&a, 0x41), 0);
    let mut ctx = in_group(0x41);
    assert_eq!(a.allocate(&mut ctx, true, false, 100), AllocOutcome::Granted);
    assert_eq!(get_allocated(&a, 0x41), 100);
    add_bound(&mut a, 0x41, 16);
    assert_eq!(get_bound(&a, 0x41), 16);
    assert_eq!(get_allocated(&a, 0x41), 0);
}

#[test]
fn untracked_requests_change_nothing() {
    let mut a = BoundedAllocator::new();
    add_bound(&mut a, 1, 10);
    let mut grouped = in_group(1);
    assert_eq!(a.allocate(&mut grouped, false, false, 100), AllocOutcome::Untracked);
    assert_eq!(a.allocate(&mut grouped, true, true, 100), AllocOutcome::Untracked);
    let mut loner = ThreadContext::new();
    assert_eq!(a.allocate(&mut loner, true, false, 100), AllocOutcome::Untracked);
    assert!(!a.deallocate(&loner, true, false, 100));
    assert!(!a.deallocate(&grouped, false, false, 100));
    assert!(!a.deallocate(&grouped, true, true, 100));
    assert_eq!(get_allocated(&a, 1), 0);
    assert!(!grouped.is_oom);
    assert!(!loner.is_oom);
}

#[test]
fn refused_allocation_sets_oom_and_keeps_counter() {
    let mut a = BoundedAllocator::new();
    add_bound(&mut a, 7, 256);
    let mut ctx = in_group(7);
    assert_eq!(a.allocate(&mut ctx, true, false, 200), AllocOutcome::Granted);
    assert_eq!(a.allocate(&mut ctx, true, false, 57), AllocOutcome::OutOfMemory);
    assert!(ctx.is_oom);
    assert_eq!(get_allocated(&a, 7), 200);
    assert_eq!(a.allocate(&mut ctx, true, false, 56), AllocOutcome::Granted);
    assert_eq!(get_allocated(&a, 7), 256);
}

#[test]
fn group_without_bound_gets_default_pool() {
    let mut a = BoundedAllocator::new();
    let mut ctx = in_group(9);
    assert_eq!(a.allocate(&mut ctx, true, false, 4096), AllocOutcome::Granted);
    assert_eq!(get_bound(&a, 9), DEFAULT_BOUND);
    assert_eq!(get_allocated(&a, 9), 4096);
    assert_eq!(a.allocate(&mut ctx, true, false, 1), AllocOutcome::OutOfMemory);
}

#[test]
fn refused_first_allocation_still_creates_default_pool() {
    let mut a = BoundedAllocator::new();
    let mut ctx = in_group(9);
    assert_eq!(a.allocate(&mut ctx, true, false, 5000), AllocOutcome::OutOfMemory);
    assert_eq!(get_bound(&a, 9), DEFAULT_BOUND);
    assert_eq!(get_allocated(&a, 9), 0);
}

#[test]
fn deallocate_undoes_allocate() {
    let mut a = BoundedAllocator::new();
    add_bound(&mut a, 2, 1000);
    let mut ctx = in_group(2);
    assert_eq!(a.allocate(&mut ctx, true, false, 300), AllocOutcome::Granted);
    assert_eq!(a.allocate(&mut ctx, true, false, 128), AllocOutcome::Granted);
    assert!(a.deallocate(&ctx, true, false, 128));
    assert_eq!(get_allocated(&a, 2), 300);
    assert_eq!(get_bound(&a, 2), 1000);
}

#[test]
fn deallocate_for_group_without_pool_starts_it_at_zero() {
    let mut a = BoundedAllocator::new();
    let ctx = in_group(5);
    assert!(a.deallocate(&ctx, true, false, 64));
    assert_eq!(get_allocated(&a, 5), 0);
    assert_eq!(get_bound(&a, 5), DEFAULT_BOUND);
}

#[test]
fn deallocate_more_than_held_wraps() {
    let mut a = BoundedAllocator::new();
    add_bound(&mut a, 5, 100);
    let ctx = in_group(5);
    assert!(a.deallocate(&ctx, true, false, 1));
    assert_eq!(get_allocated(&a, 5), usize::MAX);
}

#[test]
fn other_groups_are_untouched() {
    let mut a = BoundedAllocator::new();
    add_bound(&mut a, 0x41, 2048);
    add_bound(&mut a, 0x42, 512);
    let mut ctx_a = in_group(0x41);
    let mut ctx_b = in_group(0x42);
    assert_eq!(a.allocate(&mut ctx_a, true, false, 1000), AllocOutcome::Granted);
    assert_eq!(a.allocate(&mut ctx_b, true, false, 600), AllocOutcome::OutOfMemory);
    assert_eq!(get_allocated(&a, 0x41), 1000);
    assert_eq!(get_allocated(&a, 0x42), 0);
    assert!(!ctx_a.is_oom);
    assert!(ctx_b.is_oom);
}

#[test]
fn growing_vector_hits_group_bound() {
    // A group with a 2048-byte bound keeps allocating 16-byte blocks until
    // the bound is reached; the next request is refused.
    let mut a = BoundedAllocator::new();
    add_bound(&mut a, 0x41, 2048);
    let mut ctx = in_group(0x41);
    let mut granted = 0;
    while a.allocate(&mut ctx, true, false, 16) == AllocOutcome::Granted {
        granted += 1;
        assert!(get_allocated(&a, 0x41) <= get_bound(&a, 0x41));
    }
    assert_eq!(granted, 128);
    assert_eq!(get_allocated(&a, 0x41), 2048);
    assert!(ctx.is_oom);
}
