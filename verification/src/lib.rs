//! Verified core of anodize: per-group memory accounting for a bounded
//! global allocator, heterogeneous lists, and the group-tagged thread
//! plumbing that keeps channels inside one thread group.

pub mod pool;
pub mod allocator;
pub mod hlist;
pub mod thread_groups;
pub mod grouped_thread;
pub mod trajectory;
pub mod visodom;
pub mod fixed_bound;
pub mod settings;
