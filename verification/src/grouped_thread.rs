use vstd::prelude::*;

verus! {

/// A thread that belongs to a numbered group.
#[derive(Clone, Copy, Debug, PartialEq, Eq, Structural)]
pub struct GroupedThread {
    pub group: i32,
}

impl GroupedThread {
    /// A thread of group `group`.
    pub fn new(group: i32) -> (t: GroupedThread)
        ensures
            t.group == group,
    {
        let grouped_thread = GroupedThread { group };
        grouped_thread
    }

    /// Spawning is not implemented for this prototype: nothing happens.
    pub fn spawn() {
    }
}

/// A channel between grouped threads; the prototype carries no state.
#[derive(Clone, Copy, Debug, PartialEq, Eq, Structural)]
pub struct GroupedThreadChannel {}

impl GroupedThreadChannel {
    /// A channel for group `group`; the group is not recorded.
    pub fn new(group: i32) -> (c: GroupedThreadChannel)
        ensures
            c == (GroupedThreadChannel {}),
    {
        GroupedThreadChannel {}
    }

    /// Sending between two grouped threads is not implemented for this
    /// prototype: nothing happens.
    pub fn send(t1: GroupedThread, t2: GroupedThread) {
    }
}

} // verus!
