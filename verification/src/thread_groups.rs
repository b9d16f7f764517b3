use vstd::prelude::*;
use std::marker::PhantomData;
use std::sync::mpsc::{Receiver, Sender};

verus! {

/// The sending half of a std channel; its contents are not looked into.
#[verifier::external_type_specification]
#[verifier::external_body]
#[verifier::reject_recursive_types(T)]
pub struct ExSender<T>(Sender<T>);

/// The receiving half of a std channel; its contents are not looked into.
#[verifier::external_type_specification]
#[verifier::external_body]
#[verifier::reject_recursive_types(T)]
pub struct ExReceiver<T>(Receiver<T>);

/// Calls `std::sync::mpsc::channel`, which creates a fresh unbounded channel.
/// Nothing is claimed of the two halves beyond their types: that they belong
/// to the same channel is not stated.
#[verifier::external_body]
fn mpsc_channel<V>() -> (Sender<V>, Receiver<V>) {
    std::sync::mpsc::channel()
}

/// `Clone` of `std::sync::mpsc::Sender`: another sender of the same channel.
/// Which channel a sender belongs to cannot be seen here, so nothing is
/// claimed of the result.
pub assume_specification<T>[ <Sender<T> as Clone>::clone ](s: &Sender<T>) -> Sender<T>;

/// `Clone` of `std::marker::PhantomData`, a value with no content: the clone
/// equals the original.
pub assume_specification<T: std::marker::PointeeSized>[ <PhantomData<T> as Clone>::clone ](
    p: &PhantomData<T>,
) -> (r: PhantomData<T>)
    ensures
        r == *p,
;

/// Marks a type as the tag of one thread group.
pub trait GroupTag {
}

/// A sender that may only be handed to threads of the group `G`.
#[verifier::reject_recursive_types(V)]
#[derive(Clone)]
pub struct IntragroupSender<V, G: GroupTag> {
    sender: Sender<V>,
    marker: PhantomData<G>,
}

/// A receiver that may only be handed to threads of the group `G`.
#[verifier::reject_recursive_types(V)]
pub struct IntragroupReceiver<V, G: GroupTag> {
    receiver: Receiver<V>,
    created_with: Ghost<Sender<V>>,
    marker: PhantomData<G>,
}

impl<V, G: GroupTag> IntragroupSender<V, G> {
    /// The channel end this sender wraps.
    pub closed spec fn endpoint(&self) -> Sender<V> {
        self.sender
    }

    /// Unwraps the channel end.
    pub fn into_sender(self) -> (s: Sender<V>)
        ensures
            s == self.endpoint(),
    {
        self.sender
    }
}

impl<V, G: GroupTag> IntragroupReceiver<V, G> {
    /// The channel end this receiver wraps.
    pub closed spec fn endpoint(&self) -> Receiver<V> {
        self.receiver
    }

    /// The sender that std's `channel` made together with this receiver.
    pub closed spec fn peer(&self) -> Sender<V> {
        self.created_with@
    }

    /// Unwraps the channel end.
    pub fn into_receiver(self) -> (r: Receiver<V>)
        ensures
            r == self.endpoint(),
    {
        self.receiver
    }
}

/// A sender and a receiver are the two ends of one channel: the receiver was
/// made by the same call of std's `channel` as the sender's channel end.
pub open spec fn same_channel<V, G: GroupTag>(
    s: IntragroupSender<V, G>,
    r: IntragroupReceiver<V, G>,
) -> bool {
    r.peer() == s.endpoint()
}

/// A fresh channel whose two ends are bound to the group `G`: the sender and
/// the receiver of one call of std's `channel`.
pub fn channel<V, G: GroupTag>() -> (ends: (IntragroupSender<V, G>, IntragroupReceiver<V, G>))
    ensures
        same_channel(ends.0, ends.1),
{
    let (s, r) = mpsc_channel::<V>();
    let ghost peer = s;
    (
        IntragroupSender { sender: s, marker: PhantomData },
        IntragroupReceiver { receiver: r, created_with: Ghost(peer), marker: PhantomData },
    )
}


/// A thread of the group `G` that is not spawned yet: the function it will
/// run, and the channel ends it will be handed.
#[verifier::reject_recursive_types(G)]
pub struct TaggedThread<G: GroupTag, F> {
    thunk: F,
    sends: Vec<IntragroupSender<i32, G>>,
    recvs: Vec<IntragroupReceiver<i32, G>>,
    marker: PhantomData<G>,
}

impl<G: GroupTag, F> TaggedThread<G, F> {
    /// The function the thread will run.
    pub closed spec fn thunk(&self) -> F {
        self.thunk
    }

    /// The senders the thread will be handed, in the order they were added.
    pub closed spec fn sends(&self) -> Seq<IntragroupSender<i32, G>> {
        self.sends@
    }

    /// The receivers the thread will be handed, in the order they were added.
    pub closed spec fn recvs(&self) -> Seq<IntragroupReceiver<i32, G>> {
        self.recvs@
    }

    /// A thread that will run `f` and has no channel ends yet.
    pub fn new(f: F) -> (t: TaggedThread<G, F>)
        ensures
            t.thunk() == f,
            t.sends() == Seq::<IntragroupSender<i32, G>>::empty(),
            t.recvs() == Seq::<IntragroupReceiver<i32, G>>::empty(),
    {
        TaggedThread { thunk: f, sends: Vec::new(), recvs: Vec::new(), marker: PhantomData }
    }

    /// The same thread, also handed `sender`.
    pub fn add_send(self, sender: IntragroupSender<i32, G>) -> (t: TaggedThread<G, F>)
        ensures
            t.thunk() == self.thunk(),
            t.sends() == self.sends().push(sender),
            t.recvs() == self.recvs(),
    {
        let mut t = self;
        t.sends.push(sender);
        t
    }

    /// The same thread, also handed `receiver`.
    pub fn add_recv(self, receiver: IntragroupReceiver<i32, G>) -> (t: TaggedThread<G, F>)
        ensures
            t.thunk() == self.thunk(),
            t.sends() == self.sends(),
            t.recvs() == self.recvs().push(receiver),
    {
        let mut t = self;
        t.recvs.push(receiver);
        t
    }

    /// Splits the thread into its function and its unwrapped channel ends,
    /// ready to be spawned.
    pub fn into_parts(self) -> (parts: (F, Vec<Sender<i32>>, Vec<Receiver<i32>>))
        ensures
            parts.0 == self.thunk(),
            parts.1@ == self.sends().map_values(|e: IntragroupSender<i32, G>| e.endpoint()),
            parts.2@ == self.recvs().map_values(|e: IntragroupReceiver<i32, G>| e.endpoint()),
    {
        let s = unwrap_senders(self.sends);
        let r = unwrap_receivers(self.recvs);
        (self.thunk, s, r)
    }
}

/// Links two threads of one group: a fresh channel whose sender goes to
/// `from` and whose receiver goes to `to`.
pub fn link<G: GroupTag, F1, F2>(from: TaggedThread<G, F1>, to: TaggedThread<G, F2>) -> (linked: (
    TaggedThread<G, F1>,
    TaggedThread<G, F2>,
))
    ensures
        linked.0.thunk() == from.thunk(),
        linked.0.recvs() == from.recvs(),
        linked.0.sends().len() == from.sends().len() + 1,
        linked.0.sends().drop_last() == from.sends(),
        linked.1.thunk() == to.thunk(),
        linked.1.sends() == to.sends(),
        linked.1.recvs().len() == to.recvs().len() + 1,
        linked.1.recvs().drop_last() == to.recvs(),
        same_channel(linked.0.sends().last(), linked.1.recvs().last()),
{
    let (s, r) = channel::<i32, G>();
    (from.add_send(s), to.add_recv(r))
}

/// Linking connects the two threads by one channel, whatever channel ends
/// they held before: the sender `from` gains and the receiver `to` gains are
/// the two ends of one channel, and every end they held before is kept in
/// place.
pub proof fn lemma_link_connects<G: GroupTag, F1, F2>(
    from: TaggedThread<G, F1>,
    to: TaggedThread<G, F2>,
    linked_from: TaggedThread<G, F1>,
    linked_to: TaggedThread<G, F2>,
    s: IntragroupSender<i32, G>,
    r: IntragroupReceiver<i32, G>,
)
    requires
        same_channel(s, r),
        linked_from.sends() == from.sends().push(s),
        linked_to.recvs() == to.recvs().push(r),
    ensures
        same_channel(
            linked_from.sends()[from.sends().len() as int],
            linked_to.recvs()[to.recvs().len() as int],
        ),
        forall|i: int| 0 <= i < from.sends().len() ==> linked_from.sends()[i] == from.sends()[i],
        forall|i: int| 0 <= i < to.recvs().len() ==> linked_to.recvs()[i] == to.recvs()[i],
{
}

/// The channel ends that a list of group senders wraps, in the same order.
pub fn unwrap_senders<V, G: GroupTag>(senders: Vec<IntragroupSender<V, G>>) -> (out: Vec<Sender<V>>)
    ensures
        out@ == senders@.map_values(|e: IntragroupSender<V, G>| e.endpoint()),
{
    let ghost all = senders@;
    let mut rest = senders;
    let mut out: Vec<Sender<V>> = Vec::new();
    while rest.len() > 0
        invariant
            out@.len() + rest@.len() == all.len(),
            rest@ == all.subrange(out@.len() as int, all.len() as int),
            forall|i: int| 0 <= i < out@.len() ==> out@[i] == #[trigger] all[i].endpoint(),
        decreases rest@.len(),
    {
        let e = rest.remove(0);
        out.push(e.into_sender());
    }
    assert(out@ =~= all.map_values(|e: IntragroupSender<V, G>| e.endpoint()));
    out
}

/// The channel ends that a list of group receivers wraps, in the same order.
pub fn unwrap_receivers<V, G: GroupTag>(receivers: Vec<IntragroupReceiver<V, G>>) -> (out: Vec<
    Receiver<V>,
>)
    ensures
        out@ == receivers@.map_values(|e: IntragroupReceiver<V, G>| e.endpoint()),
{
    let ghost all = receivers@;
    let mut rest = receivers;
    let mut out: Vec<Receiver<V>> = Vec::new();
    while rest.len() > 0
        invariant
            out@.len() + rest@.len() == all.len(),
            rest@ == all.subrange(out@.len() as int, all.len() as int),
            forall|i: int| 0 <= i < out@.len() ==> out@[i] == #[trigger] all[i].endpoint(),
        decreases rest@.len(),
    {
        let e = rest.remove(0);
        out.push(e.into_receiver());
    }
    assert(out@ =~= all.map_values(|e: IntragroupReceiver<V, G>| e.endpoint()));
    out
}

} // verus!
