use vstd::prelude::*;
use std::ops::Add;
use vstd::std_specs::ops::AddSpec;

verus! {

/// An empty heterogeneous list.
#[derive(Clone, Copy, Debug)]
pub struct HNil;

/// A non-empty heterogeneous list: its first value is `head`, the rest is
/// another list in `tail`.
#[derive(Clone, Copy, Debug)]
pub struct HCons<H, T> {
    pub head: H,
    pub tail: T,
}

/// The lists `HNil` and `HCons<H, T>`.
pub trait HList: Sized {
    /// Number of elements, fixed by the list's type.
    spec fn length() -> nat;

    /// Number of elements.
    fn len(&self) -> (n: usize)
        requires
            Self::length() <= usize::MAX,
        ensures
            n == Self::length(),
    {
        self.static_len()
    }

    /// Number of elements, as the type gives it.
    fn static_len(&self) -> (n: usize)
        requires
            Self::length() <= usize::MAX,
        ensures
            n == Self::length(),
    ;

    /// Consumes the list and returns a new one with `item` at the front.
    fn prepend<N>(self, item: N) -> (l: HCons<N, Self>)
        ensures
            l.head == item,
            l.tail == self,
    {
        HCons { head: item, tail: self }
    }
}

impl HList for HNil {
    open spec fn length() -> nat {
        0
    }

    fn static_len(&self) -> (n: usize) {
        0
    }
}

impl<H, T: HList> HList for HCons<H, T> {
    open spec fn length() -> nat {
        1 + T::length()
    }

    fn static_len(&self) -> (n: usize) {
        1 + self.tail.static_len()
    }
}

impl<H, T> HCons<H, T> {
    /// Returns the head and the tail of the list as a pair, consuming the list.
    pub fn pop(self) -> (r: (H, T))
        ensures
            r == (self.head, self.tail),
    {
        (self.head, self.tail)
    }
}


impl<RHS> Add<RHS> for HNil {
    type Output = RHS;

    /// Appending to the empty list gives the other list.
    fn add(self, rhs: RHS) -> (r: RHS)
        ensures
            r == rhs,
    {
        rhs
    }
}

impl<RHS> vstd::std_specs::ops::AddSpecImpl<RHS> for HNil {
    open spec fn obeys_add_spec() -> bool {
        true
    }

    open spec fn add_req(self, rhs: RHS) -> bool {
        true
    }

    open spec fn add_spec(self, rhs: RHS) -> RHS {
        rhs
    }
}

impl<H, T, RHS> Add<RHS> for HCons<H, T> where T: Add<RHS>, RHS: HList {
    type Output = HCons<H, <T as Add<RHS>>::Output>;

    /// Appends `rhs` after the last element: the head stays, the tail gets `rhs`
    /// appended.
    fn add(self, rhs: RHS) -> (r: Self::Output)
        ensures
            r.head == self.head,
            T::obeys_add_spec() ==> r.tail == self.tail.add_spec(rhs),
    {
        HCons { head: self.head, tail: self.tail + rhs }
    }
}

impl<H, T, RHS> vstd::std_specs::ops::AddSpecImpl<RHS> for HCons<H, T> where T: Add<RHS>, RHS: HList {
    open spec fn obeys_add_spec() -> bool {
        T::obeys_add_spec()
    }

    open spec fn add_req(self, rhs: RHS) -> bool {
        self.tail.add_req(rhs)
    }

    open spec fn add_spec(self, rhs: RHS) -> Self::Output {
        HCons { head: self.head, tail: self.tail.add_spec(rhs) }
    }
}


/// Turning a list into nested pairs.
pub trait IntoTuple2 {
    /// The first element of the pair.
    type HeadType;

    /// The second element of the pair.
    type TailOutput;

    /// The nested pairs that the list turns into.
    spec fn tuple2(self) -> (Self::HeadType, Self::TailOutput);

    /// Turns the list into nested pairs.
    fn into_tuple2(self) -> (r: (Self::HeadType, Self::TailOutput))
        ensures
            r == self.tuple2(),
    ;
}

impl<T1, T2> IntoTuple2 for HCons<T1, HCons<T2, HNil>> {
    type HeadType = T1;

    type TailOutput = T2;

    open spec fn tuple2(self) -> (T1, T2) {
        (self.head, self.tail.head)
    }

    fn into_tuple2(self) -> (r: (T1, T2)) {
        (self.head, self.tail.head)
    }
}

impl<T, Tail> IntoTuple2 for HCons<T, Tail> where Tail: IntoTuple2 {
    type HeadType = T;

    type TailOutput = (<Tail as IntoTuple2>::HeadType, <Tail as IntoTuple2>::TailOutput);

    open spec fn tuple2(self) -> (T, (Tail::HeadType, Tail::TailOutput)) {
        (self.head, self.tail.tuple2())
    }

    fn into_tuple2(self) -> (r: (T, (Tail::HeadType, Tail::TailOutput))) {
        (self.head, self.tail.into_tuple2())
    }
}


/// The list `[1, 2, 3]`, built by prepending to the empty list.
pub fn create_hlist() -> (l: HCons<i32, HCons<i32, HCons<i32, HNil>>>)
    ensures
        l.head == 1,
        l.tail.head == 2,
        l.tail.tail.head == 3,
{
    HNil.prepend(3).prepend(2).prepend(1)
}

/// Prepending an item makes the list one element longer.
pub proof fn lemma_prepend_length<N, L: HList>()
    ensures
        HCons::<N, L>::length() == L::length() + 1,
{
}


/// Lists that `+` appends `RHS` to, giving the list `Out`. Every list built
/// from `HNil` and `HCons` is one, for every list `RHS`.
pub trait HAppend<RHS: HList, Out: HList>: HList + Add<RHS, Output = Out> {
    /// Appending adds the lengths, and `+` on these lists computes `add_spec`.
    proof fn lemma_append_length()
        ensures
            Out::length() == Self::length() + RHS::length(),
            <Self as AddSpec<RHS>>::obeys_add_spec(),
    ;

    /// `+` on these lists has no precondition.
    proof fn lemma_append_defined(self, rhs: RHS)
        ensures
            <Self as AddSpec<RHS>>::add_req(self, rhs),
    ;
}

impl<RHS: HList> HAppend<RHS, RHS> for HNil {
    proof fn lemma_append_length() {
    }

    proof fn lemma_append_defined(self, rhs: RHS) {
    }
}

impl<H, T, RHS, TOut> HAppend<RHS, HCons<H, TOut>> for HCons<H, T> where
    T: HAppend<RHS, TOut>,
    RHS: HList,
    TOut: HList,
 {
    proof fn lemma_append_length() {
        <T as HAppend<RHS, TOut>>::lemma_append_length();
    }

    proof fn lemma_append_defined(self, rhs: RHS) {
        self.tail.lemma_append_defined(rhs);
    }
}

/// Lists for which appending the empty list changes nothing.
pub trait HAppendNil: HAppend<HNil, Self> {
    /// `self + HNil` is `self`, element by element.
    proof fn lemma_append_nil(self)
        ensures
            <Self as AddSpec<HNil>>::add_spec(self, HNil) == self,
    ;
}

impl HAppendNil for HNil {
    proof fn lemma_append_nil(self) {
    }
}

impl<H, T> HAppendNil for HCons<H, T> where T: HAppendNil {
    proof fn lemma_append_nil(self) {
        self.tail.lemma_append_nil();
    }
}


/// Lists `A` (this one) for which appending `B` then `C` and appending the
/// sum of `B` and `C` give the same list `R`.
pub trait HAppendAssoc<B: HList, C: HList, AB: HList, BC: HList, R: HList>: HAppend<B, AB> +
    HAppend<BC, R> where AB: HAppend<C, R>, B: HAppend<C, BC> {
    /// `(a + b) + c` is `a + (b + c)`, element by element.
    proof fn lemma_append_assoc(self, b: B, c: C)
        ensures
            <AB as AddSpec<C>>::add_spec(<Self as AddSpec<B>>::add_spec(self, b), c)
                == <Self as AddSpec<BC>>::add_spec(self, <B as AddSpec<C>>::add_spec(b, c)),
    ;
}

impl<B: HList, C: HList, BC: HList> HAppendAssoc<B, C, B, BC, BC> for HNil where
    B: HAppend<C, BC>,
 {
    proof fn lemma_append_assoc(self, b: B, c: C) {
    }
}

impl<H, T, B: HList, C: HList, TB: HList, BC: HList, TR: HList> HAppendAssoc<
    B,
    C,
    HCons<H, TB>,
    BC,
    HCons<H, TR>,
> for HCons<H, T> where
    T: HAppendAssoc<B, C, TB, BC, TR>,
    TB: HAppend<C, TR>,
    B: HAppend<C, BC>,
 {
    proof fn lemma_append_assoc(self, b: B, c: C) {
        self.tail.lemma_append_assoc(b, c);
    }
}

} // verus!
