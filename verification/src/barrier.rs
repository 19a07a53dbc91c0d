//! The observation barrier: the only place where values are shown to the
//! optimizer, together with a ghost record of everything that was shown.

use std::collections::VecDeque;
use std::hint::black_box;
use vstd::prelude::*;

verus! {

/// `std::hint::black_box` is documented as an identity function: it hands its
/// argument back unchanged. The hint it gives to the optimizer is invisible to
/// the logic. This is assumed from the documentation, not proved.
pub assume_specification<T>[ std::hint::black_box::<T> ](dummy: T) -> (seen: T)
    ensures
        seen == dummy,
;

/// One value that crossed the barrier.
pub enum Observation {
    /// A single element, by value.
    Element(isize),
    /// A whole container, with the contents it had at that moment.
    Container(Seq<isize>),
}

/// The observations made by showing each item of `items` on its own, first
/// item first.
pub open spec fn elements(items: Seq<isize>) -> Seq<Observation> {
    Seq::new(items.len(), |i: int| Observation::Element(items[i]))
}

/// A record of the observations made through it, oldest first.
///
/// The record is ghost state: a `Barrier` occupies no memory at run time. Its
/// field is private, so the record can only grow through [`Barrier::element`]
/// and [`Barrier::container`], each of which performs the observation it
/// records.
pub struct Barrier {
    log: Ghost<Seq<Observation>>,
}

impl View for Barrier {
    type V = Seq<Observation>;

    closed spec fn view(&self) -> Seq<Observation> {
        self.log@
    }
}

impl Barrier {
    /// A barrier through which nothing has passed yet.
    pub fn new() -> (barrier: Self)
        ensures
            barrier@ == Seq::<Observation>::empty(),
    {
        Barrier { log: Ghost(Seq::empty()) }
    }

    /// Shows `value` to the optimizer and hands it back.
    pub fn element(&mut self, value: isize) -> (seen: isize)
        ensures
            seen == value,
            final(self)@ == old(self)@.push(Observation::Element(value)),
    {
        let seen = black_box(value);
        self.log = Ghost(self.log@.push(Observation::Element(seen)));
        seen
    }

    /// Shows the whole of `deque` to the optimizer.
    pub fn container(&mut self, deque: &VecDeque<isize>)
        ensures
            final(self)@ == old(self)@.push(Observation::Container(deque@)),
    {
        let seen = black_box(deque);
        self.log = Ghost(self.log@.push(Observation::Container(seen@)));
    }
}

} // verus!
