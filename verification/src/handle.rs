//! The deque that outlives a single call: created once, walked any number of
//! times, destroyed once.
//!
//! Ownership stands for the handle. `create` gives the only owner of a deque,
//! `iterate` borrows it, and `destroy` takes it by value, so that nothing can
//! use or destroy a deque a second time.

use crate::barrier::{elements, Barrier, Observation};
use crate::construct::push_back_all;
use std::collections::VecDeque;
use vstd::prelude::*;

verus! {

/// Allocates one deque, sized for the buffer, and appends the buffer's
/// elements to its back, in order.
pub fn create(buffer: &[isize]) -> (deque: VecDeque<isize>)
    ensures
        deque@ == buffer@,
{
    let mut vec_deque = VecDeque::with_capacity(buffer.len());
    push_back_all(&mut vec_deque, buffer);
    vec_deque
}

/// Walks the deque once, front to back, showing each element to the barrier.
pub fn iterate(deque: &VecDeque<isize>, barrier: &mut Barrier)
    ensures
        final(barrier)@ == old(barrier)@ + elements(deque@),
{
    for e in it: deque.iter()
        invariant
            it.seq() == deque@.as_ref(),
            barrier@ == old(barrier)@ + elements(deque@.take(it.index())),
    {
        barrier.element(*e);
        assert(elements(deque@.take(it.index() + 1)) =~= elements(deque@.take(it.index())).push(
            Observation::Element(deque@[it.index()]),
        ));
    }
    assert(deque@.take(deque@.len() as int) =~= deque@);
}

/// Walking a deque that was created from a buffer shows the buffer, element
/// by element and in buffer order: the record grows by exactly one
/// observation for each element of the buffer, what was recorded before stays
/// as it was, and the observation at each new position is the buffer's
/// element at that position.
///
/// `created` is the deque that `create` gives for `buffer`, and `after` is
/// the record that `iterate` leaves when it walks `created` with `before`
/// already recorded.
pub proof fn lemma_create_then_iterate(
    buffer: Seq<isize>,
    created: Seq<isize>,
    before: Seq<Observation>,
    after: Seq<Observation>,
)
    requires
        created == buffer,
        after == before + elements(created),
    ensures
        after.len() == before.len() + buffer.len(),
        after.subrange(0, before.len() as int) == before,
        forall|i: int|
            0 <= i < buffer.len() ==> #[trigger] after[before.len() + i] == Observation::Element(
                buffer[i],
            ),
{
    assert(after.subrange(0, before.len() as int) =~= before);
}

/// Releases the deque and its storage. The deque is taken by value and goes
/// out of scope here: after the call no owner is left.
pub fn destroy(deque: VecDeque<isize>) {
    let _released = deque;
}

} // verus!
