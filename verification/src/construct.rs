//! Construction of deques from a caller's buffer or from an integer range.
//!
//! Each constructor shows the finished deque to the barrier before handing it
//! back, and states both the deque's contents and what crossed the barrier.

use crate::barrier::{elements, Barrier, Observation};
use std::collections::VecDeque;
use vstd::prelude::*;

verus! {

/// The integers from zero up to, but not including, `count`, in ascending
/// order. A `count` of zero or less gives the empty sequence.
pub open spec fn int_range(count: int) -> Seq<isize> {
    Seq::new(
        if count > 0 {
            count as nat
        } else {
            0
        },
        |i: int| i as isize,
    )
}

/// Inserting at the position just past the last item is the same as pushing
/// to the back. This is why insertion at ascending positions, starting from
/// an empty deque, amounts to appending.
pub proof fn lemma_insert_at_end_is_push(items: Seq<isize>, value: isize)
    ensures
        items.insert(items.len() as int, value) == items.push(value),
{
    assert(items.insert(items.len() as int, value) =~= items.push(value));
}

/// The deque that pushing a buffer to the front of an empty deque leaves is
/// the exact reverse of the buffer: as long as the buffer, with the item at
/// each position equal to the buffer's item at the mirrored position. Read
/// back to front it is the buffer again, which is what appending leaves.
pub proof fn lemma_prepend_mirrors_append(buffer: Seq<isize>)
    ensures
        buffer.reverse().len() == buffer.len(),
        forall|i: int|
            0 <= i < buffer.len() ==> #[trigger] buffer.reverse()[i] == buffer[buffer.len() - 1
                - i],
        buffer.reverse().reverse() == buffer,
{
    assert(buffer.reverse().reverse() =~= buffer);
}

/// A range of zero or fewer integers is empty. Building from it leaves an
/// empty deque, and the only thing the barrier is shown, after whatever it
/// had recorded `before`, is that empty deque.
pub proof fn lemma_int_range_empty(count: int, before: Seq<Observation>)
    requires
        count <= 0,
    ensures
        int_range(count) == Seq::<isize>::empty(),
        (before + elements(int_range(count))).push(Observation::Container(int_range(count)))
            == before.push(Observation::Container(Seq::empty())),
{
    assert(int_range(count) =~= Seq::<isize>::empty());
    assert(before + elements(int_range(count)) =~= before);
}

/// A range of `count` integers that all fit in an `isize` holds `count`
/// items, and the item at each position is that position.
pub proof fn lemma_int_range_ascending(count: int)
    requires
        0 <= count <= isize::MAX,
    ensures
        int_range(count).len() == count,
        forall|i: int| 0 <= i < count ==> #[trigger] int_range(count)[i] == i,
{
}

/// Pushes every element of `buffer` to the back of `deque`, first element
/// first: the elements arrive behind what was there, in buffer order.
pub fn push_back_all(deque: &mut VecDeque<isize>, buffer: &[isize])
    ensures
        final(deque)@ == old(deque)@ + buffer@,
{
    for i in 0..buffer.len()
        invariant
            deque@ == old(deque)@ + buffer@.take(i as int),
    {
        deque.push_back(buffer[i]);
        assert(buffer@.take(i + 1) =~= buffer@.take(i as int).push(buffer@[i as int]));
    }
    assert(buffer@.take(buffer@.len() as int) =~= buffer@);
}

/// Pushes every element of `buffer` to the front of `deque`, first element
/// first: the elements arrive before what was there, in reverse buffer order.
pub fn push_front_all(deque: &mut VecDeque<isize>, buffer: &[isize])
    ensures
        final(deque)@ == buffer@.reverse() + old(deque)@,
{
    for i in 0..buffer.len()
        invariant
            deque@ == buffer@.take(i as int).reverse() + old(deque)@,
    {
        deque.push_front(buffer[i]);
        assert(buffer@.take(i + 1).reverse() =~= seq![buffer@[i as int]] + buffer@.take(
            i as int,
        ).reverse());
    }
    assert(buffer@.take(buffer@.len() as int) =~= buffer@);
}

/// Builds an empty deque and pushes the integers of `int_range(count)` to its
/// back, showing each integer to the barrier before it is pushed.
pub fn from_int_range(count: isize, barrier: &mut Barrier) -> (deque: VecDeque<isize>)
    ensures
        deque@ == int_range(count as int),
        final(barrier)@ == (old(barrier)@ + elements(int_range(count as int))).push(
            Observation::Container(int_range(count as int)),
        ),
{
    let mut vd = VecDeque::default();
    let mut i: isize = 0;
    while i < count
        invariant
            i == 0 || 0 < i <= count,
            vd@ == int_range(i as int),
            barrier@ == old(barrier)@ + elements(int_range(i as int)),
        decreases count - i,
    {
        vd.push_back(barrier.element(i));
        assert(int_range(i + 1) =~= int_range(i as int).push(i));
        assert(elements(int_range(i + 1)) =~= elements(int_range(i as int)).push(
            Observation::Element(i),
        ));
        i += 1;
    }
    assert(int_range(i as int) =~= int_range(count as int));
    barrier.container(&vd);
    vd
}

/// Builds a deque pre-sized to the buffer's length and appends the whole
/// buffer to its back.
pub fn from_int_buffer(buffer: &[isize], barrier: &mut Barrier) -> (deque: VecDeque<isize>)
    ensures
        deque@ == buffer@,
        final(barrier)@ == old(barrier)@.push(Observation::Container(buffer@)),
{
    let mut vd = VecDeque::with_capacity(buffer.len());
    push_back_all(&mut vd, buffer);
    barrier.container(&vd);
    vd
}

/// Builds an empty deque without reserving anything and pushes each element
/// of the buffer to its back.
pub fn append_integers(buffer: &[isize], barrier: &mut Barrier) -> (deque: VecDeque<isize>)
    ensures
        deque@ == buffer@,
        final(barrier)@ == old(barrier)@.push(Observation::Container(buffer@)),
{
    let mut vd = VecDeque::default();
    push_back_all(&mut vd, buffer);
    barrier.container(&vd);
    vd
}

/// Builds a deque with room reserved for the whole buffer and pushes each
/// element of the buffer to its back.
pub fn append_integers_with_capacity(buffer: &[isize], barrier: &mut Barrier) -> (deque: VecDeque<
    isize,
>)
    ensures
        deque@ == buffer@,
        final(barrier)@ == old(barrier)@.push(Observation::Container(buffer@)),
{
    let mut vd = VecDeque::with_capacity(buffer.len());
    push_back_all(&mut vd, buffer);
    barrier.container(&vd);
    vd
}

/// Builds an empty deque without reserving anything and pushes each element
/// of the buffer to its front, which leaves the buffer in reverse order.
pub fn prepend_integers(buffer: &[isize], barrier: &mut Barrier) -> (deque: VecDeque<isize>)
    ensures
        deque@ == buffer@.reverse(),
        final(barrier)@ == old(barrier)@.push(Observation::Container(buffer@.reverse())),
{
    let mut vd = VecDeque::default();
    push_front_all(&mut vd, buffer);
    barrier.container(&vd);
    vd
}

/// Builds a deque with room reserved for the whole buffer and pushes each
/// element of the buffer to its front, which leaves the buffer in reverse
/// order.
pub fn prepend_integers_with_capacity(buffer: &[isize], barrier: &mut Barrier) -> (deque: VecDeque<
    isize,
>)
    ensures
        deque@ == buffer@.reverse(),
        final(barrier)@ == old(barrier)@.push(Observation::Container(buffer@.reverse())),
{
    let mut vd = VecDeque::with_capacity(buffer.len());
    push_front_all(&mut vd, buffer);
    barrier.container(&vd);
    vd
}

/// Builds an empty deque and inserts the element at each position of the
/// buffer at that same position of the deque, positions ascending. Every
/// insertion lands at the back, so the deque ends up in buffer order.
pub fn random_insertions(buffer: &[isize], barrier: &mut Barrier) -> (deque: VecDeque<isize>)
    ensures
        deque@ == buffer@,
        final(barrier)@ == old(barrier)@.push(Observation::Container(buffer@)),
{
    let mut vd = VecDeque::new();
    for i in 0..buffer.len()
        invariant
            vd@ == buffer@.take(i as int),
    {
        vd.insert(i, buffer[i]);
        proof {
            lemma_insert_at_end_is_push(buffer@.take(i as int), buffer@[i as int]);
            assert(buffer@.take(i + 1) =~= buffer@.take(i as int).push(buffer@[i as int]));
        }
    }
    assert(buffer@.take(buffer@.len() as int) =~= buffer@);
    barrier.container(&vd);
    vd
}

} // verus!
