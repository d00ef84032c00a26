//! The pool's free list: `crossbeam_queue::ArrayQueue`, seen through a small
//! model.
//!
//! The queue is held by exactly one owner here, so each call is stated as a
//! step from the queue before it to the queue after it.
use bumpalo::Bump;
use crossbeam_queue::ArrayQueue;
use vstd::prelude::*;

verus! {

#[verifier::external_type_specification]
#[verifier::external_body]
#[verifier::reject_recursive_types(T)]
pub struct ExArrayQueue<T>(ArrayQueue<T>);

/// The regions waiting in a queue, the one that leaves next at index 0.
pub uninterp spec fn queued(queue: ArrayQueue<Bump>) -> Seq<Bump>;

/// The number of slots a queue was made with.
pub uninterp spec fn slots(queue: ArrayQueue<Bump>) -> nat;

/// The largest number of slots a queue may be made with. Above it the buffer of
/// slots no longer fits a memory layout.
pub const MAX_SLOTS: usize = usize::MAX / 64;

/// [`MAX_SLOTS`] as a number.
pub open spec fn max_slots() -> nat {
    MAX_SLOTS as nat
}

/// Calls `crossbeam_queue::ArrayQueue::new`.
///
/// It is believed that the new queue is empty and has `cap` slots. `new`
/// panics on zero slots and on a count too large to lay out, both of which the
/// bounds on `cap` exclude; past that it fails only when the machine has no
/// memory left for the slots.
#[verifier::external_body]
pub(crate) fn queue_new(cap: usize) -> (queue: ArrayQueue<Bump>)
    requires
        0 < cap <= max_slots(),
    ensures
        queued(queue) == Seq::<Bump>::empty(),
        slots(queue) == cap,
{
    ArrayQueue::new(cap)
}

/// Calls `crossbeam_queue::ArrayQueue::push`.
///
/// It is believed that a queue with a free slot takes the region at its back,
/// and that a full queue stays as it is and hands the region back.
#[verifier::external_body]
pub(crate) fn queue_push(queue: &mut ArrayQueue<Bump>, region: Bump) -> (res: Result<(), Bump>)
    ensures
        slots(*final(queue)) == slots(*old(queue)),
        queued(*old(queue)).len() < slots(*old(queue)) ==> res is Ok && queued(*final(queue))
            == queued(*old(queue)).push(region),
        queued(*old(queue)).len() >= slots(*old(queue)) ==> res is Err && res->Err_0 == region
            && queued(*final(queue)) == queued(*old(queue)),
{
    queue.push(region)
}

/// Calls `crossbeam_queue::ArrayQueue::pop`.
///
/// It is believed that a queue which holds something gives up the region at
/// its front, and that an empty queue stays empty and gives `None`.
#[verifier::external_body]
pub(crate) fn queue_pop(queue: &mut ArrayQueue<Bump>) -> (res: Option<Bump>)
    ensures
        slots(*final(queue)) == slots(*old(queue)),
        queued(*old(queue)).len() > 0 ==> res == Some(queued(*old(queue))[0]) && queued(
            *final(queue),
        ) == queued(*old(queue)).skip(1),
        queued(*old(queue)).len() == 0 ==> res is None && queued(*final(queue)) == queued(
            *old(queue),
        ),
{
    queue.pop()
}

/// Calls `crossbeam_queue::ArrayQueue::capacity`, which gives the number of
/// slots.
#[verifier::external_body]
pub(crate) fn queue_capacity(queue: &ArrayQueue<Bump>) -> (cap: usize)
    ensures
        cap == slots(*queue),
{
    queue.capacity()
}

/// Calls `crossbeam_queue::ArrayQueue::len`, which gives the number of regions
/// waiting.
#[verifier::external_body]
pub(crate) fn queue_len(queue: &ArrayQueue<Bump>) -> (len: usize)
    ensures
        len == queued(*queue).len(),
{
    queue.len()
}

/// Calls `crossbeam_queue::ArrayQueue::is_empty`.
#[verifier::external_body]
pub(crate) fn queue_is_empty(queue: &ArrayQueue<Bump>) -> (empty: bool)
    ensures
        empty == (queued(*queue).len() == 0),
{
    queue.is_empty()
}

} // verus!
