//! The memory regions themselves: `bumpalo::Bump`, seen through a small model.
//!
//! A region is opaque to the verifier. What the rest of the crate needs to know
//! of one is named here and stated, without proof, on the three calls below.
use bumpalo::Bump;
use vstd::prelude::*;

verus! {

#[verifier::external_type_specification]
#[verifier::external_body]
pub struct ExBump<const MIN_ALIGN: usize>(Bump<MIN_ALIGN>);

/// The addresses that a region has handed out since it was made or last reset.
pub uninterp spec fn carved(region: Bump) -> Set<usize>;

/// The byte capacity that a region was made with.
pub uninterp spec fn capacity_hint(region: Bump) -> nat;

/// The largest capacity a region may be asked to reserve up front. Above it the
/// size of the first chunk, with its footer and rounding, no longer fits a
/// memory layout.
pub const MAX_REGION_CAPACITY: usize = usize::MAX / 4;

/// [`MAX_REGION_CAPACITY`] as a number.
pub open spec fn max_region_capacity() -> nat {
    MAX_REGION_CAPACITY as nat
}

/// Calls `bumpalo::Bump::with_capacity`.
///
/// It is believed that the region it returns has handed out nothing yet, and
/// that it remembers the capacity it was asked for. `with_capacity` panics
/// when the first chunk cannot be laid out, which the bound on `capacity`
/// excludes, and otherwise only when the machine has no memory left for it.
#[verifier::external_body]
pub(crate) fn region_with_capacity(capacity: usize) -> (region: Bump)
    requires
        capacity <= max_region_capacity(),
    ensures
        carved(region) == Set::<usize>::empty(),
        capacity_hint(region) == capacity,
{
    Bump::with_capacity(capacity)
}

/// Calls `bumpalo::Bump::reset`.
///
/// It is believed that a reset gives up every block handed out so far, all at
/// once, and leaves the region what it was made as.
#[verifier::external_body]
pub(crate) fn region_reset(region: &mut Bump)
    ensures
        carved(*final(region)) == Set::<usize>::empty(),
        capacity_hint(*final(region)) == capacity_hint(*old(region)),
{
    region.reset()
}

/// Calls `bumpalo::Bump::alloc`, which moves `val` into a block of the region,
/// and hands back that block's address in place of the reference.
///
/// It is believed that the address is not null and is suitably aligned, that a
/// block of non-zero size does not start where an earlier block of the same
/// region does, and that the region is otherwise what it was. The region
/// grows when it is full, so `alloc` panics only when the machine has no
/// memory left. The value's destructor is not run by the region: the block is
/// given up by `reset`.
#[verifier::external_body]
pub(crate) fn region_place<T: Send + 'static>(region: &mut Bump, val: T) -> (addr: usize)
    ensures
        addr != 0,
        addr as nat % vstd::layout::align_of::<T>() == 0,
        vstd::layout::size_of::<T>() > 0 ==> !carved(*old(region)).contains(addr),
        carved(*final(region)) == carved(*old(region)).insert(addr),
        capacity_hint(*final(region)) == capacity_hint(*old(region)),
{
    std::ptr::NonNull::from(region.alloc(val)).addr().get()
}

} // verus!
