//! The pool of free regions.
use crate::arena::{capacity_hint, carved, max_region_capacity, region_reset, region_with_capacity};
use crate::bump::RecycleableBump;
use crate::queue::{
    max_slots, queue_capacity, queue_is_empty, queue_len, queue_new, queue_pop, queue_push, queued,
    slots,
};
use bumpalo::Bump;
use crossbeam_queue::ArrayQueue;
use vstd::prelude::*;

verus! {

/// How a pool is laid out.
#[derive(Debug, Clone)]
pub struct PoolConfig {
    /// Most regions the pool keeps.
    pub pool_capacity: usize,
    /// Bytes reserved up front in each region.
    pub bump_capacity: usize,
}

/// A region as the pool keeps it: nothing handed out, and made with the
/// capacity the pool was set up for.
pub open spec fn pristine(region: Bump, bump_capacity: nat) -> bool {
    &&& carved(region) == Set::<usize>::empty()
    &&& capacity_hint(region) == bump_capacity
}

/// What `take` leaves of the free regions: all but the first.
pub open spec fn after_take(free: Seq<Bump>) -> Seq<Bump> {
    if free.len() > 0 {
        free.skip(1)
    } else {
        free
    }
}

/// What `count` takes in a row, with no release between, leave of the free
/// regions.
pub open spec fn after_takes(free: Seq<Bump>, count: nat) -> Seq<Bump>
    decreases count,
{
    if count == 0 {
        free
    } else {
        after_takes(after_take(free), (count - 1) as nat)
    }
}

/// Each take, with no release between, leaves one free region fewer until
/// none is left, and none is left from then on. So a pool that starts with
/// `free.len()` regions is empty after as many takes, and stays empty through
/// every further take, each of which still hands out a region.
pub proof fn lemma_takes_drain(free: Seq<Bump>, count: nat)
    ensures
        count <= free.len() ==> after_takes(free, count).len() == free.len() - count,
        count >= free.len() ==> after_takes(free, count).len() == 0,
    decreases count,
{
    if count > 0 {
        lemma_takes_drain(after_take(free), (count - 1) as nat);
    }
}

/// The serial number that follows `serial`. The last one is given out again
/// once the numbers have run out.
pub open spec fn next_serial(serial: u64) -> u64 {
    if serial < u64::MAX {
        (serial + 1) as u64
    } else {
        serial
    }
}

/// A bounded set of free regions. `take` never fails: when the set is empty
/// it makes a new region. `release` keeps a region only while there is room.
pub struct BumpPool {
    pool: ArrayQueue<Bump>,
    bump_capacity: usize,
    serial: u64,
}

impl BumpPool {
    /// The free regions, the one that `take` hands out next at index 0.
    pub closed spec fn free(&self) -> Seq<Bump> {
        queued(self.pool)
    }

    /// Most regions the pool keeps.
    pub closed spec fn spec_capacity(&self) -> nat {
        slots(self.pool)
    }

    /// Bytes reserved up front in each region of this pool.
    pub closed spec fn region_capacity(&self) -> nat {
        self.bump_capacity as nat
    }

    /// The serial number that the next region taken will carry.
    pub closed spec fn upcoming_serial(&self) -> u64 {
        self.serial
    }

    /// What holds of every pool: it never keeps more regions than it has room
    /// for, and each region it keeps is pristine.
    pub open spec fn wf(&self) -> bool {
        &&& self.free().len() <= self.spec_capacity()
        &&& 0 < self.spec_capacity() <= max_slots()
        &&& self.region_capacity() <= max_region_capacity()
        &&& forall|i: int|
            0 <= i < self.free().len() ==> pristine(
                #[trigger] self.free()[i],
                self.region_capacity(),
            )
    }

    /// A pool of `pool_capacity` regions, each made with `bump_capacity` bytes,
    /// and all of them free.
    pub fn new(pool_capacity: usize, bump_capacity: usize) -> (pool: Self)
        requires
            0 < pool_capacity <= max_slots(),
            bump_capacity <= max_region_capacity(),
        ensures
            pool.wf(),
            pool.free().len() == pool_capacity,
            pool.spec_capacity() == pool_capacity,
            pool.region_capacity() == bump_capacity,
            pool.upcoming_serial() == 0,
    {
        let mut queue = queue_new(pool_capacity);
        let mut idx: usize = 0;
        while idx < pool_capacity
            invariant
                idx <= pool_capacity,
                bump_capacity <= max_region_capacity(),
                slots(queue) == pool_capacity,
                queued(queue).len() == idx,
                forall|i: int|
                    0 <= i < queued(queue).len() ==> pristine(
                        #[trigger] queued(queue)[i],
                        bump_capacity as nat,
                    ),
            decreases pool_capacity - idx,
        {
            let region = region_with_capacity(bump_capacity);
            let _ = queue_push(&mut queue, region);
            idx = idx + 1;
        }
        BumpPool { pool: queue, bump_capacity, serial: 0 }
    }

    /// Most regions the pool keeps.
    pub fn capacity(&self) -> (cap: usize)
        ensures
            cap == self.spec_capacity(),
    {
        queue_capacity(&self.pool)
    }

    /// How many regions are free.
    pub fn len(&self) -> (len: usize)
        ensures
            len == self.free().len(),
    {
        queue_len(&self.pool)
    }

    /// Whether no region is free.
    pub fn is_empty(&self) -> (empty: bool)
        ensures
            empty == (self.free().len() == 0),
    {
        queue_is_empty(&self.pool)
    }

    /// Bytes reserved up front in each region of this pool.
    pub fn bump_capacity(&self) -> (cap: usize)
        ensures
            cap == self.region_capacity(),
    {
        self.bump_capacity
    }

    /// Hands out a region: the free region that has waited longest, or a new
    /// one when none is free. Either way the region is pristine and carries a
    /// serial number of its own.
    pub fn take(&mut self) -> (taken: RecycleableBump)
        requires
            old(self).wf(),
        ensures
            taken.wf(),
            final(self).wf(),
            final(self).free() == after_take(old(self).free()),
            final(self).spec_capacity() == old(self).spec_capacity(),
            final(self).region_capacity() == old(self).region_capacity(),
            final(self).upcoming_serial() == next_serial(old(self).upcoming_serial()),
            old(self).free().len() > 0 ==> taken.region() == old(self).free()[0],
            pristine(taken.region(), old(self).region_capacity()),
            taken.spec_capacity() == old(self).region_capacity(),
            taken.spec_serial() == old(self).upcoming_serial(),
    {
        let serial = self.serial;
        let bump_capacity = self.bump_capacity;
        let popped = queue_pop(&mut self.pool);
        if serial < u64::MAX {
            self.serial = serial + 1;
        }
        let region = match popped {
            Some(region) => region,
            None => region_with_capacity(bump_capacity),
        };
        RecycleableBump::new(region, serial, bump_capacity)
    }

    /// Takes a region back. The region is reset first. It joins the free
    /// regions, at the back, if it was made with this pool's region capacity
    /// and the pool has room; otherwise it is given up.
    pub fn release(&mut self, region: RecycleableBump)
        requires
            old(self).wf(),
            region.wf(),
        ensures
            final(self).wf(),
            final(self).spec_capacity() == old(self).spec_capacity(),
            final(self).region_capacity() == old(self).region_capacity(),
            final(self).upcoming_serial() == old(self).upcoming_serial(),
            old(self).accepts(region) ==> final(self).free().len() == old(self).free().len() + 1
                && final(self).free().drop_last() == old(self).free(),
            !old(self).accepts(region) ==> final(self).free() == old(self).free(),
    {
        let fits = region.capacity() == self.bump_capacity;
        let mut bump = region.into_bump();
        region_reset(&mut bump);
        if fits {
            let ghost before = queued(self.pool);
            let _ = queue_push(&mut self.pool, bump);
            proof {
                if before.len() < slots(self.pool) {
                    assert(queued(self.pool).drop_last() =~= before);
                }
            }
        }
    }

    /// Whether `release` would keep `region`: it was made with this pool's
    /// region capacity, and a slot is free.
    pub open spec fn accepts(&self, region: RecycleableBump) -> bool {
        &&& region.spec_capacity() == self.region_capacity()
        &&& self.free().len() < self.spec_capacity()
    }
}

} // verus!
