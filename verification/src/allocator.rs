//! The allocator of one unit of work: a region, and the tracker that counts
//! what lives in it.
use crate::arena::carved;
use crate::bump::pool::BumpPool;
use crate::bump::{BumpRef, BumpRefMgr, RecycleableBump};
use crate::obj::{BumpObject, UnsafeObject};
use crate::tag::is_tag_of;
use vstd::prelude::*;

verus! {

/// Something that stores values in a region and hands back objects for them.
pub trait BumpAlloc {
    /// Whether one more value can be stored.
    spec fn ready(&self) -> bool;

    /// The number of objects handed out and not yet given back.
    spec fn in_use(&self) -> nat;

    /// Stores `val` and hands back the object that claims it. One more guard
    /// is out from then on.
    fn allocate<T>(&mut self, val: T) -> (obj: BumpObject) where T: Send + 'static
        requires
            old(self).ready(),
        ensures
            obj.inner().wf(),
            obj.inner().addr() is Some,
            is_tag_of::<T>(obj.inner().tag()),
            final(self).in_use() == old(self).in_use() + 1,
    ;
}

/// Stores the values of one unit of work in one region. Every object it hands
/// out holds a guard of its tracker. When the work is over the allocator is
/// retired: its region waits, in a [`Cleanup`], for the last object to go
/// before it is reset and given back to the pool.
pub struct TokioBumpAlloc {
    bump: RecycleableBump,
    ref_mgr: BumpRefMgr,
}

/// Whether a region and a tracker belong together.
pub open spec fn paired(bump: RecycleableBump, ref_mgr: BumpRefMgr) -> bool {
    bump.wf() && ref_mgr.spec_serial() == bump.spec_serial()
}

/// Whether `obj` can be given back to `ref_mgr`: its value has been disposed
/// of, and its guard is one that the tracker has outstanding.
pub open spec fn returnable(ref_mgr: BumpRefMgr, obj: BumpObject) -> bool {
    obj.inner().addr() is None && ref_mgr.owns(obj.guard())
}

/// The number of objects still out once `returned` of the `issued` objects
/// have come back.
pub open spec fn still_out(issued: nat, returned: nat) -> nat {
    if returned <= issued {
        (issued - returned) as nat
    } else {
        0
    }
}

/// The number of free regions after a cleanup has been tried against a pool
/// that had `free` of them: one more if no object was out and the pool keeps
/// the region, and as many as before otherwise.
pub open spec fn free_after_finish(pending: nat, free: nat, keeps: bool) -> nat {
    if pending == 0 && keeps {
        free + 1
    } else {
        free
    }
}

/// The region of a retired allocator waits for its objects. Each object that
/// comes back leaves one fewer out. While fewer than the `issued` objects have
/// come back, trying the cleanup leaves the number of free regions as it is.
/// Once all have come back, it grows by exactly one if the pool keeps the
/// region, which takes a free slot, and so never grows beyond the pool's
/// capacity.
pub proof fn lemma_region_waits_for_objects(
    issued: nat,
    returned: nat,
    free: nat,
    capacity: nat,
    fits: bool,
)
    requires
        returned <= issued,
        free <= capacity,
    ensures
        still_out(still_out(issued, returned), 1) == still_out(issued, returned + 1),
        returned < issued ==> still_out(issued, returned) > 0 && free_after_finish(
            still_out(issued, returned),
            free,
            fits && free < capacity,
        ) == free,
        returned == issued ==> still_out(issued, returned) == 0 && free_after_finish(
            still_out(issued, returned),
            free,
            fits && free < capacity,
        ) == if fits && free < capacity {
            free + 1
        } else {
            free
        },
        free_after_finish(still_out(issued, returned), free, fits && free < capacity) <= capacity,
{
}

/// An object made in one region is not taken back by the tracker of another.
pub proof fn lemma_foreign_object_refused(ref_mgr: BumpRefMgr, obj: BumpObject)
    requires
        obj.guard().spec_serial() != ref_mgr.spec_serial(),
    ensures
        !returnable(ref_mgr, obj),
{
}

/// Takes `obj` back into `ref_mgr` if it is returnable, and hands it back
/// untouched if not.
fn give_back(ref_mgr: &mut BumpRefMgr, obj: BumpObject) -> (res: Result<(), BumpObject>)
    ensures
        final(ref_mgr).spec_serial() == old(ref_mgr).spec_serial(),
        final(ref_mgr).holds_own() == old(ref_mgr).holds_own(),
        returnable(*old(ref_mgr), obj) ==> res is Ok
            && final(ref_mgr).live() == still_out(old(ref_mgr).live(), 1),
        !returnable(*old(ref_mgr), obj) ==> res is Err && res->Err_0 == obj
            && final(ref_mgr).live() == old(ref_mgr).live(),
{
    if obj.is_claimed() || obj.serial() != ref_mgr.serial() || ref_mgr.ref_count() == 0 {
        return Err(obj);
    }
    let (inner, guard) = obj.into_parts();
    match ref_mgr.release(guard) {
        Ok(()) => Ok(()),
        Err(guard) => Err(BumpObject::new(inner, guard)),
    }
}

impl TokioBumpAlloc {
    /// The region the values go into.
    pub closed spec fn checkout(&self) -> RecycleableBump {
        self.bump
    }

    /// The tracker whose guards the objects hold.
    pub closed spec fn tracker(&self) -> BumpRefMgr {
        self.ref_mgr
    }

    /// What holds of every allocator: region and tracker belong together, and
    /// the tracker still keeps its own guard.
    pub open spec fn wf(&self) -> bool {
        paired(self.checkout(), self.tracker()) && self.tracker().holds_own()
    }

    /// An allocator over `bump`, with a fresh tracker under the region's
    /// serial number.
    pub fn new(bump: RecycleableBump) -> (made: Self)
        requires
            bump.wf(),
        ensures
            made.wf(),
            made.checkout() == bump,
            made.tracker().live() == 0,
    {
        let ref_mgr = BumpRefMgr::with_serial(bump.serial());
        Self { bump, ref_mgr }
    }

    /// The region the values go into.
    fn bump(&self) -> (bump: &RecycleableBump)
        ensures
            *bump == self.checkout(),
    {
        &self.bump
    }

    /// Issues one more guard.
    fn new_bump_ref(&mut self) -> (guard: BumpRef)
        requires
            old(self).tracker().live() < usize::MAX,
        ensures
            guard.spec_serial() == old(self).tracker().spec_serial(),
            final(self).checkout() == old(self).checkout(),
            final(self).tracker().live() == old(self).tracker().live() + 1,
            final(self).tracker().spec_serial() == old(self).tracker().spec_serial(),
            final(self).tracker().holds_own() == old(self).tracker().holds_own(),
    {
        self.ref_mgr.new_ref()
    }

    /// How many objects are handed out and not yet given back.
    pub fn ref_count(&self) -> (count: usize)
        ensures
            count == self.tracker().live(),
    {
        self.ref_mgr.ref_count()
    }

    /// The serial number of the region, which every object made here carries.
    pub fn serial(&self) -> (serial: u64)
        ensures
            serial == self.checkout().spec_serial(),
    {
        self.bump().serial()
    }

    /// Takes an object back whose value has been disposed of. An object that
    /// still claims its value, or that was not made here, is handed back
    /// untouched.
    pub fn release(&mut self, obj: BumpObject) -> (res: Result<(), BumpObject>)
        requires
            old(self).wf(),
        ensures
            final(self).wf(),
            final(self).checkout() == old(self).checkout(),
            returnable(old(self).tracker(), obj) ==> res is Ok
                && final(self).tracker().live() == still_out(old(self).tracker().live(), 1),
            !returnable(old(self).tracker(), obj) ==> res is Err && res->Err_0 == obj
                && final(self).tracker().live() == old(self).tracker().live(),
    {
        give_back(&mut self.ref_mgr, obj)
    }

    /// Ends the allocator's life. Nothing more can be stored; region and
    /// tracker pass to the cleanup that waits for the objects still out.
    pub fn retire(self) -> (cleanup: Cleanup)
        requires
            self.wf(),
        ensures
            cleanup.wf(),
            cleanup.checkout() == self.checkout(),
            cleanup.pending() == self.tracker().live(),
            cleanup.tracker().spec_serial() == self.tracker().spec_serial(),
    {
        Cleanup { bump: self.bump, ref_mgr: self.ref_mgr }
    }
}

impl BumpAlloc for TokioBumpAlloc {
    open spec fn ready(&self) -> bool {
        self.wf() && self.tracker().live() < usize::MAX
    }

    open spec fn in_use(&self) -> nat {
        self.tracker().live()
    }

    fn allocate<T>(&mut self, val: T) -> (obj: BumpObject) where T: Send + 'static
        ensures
            final(self).wf(),
            final(self).checkout().spec_serial() == old(self).checkout().spec_serial(),
            final(self).checkout().spec_capacity() == old(self).checkout().spec_capacity(),
            obj.guard().spec_serial() == old(self).checkout().spec_serial(),
            obj.inner().addr() matches Some(a) && carved(final(self).checkout().region())
                == carved(old(self).checkout().region()).insert(a) && (vstd::layout::size_of::<
                T,
            >() > 0 ==> !carved(old(self).checkout().region()).contains(a)),
    {
        let inner = self.bump.store(val);
        let bump_ref = self.new_bump_ref();
        BumpObject::new(inner, bump_ref)
    }
}

/// The job that outlives a retired allocator: it holds the region until the
/// last object made in it has been given back, and only then resets it and
/// returns it to the pool.
pub struct Cleanup {
    bump: RecycleableBump,
    ref_mgr: BumpRefMgr,
}

impl Cleanup {
    /// The region that waits to be recycled.
    pub closed spec fn checkout(&self) -> RecycleableBump {
        self.bump
    }

    /// The tracker whose guards the objects hold.
    pub closed spec fn tracker(&self) -> BumpRefMgr {
        self.ref_mgr
    }

    /// The number of objects still out.
    pub open spec fn pending(&self) -> nat {
        self.tracker().live()
    }

    /// What holds of every cleanup: region and tracker belong together.
    pub open spec fn wf(&self) -> bool {
        paired(self.checkout(), self.tracker())
    }

    /// How many objects are still out.
    pub fn ref_count(&self) -> (count: usize)
        ensures
            count == self.pending(),
    {
        self.ref_mgr.ref_count()
    }

    /// Takes an object back whose value has been disposed of. An object that
    /// still claims its value, or that was not made in this region, is handed
    /// back untouched.
    pub fn release(&mut self, obj: BumpObject) -> (res: Result<(), BumpObject>)
        requires
            old(self).wf(),
        ensures
            final(self).wf(),
            final(self).checkout() == old(self).checkout(),
            returnable(old(self).tracker(), obj) ==> res is Ok
                && final(self).pending() == still_out(old(self).pending(), 1),
            !returnable(old(self).tracker(), obj) ==> res is Err && res->Err_0 == obj
                && final(self).pending() == old(self).pending(),
    {
        give_back(&mut self.ref_mgr, obj)
    }

    /// One step of the wait. While an object is still out, nothing happens to
    /// the pool and the cleanup comes back to be tried again. Once none is
    /// out, the region is reset and offered to the pool, if there is one.
    pub fn finish(self, pool: Option<&mut BumpPool>) -> (res: Result<(), Cleanup>)
        requires
            self.wf(),
            pool matches Some(p) ==> p.wf(),
        ensures
            self.pending() > 0 ==> {
                &&& res is Err
                &&& res->Err_0.checkout() == self.checkout()
                &&& res->Err_0.pending() == self.pending()
                &&& res->Err_0.tracker().spec_serial() == self.tracker().spec_serial()
                &&& res->Err_0.wf()
                &&& pool matches Some(p) ==> *final(p) == *p
            },
            pool matches Some(p) ==> final(p).free().len() == free_after_finish(
                self.pending(),
                p.free().len(),
                p.accepts(self.checkout()),
            ),
            self.pending() == 0 ==> {
                &&& res is Ok
                &&& pool matches Some(p) ==> {
                    &&& final(p).wf()
                    &&& final(p).spec_capacity() == p.spec_capacity()
                    &&& final(p).region_capacity() == p.region_capacity()
                    &&& final(p).upcoming_serial() == p.upcoming_serial()
                    &&& p.accepts(self.checkout()) ==> final(p).free().len() == p.free().len() + 1
                        && final(p).free().drop_last() == p.free()
                    &&& !p.accepts(self.checkout()) ==> final(p).free() == p.free()
                }
            },
    {
        let Cleanup { bump, ref_mgr } = self;
        match ref_mgr.wait_no_ref() {
            Ok(()) => {
                bump.recycle(pool);
                Ok(())
            },
            Err(ref_mgr) => Err(Cleanup { bump, ref_mgr }),
        }
    }
}

} // verus!
