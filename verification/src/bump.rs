//! A region checked out of the pool, and the guards that count its users.
use crate::arena::{capacity_hint, carved, region_reset};
use crate::bump::pool::BumpPool;
use crate::obj::UnsafeObject;
use crate::tag::is_tag_of;
use bumpalo::Bump;
use vstd::prelude::*;

pub mod pool;

verus! {

/// Counts the users of one region. Every object stored in the region holds a
/// guard issued here, and the tracker keeps one guard of its own until it is
/// asked to wait. The region may be reset only once no guard is left.
pub struct BumpRefMgr {
    serial: u64,
    live: usize,
    own: bool,
}

/// One use of a region. While a guard issued by a tracker has not been given
/// back to it, the tracker's region is in use.
pub struct BumpRef {
    serial: u64,
}

impl BumpRef {
    /// The serial number of the tracker that issued the guard.
    pub closed spec fn spec_serial(&self) -> u64 {
        self.serial
    }

    /// The serial number of the tracker that issued the guard.
    pub fn serial(&self) -> (serial: u64)
        ensures
            serial == self.spec_serial(),
    {
        self.serial
    }
}

impl BumpRefMgr {
    /// The serial number that tells this tracker's guards from those of others.
    pub closed spec fn spec_serial(&self) -> u64 {
        self.serial
    }

    /// The number of guards issued and not yet given back.
    pub closed spec fn live(&self) -> nat {
        self.live as nat
    }

    /// Whether the tracker still keeps its own guard.
    pub closed spec fn holds_own(&self) -> bool {
        self.own
    }

    /// Whether no guard is left: neither an issued one nor the tracker's own.
    pub open spec fn idle(&self) -> bool {
        !self.holds_own() && self.live() == 0
    }

    /// Whether `guard` can be given back here: this tracker issued it, and it
    /// has a guard outstanding.
    pub open spec fn owns(&self, guard: BumpRef) -> bool {
        guard.spec_serial() == self.spec_serial() && self.live() > 0
    }

    /// A tracker with serial number 0, which keeps its own guard and has
    /// issued none.
    pub fn new() -> (mgr: Self)
        ensures
            mgr.spec_serial() == 0,
            mgr.live() == 0,
            mgr.holds_own(),
    {
        BumpRefMgr { serial: 0, live: 0, own: true }
    }

    /// A tracker with the given serial number, which keeps its own guard and
    /// has issued none.
    pub fn with_serial(serial: u64) -> (mgr: Self)
        ensures
            mgr.spec_serial() == serial,
            mgr.live() == 0,
            mgr.holds_own(),
    {
        BumpRefMgr { serial, live: 0, own: true }
    }

    /// Issues one more guard.
    pub fn new_ref(&mut self) -> (guard: BumpRef)
        requires
            old(self).live() < usize::MAX,
        ensures
            guard.spec_serial() == old(self).spec_serial(),
            final(self).live() == old(self).live() + 1,
            final(self).spec_serial() == old(self).spec_serial(),
            final(self).holds_own() == old(self).holds_own(),
    {
        self.live = self.live + 1;
        BumpRef { serial: self.serial }
    }

    /// Takes a guard back. A guard that this tracker did not issue, or one
    /// that comes when none is outstanding, is handed back untouched.
    pub fn release(&mut self, guard: BumpRef) -> (res: Result<(), BumpRef>)
        ensures
            final(self).spec_serial() == old(self).spec_serial(),
            final(self).holds_own() == old(self).holds_own(),
            old(self).owns(guard) ==> res is Ok && final(self).live() == old(self).live() - 1,
            !old(self).owns(guard) ==> res is Err && res->Err_0 == guard && final(self).live()
                == old(self).live(),
    {
        if guard.serial == self.serial && self.live > 0 {
            self.live = self.live - 1;
            Ok(())
        } else {
            Err(guard)
        }
    }

    /// The serial number that tells this tracker's guards from those of others.
    pub fn serial(&self) -> (serial: u64)
        ensures
            serial == self.spec_serial(),
    {
        self.serial
    }

    /// How many guards are issued and not yet given back.
    pub fn ref_count(&self) -> (count: usize)
        ensures
            count == self.live(),
    {
        self.live
    }

    /// Whether no guard is left.
    pub fn no_ref(&self) -> (idle: bool)
        ensures
            idle == self.idle(),
    {
        !self.own && self.live == 0
    }

    /// One step of waiting for the last guard. The tracker gives up its own
    /// guard. If no issued guard is outstanding the wait is over; otherwise
    /// the tracker comes back, still waiting, unchanged but for its own guard.
    pub fn wait_no_ref(self) -> (res: Result<(), BumpRefMgr>)
        ensures
            self.live() == 0 ==> res is Ok,
            self.live() > 0 ==> res is Err && res->Err_0.live() == self.live()
                && res->Err_0.spec_serial() == self.spec_serial() && !res->Err_0.holds_own(),
    {
        if self.live == 0 {
            Ok(())
        } else {
            Err(BumpRefMgr { serial: self.serial, live: self.live, own: false })
        }
    }
}

impl Default for BumpRefMgr {
    fn default() -> (mgr: Self)
        ensures
            mgr.spec_serial() == 0,
            mgr.live() == 0,
            mgr.holds_own(),
    {
        BumpRefMgr::new()
    }
}

/// A region checked out of a pool, with the serial number it was taken under.
/// Giving it back resets it.
pub struct RecycleableBump {
    bump: Bump,
    serial: u64,
    capacity: usize,
}

impl std::ops::Deref for RecycleableBump {
    type Target = Bump;

    fn deref(&self) -> (bump: &Bump)
        ensures
            *bump == self.region(),
    {
        &self.bump
    }
}

impl RecycleableBump {
    /// The region itself.
    pub closed spec fn region(&self) -> Bump {
        self.bump
    }

    /// The serial number the region was taken under.
    pub closed spec fn spec_serial(&self) -> u64 {
        self.serial
    }

    /// The capacity the region was made with.
    pub closed spec fn spec_capacity(&self) -> nat {
        self.capacity as nat
    }

    /// What holds of every checked-out region: it was made with the capacity
    /// it is recorded with.
    pub open spec fn wf(&self) -> bool {
        capacity_hint(self.region()) == self.spec_capacity()
    }

    /// Wraps a region that was made with `capacity` bytes.
    pub(crate) fn new(bump: Bump, serial: u64, capacity: usize) -> (made: Self)
        requires
            capacity_hint(bump) == capacity,
        ensures
            made.wf(),
            made.region() == bump,
            made.spec_serial() == serial,
            made.spec_capacity() == capacity,
    {
        RecycleableBump { bump, serial, capacity }
    }

    /// The serial number the region was taken under.
    pub fn serial(&self) -> (serial: u64)
        ensures
            serial == self.spec_serial(),
    {
        self.serial
    }

    /// The capacity the region was made with.
    pub fn capacity(&self) -> (capacity: usize)
        ensures
            capacity == self.spec_capacity(),
    {
        self.capacity
    }

    /// Stores `inner` in the region and hands back the object that claims it.
    pub fn store<T>(&mut self, inner: T) -> (obj: UnsafeObject) where T: Send + 'static
        requires
            old(self).wf(),
        ensures
            final(self).wf(),
            final(self).spec_serial() == old(self).spec_serial(),
            final(self).spec_capacity() == old(self).spec_capacity(),
            obj.wf(),
            is_tag_of::<T>(obj.tag()),
            obj.addr() matches Some(a) && carved(final(self).region()) == carved(
                old(self).region(),
            ).insert(a) && (vstd::layout::size_of::<T>() > 0 ==> !carved(
                old(self).region(),
            ).contains(a)),
    {
        UnsafeObject::new(&mut self.bump, inner)
    }

    /// Unwraps the region.
    pub(crate) fn into_bump(self) -> (bump: Bump)
        ensures
            bump == self.region(),
    {
        self.bump
    }

    /// Ends the checkout. The region is reset; it goes back to `pool` if there
    /// is one and it has room for it, and is given up otherwise.
    pub fn recycle(self, pool: Option<&mut BumpPool>)
        requires
            self.wf(),
            pool matches Some(p) ==> p.wf(),
        ensures
            pool matches Some(p) ==> {
                &&& final(p).wf()
                &&& final(p).spec_capacity() == p.spec_capacity()
                &&& final(p).region_capacity() == p.region_capacity()
                &&& final(p).upcoming_serial() == p.upcoming_serial()
                &&& p.accepts(self) ==> final(p).free().len() == p.free().len() + 1
                    && final(p).free().drop_last() == p.free()
                &&& !p.accepts(self) ==> final(p).free() == p.free()
            },
    {
        match pool {
            Some(p) => p.release(self),
            None => {
                let mut bump = self.into_bump();
                region_reset(&mut bump);
            },
        }
    }
}

} // verus!
