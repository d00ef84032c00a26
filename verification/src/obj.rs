//! Values stored in a region with their static type forgotten.
use crate::arena::{carved, capacity_hint, region_place};
use crate::bump::BumpRef;
use crate::tag::{is_tag_of, same_tag, tag_of};
use bumpalo::Bump;
use std::any::TypeId;
use vstd::prelude::*;

verus! {

/// What a checked access gives: the address, if the tag asked for is the tag
/// stored.
pub open spec fn checked_addr(addr: Option<usize>, stored: TypeId, asked: TypeId) -> Option<usize> {
    if stored == asked {
        addr
    } else {
        None
    }
}

/// A checked access gives the address to one who asks under the tag the value
/// was stored under, and nothing to one who asks under any other tag.
pub proof fn lemma_checked_access(addr: Option<usize>, stored: TypeId, asked: TypeId)
    ensures
        asked == stored ==> checked_addr(addr, stored, asked) == addr,
        asked != stored ==> checked_addr(addr, stored, asked) is None,
{
}

/// A value of some type that lives in a region, known by the address of its
/// block and by the tag of its type. The address is handed out only by the
/// checked accessors, and only to one who names the right type.
///
/// The value stays valid only while the region it was stored in has not been
/// reset or given up.
pub struct UnsafeObject {
    addr: Option<usize>,
    type_id: TypeId,
}

impl UnsafeObject {
    /// The address of the value, while the object still claims it.
    pub closed spec fn addr(&self) -> Option<usize> {
        self.addr
    }

    /// The tag of the type the value was stored as.
    pub closed spec fn tag(&self) -> TypeId {
        self.type_id
    }

    /// What holds of every object: the address it claims is not null.
    pub open spec fn wf(&self) -> bool {
        self.addr() matches Some(a) ==> a != 0
    }

    /// Stores `inner` in `bump` under the tag `tag` and claims its address.
    ///
    /// The tag must be that of `T`: it is what later accesses are checked
    /// against.
    pub fn with_tag<T>(bump: &mut Bump, inner: T, tag: TypeId) -> (obj: Self) where
        T: Send + 'static,

        ensures
            obj.wf(),
            obj.tag() == tag,
            obj.addr() matches Some(a) && carved(*final(bump)) == carved(*old(bump)).insert(a)
                && (vstd::layout::size_of::<T>() > 0 ==> !carved(*old(bump)).contains(a)),
            capacity_hint(*final(bump)) == capacity_hint(*old(bump)),
    {
        let addr = region_place(bump, inner);
        UnsafeObject { addr: Some(addr), type_id: tag }
    }

    /// Stores `inner` in `bump` and claims its address, under the tag of `T`.
    pub fn new<T>(bump: &mut Bump, inner: T) -> (obj: Self) where T: Send + 'static
        ensures
            obj.wf(),
            is_tag_of::<T>(obj.tag()),
            obj.addr() matches Some(a) && carved(*final(bump)) == carved(*old(bump)).insert(a)
                && (vstd::layout::size_of::<T>() > 0 ==> !carved(*old(bump)).contains(a)),
            capacity_hint(*final(bump)) == capacity_hint(*old(bump)),
    {
        let tag = tag_of::<T>();
        Self::with_tag(bump, inner, tag)
    }

    /// Whether the value was stored under exactly the tag `tag`.
    pub fn has_tag(&self, tag: &TypeId) -> (same: bool)
        ensures
            same == (self.tag() == *tag),
    {
        same_tag(&self.type_id, tag)
    }

    /// The address of the value, if it was stored under the tag `tag` and is
    /// still claimed.
    pub fn addr_if(&self, tag: &TypeId) -> (addr: Option<usize>)
        ensures
            addr == checked_addr(self.addr(), self.tag(), *tag),
    {
        if same_tag(&self.type_id, tag) {
            self.addr
        } else {
            None
        }
    }

    /// Whether the value is of type `T`: whether the stored tag is the tag
    /// that the standard library gives for `T`.
    pub fn is<T>(&self) -> (yes: bool) where T: 'static
        ensures
            exists|tag: TypeId| #[trigger] is_tag_of::<T>(tag) && yes == (self.tag() == tag),
    {
        let tag = tag_of::<T>();
        self.has_tag(&tag)
    }

    /// The address of the value for reading, if the value is of type `T`, and
    /// nothing if it is of another type.
    pub fn downcast_ref<T>(&self) -> (addr: Option<usize>) where T: 'static
        ensures
            exists|tag: TypeId| #[trigger]
                is_tag_of::<T>(tag) && addr == checked_addr(self.addr(), self.tag(), tag),
    {
        let tag = tag_of::<T>();
        self.addr_if(&tag)
    }

    /// The address of the value for writing, if the value is of type `T`, and
    /// nothing if it is of another type.
    pub fn downcast_mut<T>(&mut self) -> (addr: Option<usize>) where T: 'static
        ensures
            *final(self) == *old(self),
            exists|tag: TypeId| #[trigger]
                is_tag_of::<T>(tag) && addr == checked_addr(old(self).addr(), old(self).tag(), tag),
    {
        let tag = tag_of::<T>();
        self.addr_if(&tag)
    }

    /// The tag of the type the value was stored as.
    pub fn type_tag(&self) -> (tag: TypeId)
        ensures
            tag == self.tag(),
    {
        self.type_id
    }

    /// Whether the object still claims its value.
    pub fn is_claimed(&self) -> (claimed: bool)
        ensures
            claimed == self.addr().is_some(),
    {
        self.addr.is_some()
    }

    /// Gives up the claim on the value. The first call hands out the address
    /// at which the value is to be destroyed; from then on the object claims
    /// nothing and every call gives `None`.
    pub fn dispose(&mut self) -> (addr: Option<usize>)
        ensures
            addr == old(self).addr(),
            final(self).addr() is None,
            final(self).tag() == old(self).tag(),
    {
        let addr = self.addr;
        self.addr = None;
        addr
    }
}

/// An object stored in a region, together with the guard that keeps the
/// region from being recycled while the object lives. Both must belong to
/// the same region; the allocator that makes the pair sees to that.
pub struct BumpObject {
    inner: UnsafeObject,
    _bump_ref: BumpRef,
}

impl BumpObject {
    /// The stored value's handle.
    pub closed spec fn inner(&self) -> UnsafeObject {
        self.inner
    }

    /// The guard held for the region.
    pub closed spec fn guard(&self) -> BumpRef {
        self._bump_ref
    }

    /// Pairs a stored value with a guard for its region.
    pub fn new(inner: UnsafeObject, bump_ref: BumpRef) -> (obj: Self)
        ensures
            obj.inner() == inner,
            obj.guard() == bump_ref,
    {
        Self { inner, _bump_ref: bump_ref }
    }

    /// Whether the value was stored under exactly the tag `tag`.
    pub fn has_tag(&self, tag: &TypeId) -> (same: bool)
        ensures
            same == (self.inner().tag() == *tag),
    {
        self.inner.has_tag(tag)
    }

    /// The address of the value, if it was stored under the tag `tag` and is
    /// still claimed.
    pub fn addr_if(&self, tag: &TypeId) -> (addr: Option<usize>)
        ensures
            addr == checked_addr(self.inner().addr(), self.inner().tag(), *tag),
    {
        self.inner.addr_if(tag)
    }

    /// The serial number of the tracker whose guard the object holds.
    pub fn serial(&self) -> (serial: u64)
        ensures
            serial == self.guard().spec_serial(),
    {
        self._bump_ref.serial()
    }

    /// The tag of the type the value was stored as.
    pub fn type_tag(&self) -> (tag: TypeId)
        ensures
            tag == self.inner().tag(),
    {
        self.inner.type_tag()
    }

    /// Whether the object still claims its value.
    pub fn is_claimed(&self) -> (claimed: bool)
        ensures
            claimed == self.inner().addr().is_some(),
    {
        self.inner.is_claimed()
    }

    /// Gives up the claim on the value, keeping the guard. The first call
    /// hands out the address at which the value is to be destroyed; every
    /// later call gives `None`.
    pub fn dispose(&mut self) -> (addr: Option<usize>)
        ensures
            addr == old(self).inner().addr(),
            final(self).inner().addr() is None,
            final(self).inner().tag() == old(self).inner().tag(),
            final(self).guard() == old(self).guard(),
    {
        self.inner.dispose()
    }

    /// Takes the pair apart.
    pub fn into_parts(self) -> (parts: (UnsafeObject, BumpRef))
        ensures
            parts.0 == self.inner(),
            parts.1 == self.guard(),
    {
        (self.inner, self._bump_ref)
    }
}

/// Checked access to a stored value by its type, in the manner of
/// `std::any::Any`.
pub trait BumpAny {
    /// The tag of the type the value was stored as.
    spec fn stored_tag(&self) -> TypeId;

    /// The address of the value, while it is still claimed.
    spec fn stored_addr(&self) -> Option<usize>;

    /// Whether the value is of type `T`: whether the stored tag is the tag
    /// that the standard library gives for `T`.
    fn is<T>(&self) -> (yes: bool) where T: 'static
        ensures
            exists|tag: TypeId| #[trigger] is_tag_of::<T>(tag) && yes == (self.stored_tag() == tag),
    ;

    /// The address of the value for reading, if the value is of type `T`, and
    /// nothing if it is of another type.
    fn downcast_ref<T>(&self) -> (addr: Option<usize>) where T: 'static
        ensures
            exists|tag: TypeId| #[trigger]
                is_tag_of::<T>(tag) && addr == checked_addr(
                    self.stored_addr(),
                    self.stored_tag(),
                    tag,
                ),
    ;

    /// The address of the value for writing, if the value is of type `T`, and
    /// nothing if it is of another type.
    fn downcast_mut<T>(&mut self) -> (addr: Option<usize>) where T: 'static
        ensures
            final(self).stored_tag() == old(self).stored_tag(),
            final(self).stored_addr() == old(self).stored_addr(),
            exists|tag: TypeId| #[trigger]
                is_tag_of::<T>(tag) && addr == checked_addr(
                    old(self).stored_addr(),
                    old(self).stored_tag(),
                    tag,
                ),
    ;
}

impl BumpAny for BumpObject {
    open spec fn stored_tag(&self) -> TypeId {
        self.inner().tag()
    }

    open spec fn stored_addr(&self) -> Option<usize> {
        self.inner().addr()
    }

    fn is<T>(&self) -> (yes: bool) where T: 'static {
        self.inner.is::<T>()
    }

    fn downcast_ref<T>(&self) -> (addr: Option<usize>) where T: 'static {
        self.inner.downcast_ref::<T>()
    }

    fn downcast_mut<T>(&mut self) -> (addr: Option<usize>) where T: 'static {
        self.inner.downcast_mut::<T>()
    }
}

} // verus!
