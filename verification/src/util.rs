//! Helpers shared by the rest of the crate.
use crate::obj::BumpObject;
use std::any::TypeId;
use vstd::prelude::*;

verus! {

/// The address of the value in `obj`, for changing the value, for one who
/// holds the object alone and knows the tag the value was stored under.
pub fn stored_addr(obj: &mut BumpObject, tag: &TypeId) -> (addr: usize)
    requires
        old(obj).inner().tag() == *tag,
        old(obj).inner().addr() is Some,
    ensures
        *final(obj) == *old(obj),
        Some(addr) == old(obj).inner().addr(),
{
    match obj.addr_if(tag) {
        Some(addr) => addr,
        None => vstd::pervasive::unreached(),
    }
}

/// Resumes the computation stored in `obj` once: finds its address, checked
/// against the tag it was stored under, and hands it to `poll_fn`, whose
/// answer is passed on. `Some` is a finished computation's output, `None` one
/// that is still suspended.
pub fn poll_future<O, P>(obj: &mut BumpObject, tag: &TypeId, poll_fn: P) -> (out: Option<O>) where
    P: FnOnce(usize) -> Option<O>,

    requires
        old(obj).inner().tag() == *tag,
        old(obj).inner().addr() matches Some(a) && call_requires(poll_fn, (a,)),
    ensures
        *final(obj) == *old(obj),
        old(obj).inner().addr() matches Some(a) && call_ensures(poll_fn, (a,), out),
{
    let addr = stored_addr(obj, tag);
    poll_fn(addr)
}

/// Compiles only for a `T` that is `Unpin`.
pub fn check_unpin_ref<T>(_fut: &T) where T: Unpin {
}

/// Compiles only for a `T` that is `Unpin`.
pub fn check_unpin<T>() where T: Unpin {
}

/// Compiles only for a `T` that is `Send`.
pub fn check_send<T>() where T: Send {
}

/// Compiles only for a `T` that is `Send` and `Sync`.
pub fn check_sync<T>() where T: Send + Sync {
}

} // verus!
