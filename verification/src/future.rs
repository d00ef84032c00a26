//! Suspended computations stored in a region.
use crate::allocator::BumpAlloc;
use crate::obj::BumpObject;
use crate::tag::is_tag_of;
use crate::util::poll_future;
use std::any::TypeId;
use std::future::Future;
use std::marker::PhantomData;
use vstd::prelude::*;

verus! {

/// A suspended computation with output `O` that lives in a region. Its own
/// type is forgotten; what is kept is the object that claims it and the tag
/// it was stored under, against which every resumption is checked.
///
/// It is pending until a resumption yields its output, and completed from
/// then on. A completed one is not resumed again.
pub struct BumpFuture<O> {
    inner: BumpObject,
    fut_tag: TypeId,
    done: bool,
    _p: PhantomData<O>,
}

impl<O> BumpFuture<O> {
    /// The object that claims the computation.
    pub closed spec fn object(&self) -> BumpObject {
        self.inner
    }

    /// The tag under which resumptions look the computation up.
    pub closed spec fn resume_tag(&self) -> TypeId {
        self.fut_tag
    }

    /// Whether the computation has yielded its output.
    pub closed spec fn completed(&self) -> bool {
        self.done
    }

    /// What holds of every stored computation: resumptions look it up under
    /// the tag it was stored under.
    pub open spec fn wf(&self) -> bool {
        self.resume_tag() == self.object().inner().tag()
    }

    /// Whether the computation can be resumed: it has not completed, and its
    /// object still claims it.
    pub open spec fn pending(&self) -> bool {
        !self.completed() && self.object().inner().addr() is Some
    }

    /// A pending computation out of the object that claims it.
    pub fn new(inner: BumpObject) -> (fut: Self)
        ensures
            fut.wf(),
            fut.object() == inner,
            !fut.completed(),
    {
        let fut_tag = inner.type_tag();
        Self { inner, fut_tag, done: false, _p: PhantomData }
    }

    /// The object that claims the computation.
    pub fn as_ref(&self) -> (obj: &BumpObject)
        ensures
            *obj == self.object(),
    {
        &self.inner
    }

    /// The object that claims the computation, for changing it.
    pub fn as_mut(&mut self) -> (obj: &mut BumpObject)
        ensures
            *obj == old(self).object(),
            final(self).object() == *final(obj),
            final(self).resume_tag() == old(self).resume_tag(),
            final(self).completed() == old(self).completed(),
    {
        &mut self.inner
    }

    /// Whether the computation has yielded its output.
    pub fn is_completed(&self) -> (done: bool)
        ensures
            done == self.completed(),
    {
        self.done
    }

    /// Resumes the computation once. `poll_fn` is given the address of the
    /// computation and says what came of it: `Some` with the output, or
    /// `None` while it is still suspended. The answer is passed on, and an
    /// output completes the computation.
    pub fn poll<P>(&mut self, poll_fn: P) -> (out: Option<O>) where P: FnOnce(usize) -> Option<O>
        requires
            old(self).wf(),
            old(self).pending(),
            old(self).object().inner().addr() matches Some(a) && call_requires(poll_fn, (a,)),
        ensures
            final(self).wf(),
            final(self).object() == old(self).object(),
            final(self).completed() == out.is_some(),
            old(self).object().inner().addr() matches Some(a) && call_ensures(poll_fn, (a,), out),
    {
        let out = poll_future(&mut self.inner, &self.fut_tag, poll_fn);
        self.done = out.is_some();
        out
    }

    /// Gives up the computation and hands back the object that claims it.
    pub fn into_object(self) -> (obj: BumpObject)
        ensures
            obj == self.object(),
    {
        self.inner
    }
}

/// Moves a future into a region.
pub trait BumpFutureExt<O>: Sized {
    /// Stores `self` through `alloc` and hands back the pending computation.
    fn bumped<T>(self, alloc: &mut T) -> (fut: BumpFuture<O>) where T: BumpAlloc
        requires
            old(alloc).ready(),
        ensures
            fut.wf(),
            fut.pending(),
            final(alloc).in_use() == old(alloc).in_use() + 1,
    ;
}

impl<F, O> BumpFutureExt<O> for F where F: Future<Output = O> + Send + 'static {
    fn bumped<T>(self, alloc: &mut T) -> (fut: BumpFuture<O>) where T: BumpAlloc
        ensures
            is_tag_of::<F>(fut.resume_tag()),
    {
        let obj = alloc.allocate(self);
        BumpFuture::new(obj)
    }
}

} // verus!
