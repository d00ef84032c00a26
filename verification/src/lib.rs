//! A task-scoped bump allocator for asynchronous work.
//!
//! A [`bump::pool::BumpPool`] keeps a bounded number of pre-sized memory
//! regions. A unit of work takes one, wraps it in an
//! [`allocator::TokioBumpAlloc`] and stores its values, and its futures, in
//! it. Every stored value is known by an [`obj::BumpObject`]: the address of
//! its block, the tag of its type, and a guard of the region's
//! [`bump::BumpRefMgr`]. When the work is over the allocator is retired into
//! an [`allocator::Cleanup`], which holds the region until the last object
//! has come back, and only then resets it and returns it to the pool.
//!
//! Nothing here touches the stored values themselves. The library hands out
//! the address of a value only to one who names its type, says when a value
//! is to be destroyed, and says when a region may be reused. Reading,
//! polling and destroying what lives at an address is left to the caller.
//!
//! An object goes back in two steps: [`obj::BumpObject::dispose`] gives up
//! the claim on the value and tells where it is to be destroyed, and
//! `release`, on the allocator or on its cleanup, takes the guard back.
//!
//! The modules [`arena`], [`queue`] and [`tag`] hold what is taken on trust
//! from `bumpalo`, `crossbeam_queue` and the standard library.
pub mod allocator;
pub mod arena;
pub mod bump;
pub mod future;
pub mod obj;
pub mod queue;
pub mod scope;
pub mod tag;
pub mod util;
