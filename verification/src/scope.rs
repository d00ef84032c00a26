//! One pool, set up once, and the allocators bound to the computations that
//! currently run, innermost last.
use crate::allocator::{BumpAlloc, Cleanup, TokioBumpAlloc};
use crate::arena::{max_region_capacity, MAX_REGION_CAPACITY};
use crate::bump::pool::{next_serial, pristine, BumpPool, PoolConfig};
use crate::bump::RecycleableBump;
use crate::obj::BumpObject;
use crate::queue::{max_slots, MAX_SLOTS};
use crate::tag::is_tag_of;
use vstd::prelude::*;

verus! {

/// Whether a pool can be made from `config`: it keeps at least one region,
/// and both sizes are within what can be laid out in memory.
pub open spec fn valid_config(config: PoolConfig) -> bool {
    &&& 0 < config.pool_capacity <= max_slots()
    &&& config.bump_capacity <= max_region_capacity()
}

/// Bindings nest without touching one another. Binding an allocator for an
/// inner computation leaves the outer ones in place; whatever is stored under
/// the inner binding changes the inner allocator alone; and when the inner
/// binding ends, the outer ones are what they were. So the objects an outer
/// region waits for are its own, and so are those of the inner one.
pub proof fn lemma_bindings_nest(
    outer: Seq<TokioBumpAlloc>,
    inner: TokioBumpAlloc,
    changed: TokioBumpAlloc,
)
    ensures
        outer.push(inner).drop_last() == outer,
        outer.push(inner).drop_last().push(changed).drop_last() == outer,
        forall|i: int|
            0 <= i < outer.len() ==> (#[trigger] outer.push(inner).drop_last().push(changed)[i])
                == outer[i] && outer.push(inner).drop_last().push(changed)[i].in_use()
                == outer[i].in_use(),
{
    assert(outer.push(inner).drop_last() =~= outer);
    assert(outer.push(changed).drop_last() =~= outer);
}

/// Two regions taken one after the other carry different serial numbers, as
/// long as the numbers have not run out. So an object stored under an inner
/// binding is not taken back by the allocator of the binding around it.
pub proof fn lemma_nested_serials_differ(outer: u64)
    requires
        outer < u64::MAX,
    ensures
        next_serial(outer) != outer,
        next_serial(outer) > outer,
{
}

/// The state that the allocators of running computations share: the pool's
/// configuration, which is set once, the pool itself, which is made when it is
/// first needed, and the stack of allocators bound to the running
/// computations.
pub struct AllocScope {
    config: Option<PoolConfig>,
    pool: Option<BumpPool>,
    bound: Vec<TokioBumpAlloc>,
}

impl AllocScope {
    /// The configuration, once it is set.
    pub closed spec fn config(&self) -> Option<PoolConfig> {
        self.config
    }

    /// The pool, once it is made.
    pub closed spec fn pool_state(&self) -> Option<BumpPool> {
        self.pool
    }

    /// The allocators bound to the running computations, innermost last.
    pub closed spec fn bound(&self) -> Seq<TokioBumpAlloc> {
        self.bound@
    }

    /// What holds of every scope: a pool that exists was made from the
    /// configuration, and every bound allocator is well formed.
    pub open spec fn wf(&self) -> bool {
        &&& forall|i: int| 0 <= i < self.bound().len() ==> (#[trigger] self.bound()[i]).wf()
        &&& self.pool_state() matches Some(p) ==> {
            &&& p.wf()
            &&& self.config() matches Some(c) && p.spec_capacity() == c.pool_capacity
                && p.region_capacity() == c.bump_capacity
        }
    }

    /// Whether the pool can be used: a configuration is set, and a pool can be
    /// made from it.
    pub open spec fn usable(&self) -> bool {
        self.config() matches Some(c) && valid_config(c)
    }

    /// The number of free regions, where a pool not yet made counts as full.
    pub open spec fn free_count(&self) -> nat {
        match self.pool_state() {
            Some(p) => p.free().len(),
            None => match self.config() {
                Some(c) => c.pool_capacity as nat,
                None => 0,
            },
        }
    }

    /// The serial number that the next region taken will carry, where a pool
    /// not yet made starts at 0.
    pub open spec fn upcoming_serial(&self) -> u64 {
        match self.pool_state() {
            Some(p) => p.upcoming_serial(),
            None => 0,
        }
    }

    /// A scope with no configuration, no pool and nothing bound.
    pub fn new() -> (scope: Self)
        ensures
            scope.wf(),
            scope.config() is None,
            scope.pool_state() is None,
            scope.bound().len() == 0,
    {
        Self { config: None, pool: None, bound: Vec::new() }
    }

    /// Sets the configuration, once. A second configuration is handed back
    /// and changes nothing.
    pub fn init(&mut self, config: PoolConfig) -> (res: Result<(), PoolConfig>)
        ensures
            final(self).pool_state() == old(self).pool_state(),
            final(self).bound() == old(self).bound(),
            old(self).config() is None ==> res is Ok && final(self).config() == Some(config),
            old(self).config() is Some ==> res is Err && res->Err_0 == config
                && final(self).config() == old(self).config(),
    {
        if self.config.is_some() {
            Err(config)
        } else {
            self.config = Some(config);
            Ok(())
        }
    }

    /// Makes the pool from the configuration if it does not exist yet.
    fn force_pool(&mut self)
        requires
            old(self).wf(),
            old(self).usable(),
        ensures
            final(self).wf(),
            final(self).pool_state() is Some,
            final(self).config() == old(self).config(),
            final(self).bound() == old(self).bound(),
            final(self).free_count() == old(self).free_count(),
            final(self).upcoming_serial() == old(self).upcoming_serial(),
            old(self).pool_state() is Some ==> final(self).pool_state() == old(self).pool_state(),
    {
        if self.pool.is_none() {
            let (pool_capacity, bump_capacity) = match &self.config {
                Some(c) => (c.pool_capacity, c.bump_capacity),
                None => vstd::pervasive::unreached(),
            };
            self.pool = Some(BumpPool::new(pool_capacity, bump_capacity));
        }
        proof {
            assert(self.bound() == old(self).bound());
        }
    }

    /// The pool, which is made now if this is its first use.
    pub fn pool(&mut self) -> (pool: &BumpPool)
        requires
            old(self).wf(),
            old(self).usable(),
        ensures
            final(self).wf(),
            final(self).pool_state() == Some(*pool),
            final(self).config() == old(self).config(),
            final(self).bound() == old(self).bound(),
            pool.free().len() == old(self).free_count(),
            pool.upcoming_serial() == old(self).upcoming_serial(),
            old(self).pool_state() is Some ==> final(self).pool_state() == old(self).pool_state(),
    {
        self.force_pool();
        match &self.pool {
            Some(p) => p,
            None => vstd::pervasive::unreached(),
        }
    }

    /// Whether the pool can be used.
    pub fn is_usable(&self) -> (usable: bool)
        ensures
            usable == self.usable(),
    {
        match &self.config {
            Some(c) => 0 < c.pool_capacity && c.pool_capacity <= MAX_SLOTS && c.bump_capacity
                <= MAX_REGION_CAPACITY,
            None => false,
        }
    }

    /// Takes a region from the pool, which is made now if this is its first
    /// use, without binding anything.
    pub fn take(&mut self) -> (taken: RecycleableBump)
        requires
            old(self).wf(),
            old(self).usable(),
        ensures
            final(self).wf(),
            final(self).config() == old(self).config(),
            final(self).bound() == old(self).bound(),
            final(self).pool_state() is Some,
            final(self).upcoming_serial() == next_serial(old(self).upcoming_serial()),
            final(self).free_count() == if old(self).free_count() > 0 {
                old(self).free_count() - 1
            } else {
                0
            },
            taken.wf(),
            pristine(taken.region(), old(self).config()->0.bump_capacity as nat),
            taken.spec_capacity() == old(self).config()->0.bump_capacity,
            taken.spec_serial() == old(self).upcoming_serial(),
    {
        self.force_pool();
        let taken = match &mut self.pool {
            Some(p) => p.take(),
            None => vstd::pervasive::unreached(),
        };
        proof {
            assert(self.bound() == old(self).bound());
        }
        taken
    }

    /// How many computations have an allocator bound.
    pub fn depth(&self) -> (depth: usize)
        ensures
            depth == self.bound().len(),
    {
        self.bound.len()
    }

    /// Binds a fresh allocator for a computation that starts inside whatever
    /// is running now. Its region comes from the pool. The allocators already
    /// bound stay as they are.
    pub fn set_bump(&mut self)
        requires
            old(self).wf(),
            old(self).usable(),
        ensures
            final(self).wf(),
            final(self).config() == old(self).config(),
            final(self).bound().len() == old(self).bound().len() + 1,
            final(self).bound().drop_last() == old(self).bound(),
            final(self).bound().last().in_use() == 0,
            final(self).bound().last().checkout().spec_serial() == old(self).upcoming_serial(),
            final(self).bound().last().checkout().spec_capacity()
                == old(self).config()->0.bump_capacity,
            final(self).upcoming_serial() == next_serial(old(self).upcoming_serial()),
            final(self).pool_state() is Some,
            final(self).free_count() == if old(self).free_count() > 0 {
                old(self).free_count() - 1
            } else {
                0
            },
    {
        let ghost bound_before = self.bound@;
        let taken = self.take();
        let alloc = TokioBumpAlloc::new(taken);
        self.bound.push(alloc);
        proof {
            assert(self.bound@.drop_last() =~= bound_before);
        }
    }

    /// Ends the innermost computation's binding. Its allocator is retired, and
    /// the cleanup that now holds its region is handed back. With nothing
    /// bound there is nothing to end.
    pub fn unset_bump(&mut self) -> (cleanup: Option<Cleanup>)
        requires
            old(self).wf(),
        ensures
            final(self).wf(),
            final(self).config() == old(self).config(),
            final(self).pool_state() == old(self).pool_state(),
            old(self).bound().len() == 0 ==> cleanup is None
                && final(self).bound() == old(self).bound(),
            old(self).bound().len() > 0 ==> {
                &&& final(self).bound() == old(self).bound().drop_last()
                &&& cleanup matches Some(c)
                &&& c.wf()
                &&& c.checkout() == old(self).bound().last().checkout()
                &&& c.pending() == old(self).bound().last().in_use()
            },
    {
        match self.bound.pop() {
            Some(alloc) => Some(alloc.retire()),
            None => None,
        }
    }

    /// The allocator bound to the innermost computation, if any is bound.
    /// What is done to it is done to that binding and to no other.
    pub fn with_task(&mut self) -> (task: Option<&mut TokioBumpAlloc>)
        ensures
            final(self).config() == old(self).config(),
            final(self).pool_state() == old(self).pool_state(),
            old(self).bound().len() == 0 ==> task is None
                && final(self).bound() == old(self).bound(),
            old(self).bound().len() > 0 ==> {
                &&& task matches Some(a)
                &&& *a == old(self).bound().last()
                &&& final(self).bound() == old(self).bound().drop_last().push(*final(a))
            },
    {
        let n = self.bound.len();
        if n == 0 {
            None
        } else {
            let ghost before = self.bound@;
            let task = &mut self.bound[n - 1];
            proof {
                assert(before.update(n - 1, *final(task)) =~= before.drop_last().push(
                    *final(task),
                ));
            }
            Some(task)
        }
    }

    /// Stores `val` for the innermost computation. With nothing bound, a
    /// region is taken from the pool for this one value and its allocator is
    /// retired at once: the cleanup that holds the region comes back with the
    /// object.
    pub fn with_task_or_new<T>(&mut self, val: T) -> (res: (BumpObject, Option<Cleanup>)) where
        T: Send + 'static,

        requires
            old(self).wf(),
            old(self).bound().len() > 0 ==> old(self).bound().last().ready(),
            old(self).bound().len() == 0 ==> old(self).usable(),
        ensures
            final(self).wf(),
            final(self).config() == old(self).config(),
            final(self).bound().len() == old(self).bound().len(),
            res.0.inner().wf(),
            res.0.inner().addr() is Some,
            is_tag_of::<T>(res.0.inner().tag()),
            old(self).bound().len() > 0 ==> {
                &&& res.1 is None
                &&& final(self).pool_state() == old(self).pool_state()
                &&& final(self).bound().drop_last() == old(self).bound().drop_last()
                &&& final(self).bound().last().in_use() == old(self).bound().last().in_use() + 1
                &&& final(self).bound().last().checkout().spec_serial()
                    == old(self).bound().last().checkout().spec_serial()
                &&& final(self).bound().last().checkout().spec_capacity()
                    == old(self).bound().last().checkout().spec_capacity()
                &&& res.0.guard().spec_serial() == old(self).bound().last().checkout().spec_serial()
            },
            old(self).bound().len() == 0 ==> {
                &&& res.1 matches Some(c)
                &&& c.wf()
                &&& c.pending() == 1
                &&& c.checkout().spec_serial() == old(self).upcoming_serial()
                &&& c.checkout().spec_capacity() == old(self).config()->0.bump_capacity
                &&& res.0.guard().spec_serial() == old(self).upcoming_serial()
                &&& final(self).upcoming_serial() == next_serial(old(self).upcoming_serial())
                &&& final(self).free_count() == if old(self).free_count() > 0 {
                    old(self).free_count() - 1
                } else {
                    0
                }
            },
    {
        let n = self.bound.len();
        if n > 0 {
            let ghost before = self.bound@;
            let obj = self.bound[n - 1].allocate(val);
            proof {
                assert(self.bound@.drop_last() =~= before.drop_last());
            }
            (obj, None)
        } else {
            let taken = self.take();
            let mut alloc = TokioBumpAlloc::new(taken);
            let obj = alloc.allocate(val);
            (obj, Some(alloc.retire()))
        }
    }

    /// Tries to end a cleanup: see [`Cleanup::finish`]. The region goes to
    /// this scope's pool, if that has been made.
    pub fn finish(&mut self, cleanup: Cleanup) -> (res: Result<(), Cleanup>)
        requires
            old(self).wf(),
            cleanup.wf(),
        ensures
            final(self).wf(),
            final(self).config() == old(self).config(),
            final(self).bound() == old(self).bound(),
            final(self).upcoming_serial() == old(self).upcoming_serial(),
            cleanup.pending() > 0 ==> {
                &&& res matches Err(c)
                &&& c.wf()
                &&& c.checkout() == cleanup.checkout()
                &&& c.pending() == cleanup.pending()
                &&& final(self).pool_state() == old(self).pool_state()
            },
            cleanup.pending() == 0 ==> {
                &&& res is Ok
                &&& final(self).free_count() == if old(self).takes_back(cleanup) {
                    old(self).free_count() + 1
                } else {
                    old(self).free_count()
                }
            },
    {
        let res = match &mut self.pool {
            Some(p) => cleanup.finish(Some(p)),
            None => cleanup.finish(None),
        };
        proof {
            assert(self.bound() == old(self).bound());
        }
        res
    }

    /// Whether the pool of this scope exists and would keep the region of
    /// `cleanup`.
    pub open spec fn takes_back(&self, cleanup: Cleanup) -> bool {
        self.pool_state() matches Some(p) && p.accepts(cleanup.checkout())
    }
}

} // verus!
