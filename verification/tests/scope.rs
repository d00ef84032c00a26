use bump_future::allocator::BumpAlloc;
use bump_future::bump::pool::PoolConfig;
use bump_future::future::BumpFuture;
use bump_future::obj::BumpAny;
use bump_future::scope::AllocScope;

fn scope_of(pool_capacity: usize, bump_capacity: usize) -> AllocScope {
    let mut scope = AllocScope::new();
    assert!(scope.init(PoolConfig { pool_capacity, bump_capacity }).is_ok());
    scope
}

#[test]
fn the_second_configuration_is_rejected() {
    let mut scope = AllocScope::new();
    assert!(scope.init(PoolConfig { pool_capacity: 8, bump_capacity: 1024 }).is_ok());
    let rejected = scope.init(PoolConfig { pool_capacity: 3, bump_capacity: 10 });
    let back = match rejected {
        Ok(()) => panic!("configured twice"),
        Err(c) => c,
    };
    assert_eq!(back.pool_capacity, 3);
    assert_eq!(back.bump_capacity, 10);
    // the first one stands
    assert_eq!(scope.pool().len(), 8);
    assert_eq!(scope.pool().capacity(), 8);
    assert_eq!(scope.pool().bump_capacity(), 1024);
}

#[test]
fn test_bump_future() {
    let mut scope = scope_of(8, 1024);
    //after init ,pool len should be 8
    assert_eq!(scope.pool().len(), 8);
    scope.set_bump();
    // after first use , pool len should be 7
    assert_eq!(scope.pool().len(), 7);
    let obj = match scope.with_task() {
        Some(alloc) => alloc.allocate(std::future::ready(32_u32)),
        None => panic!("an allocator is bound"),
    };
    let mut task: BumpFuture<u32> = BumpFuture::new(obj);
    assert_eq!(task.poll(|_| None), None);
    assert_eq!(scope.pool().len(), 7);
    let rslt = task.poll(|_| Some(32));
    assert_eq!(rslt, Some(32));
    let cleanup = scope.unset_bump().unwrap();
    // the task itself is still alive
    let mut cleanup = match scope.finish(cleanup) {
        Ok(()) => panic!("the task is still out"),
        Err(c) => c,
    };
    assert_eq!(scope.pool().len(), 7);
    let mut obj = task.into_object();
    assert!(obj.dispose().is_some());
    assert!(cleanup.release(obj).is_ok());
    assert!(scope.finish(cleanup).is_ok());
    // wait Bump recycled, pool len should be 8
    assert_eq!(scope.pool().len(), 8);
}

#[test]
fn nested_scopes_have_regions_of_their_own() {
    let mut scope = scope_of(8, 1024);
    scope.set_bump();
    assert_eq!(scope.pool().len(), 7);
    let mut outer_obj = scope.with_task().unwrap().allocate(1_u32);
    // set_bump second times,pool len should be 6
    scope.set_bump();
    assert_eq!(scope.pool().len(), 6);
    assert_eq!(scope.depth(), 2);
    let mut inner_obj = scope.with_task().unwrap().allocate(2_u64);
    let more = scope.with_task().unwrap().allocate(3_u64);
    assert_eq!(outer_obj.serial(), 0);
    assert_eq!(inner_obj.serial(), 1);
    assert_eq!(more.serial(), 1);
    assert_eq!(scope.with_task().unwrap().ref_count(), 2);

    // the inner scope ends; what lives in it keeps its region only
    let mut inner = scope.unset_bump().unwrap();
    assert_eq!(inner.ref_count(), 2);
    assert_eq!(scope.with_task().unwrap().ref_count(), 1);

    // the outer region does not wait for the inner objects
    let mut outer = scope.unset_bump().unwrap();
    assert_eq!(scope.depth(), 0);
    assert!(outer_obj.dispose().is_some());
    // nor does it take them
    assert!(inner_obj.dispose().is_some());
    let inner_obj = match outer.release(inner_obj) {
        Ok(()) => panic!("the object belongs to the inner region"),
        Err(o) => o,
    };
    assert!(outer.release(outer_obj).is_ok());
    assert!(scope.finish(outer).is_ok());
    assert_eq!(scope.pool().len(), 7);

    // and the inner region waits for its own
    assert!(inner.release(inner_obj).is_ok());
    let mut inner = match scope.finish(inner) {
        Ok(()) => panic!("one inner object is out"),
        Err(c) => c,
    };
    assert_eq!(scope.pool().len(), 7);
    let mut more = more;
    assert!(more.dispose().is_some());
    assert!(inner.release(more).is_ok());
    assert!(scope.finish(inner).is_ok());
    assert_eq!(scope.pool().len(), 8);
}

#[test]
fn without_a_binding_there_is_no_task() {
    let mut scope = scope_of(2, 64);
    assert_eq!(scope.depth(), 0);
    assert!(scope.with_task().is_none());
    assert!(scope.unset_bump().is_none());
    assert_eq!(scope.pool().len(), 2);
}

#[test]
fn without_a_binding_a_region_is_taken_for_one_value() {
    let mut scope = scope_of(2, 64);
    let (mut obj, cleanup) = scope.with_task_or_new(5_u8);
    assert!(obj.is::<u8>());
    assert_eq!(scope.depth(), 0);
    assert_eq!(scope.pool().len(), 1);
    let mut cleanup = cleanup.unwrap();
    assert_eq!(cleanup.ref_count(), 1);
    assert!(obj.dispose().is_some());
    assert!(cleanup.release(obj).is_ok());
    assert!(scope.finish(cleanup).is_ok());
    assert_eq!(scope.pool().len(), 2);
}

#[test]
fn with_a_binding_the_value_goes_to_the_bound_region() {
    let mut scope = scope_of(2, 64);
    scope.set_bump();
    let (obj, cleanup) = scope.with_task_or_new(5_u8);
    assert!(cleanup.is_none());
    assert_eq!(obj.serial(), 0);
    assert_eq!(scope.pool().len(), 1);
    assert_eq!(scope.with_task().unwrap().ref_count(), 1);
}

#[test]
fn take_leaves_the_bindings_alone() {
    let mut scope = scope_of(1, 64);
    let first = scope.take();
    assert_eq!(first.serial(), 0);
    assert_eq!(first.capacity(), 64);
    assert_eq!(scope.depth(), 0);
    assert_eq!(scope.pool().len(), 0);
    let second = scope.take();
    assert_eq!(second.serial(), 1);
    assert_eq!(scope.pool().len(), 0);
}

#[test]
fn a_cleanup_before_the_pool_exists_frees_the_region() {
    let mut scope = scope_of(1, 64);
    let mut other = scope_of(1, 64);
    let region = other.take();
    let alloc = bump_future::allocator::TokioBumpAlloc::new(region);
    assert!(scope.finish(alloc.retire()).is_ok());
    assert_eq!(scope.pool().len(), 1);
}
