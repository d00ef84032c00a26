use bump_future::allocator::{BumpAlloc, TokioBumpAlloc};
use bump_future::bump::pool::BumpPool;
use bump_future::obj::{BumpAny, BumpObject};

#[test]
fn alloc_and_recycle_round_trip() {
    let mut pool = BumpPool::new(8, 1024);
    let mut alloc = TokioBumpAlloc::new(pool.take());
    assert_eq!(pool.len(), 7);
    let mut obj = alloc.allocate(32_u32);
    assert!(obj.is::<u32>());
    assert!(!obj.is::<u64>());
    let addr = obj.downcast_ref::<u32>();
    assert!(addr.is_some());
    assert_eq!(obj.downcast_ref::<u64>(), None);
    let cleanup = alloc.retire();
    let mut cleanup = match cleanup.finish(Some(&mut pool)) {
        Ok(()) => panic!("an object is still out"),
        Err(c) => c,
    };
    assert_eq!(pool.len(), 7);
    assert_eq!(obj.dispose(), addr);
    assert!(cleanup.release(obj).is_ok());
    assert!(cleanup.finish(Some(&mut pool)).is_ok());
    assert_eq!(pool.len(), 8);
}

#[test]
fn every_allocation_adds_a_guard() {
    let mut pool = BumpPool::new(1, 256);
    let mut alloc = TokioBumpAlloc::new(pool.take());
    assert_eq!(alloc.serial(), 0);
    assert_eq!(alloc.ref_count(), 0);
    let a = alloc.allocate(1_u8);
    let b = alloc.allocate(String::from("two"));
    let c = alloc.allocate(());
    assert_eq!(alloc.ref_count(), 3);
    assert_eq!(a.serial(), 0);
    assert_eq!(b.serial(), 0);
    assert_eq!(c.serial(), 0);
    assert!(a.is::<u8>());
    assert!(b.is::<String>());
    assert!(c.is::<()>());
    assert_ne!(a.downcast_ref::<u8>(), b.downcast_ref::<String>());
}

#[test]
fn an_object_is_given_back_to_a_live_allocator() {
    let mut pool = BumpPool::new(1, 256);
    let mut alloc = TokioBumpAlloc::new(pool.take());
    let mut obj = alloc.allocate(1_u64);
    // not before its value is disposed of
    let mut obj = match alloc.release(obj) {
        Ok(()) => panic!("the object still claims its value"),
        Err(o) => o,
    };
    assert_eq!(alloc.ref_count(), 1);
    assert!(obj.dispose().is_some());
    assert!(alloc.release(obj).is_ok());
    assert_eq!(alloc.ref_count(), 0);
    obj = alloc.allocate(2_u64);
    assert_eq!(alloc.ref_count(), 1);
    assert!(obj.is_claimed());
}

#[test]
fn an_object_of_another_region_is_handed_back() {
    let mut pool = BumpPool::new(2, 256);
    let mut first = TokioBumpAlloc::new(pool.take());
    let mut second = TokioBumpAlloc::new(pool.take());
    let _own = first.allocate(0_u8);
    let mut obj = second.allocate(1_u8);
    assert_eq!(obj.serial(), 1);
    assert!(obj.dispose().is_some());
    let obj = match first.release(obj) {
        Ok(()) => panic!("taken by the wrong allocator"),
        Err(o) => o,
    };
    assert_eq!(first.ref_count(), 1);
    assert_eq!(second.ref_count(), 1);
    assert!(second.release(obj).is_ok());
    assert_eq!(second.ref_count(), 0);
}

#[test]
fn the_region_waits_for_every_object() {
    let mut pool = BumpPool::new(2, 512);
    let mut alloc = TokioBumpAlloc::new(pool.take());
    assert_eq!(pool.len(), 1);
    let mut objs: Vec<BumpObject> = Vec::new();
    for i in 0..5_u32 {
        objs.push(alloc.allocate(i));
    }
    let mut cleanup = alloc.retire();
    assert_eq!(cleanup.ref_count(), 5);
    let mut left = 5;
    while let Some(mut obj) = objs.pop() {
        cleanup = match cleanup.finish(Some(&mut pool)) {
            Ok(()) => panic!("objects are still out"),
            Err(c) => c,
        };
        assert_eq!(pool.len(), 1);
        assert!(obj.dispose().is_some());
        assert!(cleanup.release(obj).is_ok());
        left -= 1;
        assert_eq!(cleanup.ref_count(), left);
    }
    assert!(cleanup.finish(Some(&mut pool)).is_ok());
    assert_eq!(pool.len(), 2);
}

#[test]
fn a_retired_allocator_without_objects_recycles_at_once() {
    let mut pool = BumpPool::new(3, 64);
    let alloc = TokioBumpAlloc::new(pool.take());
    assert_eq!(pool.len(), 2);
    assert!(alloc.retire().finish(Some(&mut pool)).is_ok());
    assert_eq!(pool.len(), 3);
}

#[test]
fn a_full_pool_gives_the_region_up() {
    let mut pool = BumpPool::new(1, 64);
    let first = TokioBumpAlloc::new(pool.take());
    let extra = TokioBumpAlloc::new(pool.take());
    assert!(first.retire().finish(Some(&mut pool)).is_ok());
    assert_eq!(pool.len(), 1);
    assert!(extra.retire().finish(Some(&mut pool)).is_ok());
    assert_eq!(pool.len(), 1);
}

#[test]
fn cleanup_without_a_pool_frees_the_region() {
    let mut pool = BumpPool::new(1, 64);
    let mut alloc = TokioBumpAlloc::new(pool.take());
    let mut obj = alloc.allocate(3_u8);
    let cleanup = alloc.retire();
    let mut cleanup = match cleanup.finish(None) {
        Ok(()) => panic!("an object is still out"),
        Err(c) => c,
    };
    assert!(obj.dispose().is_some());
    assert!(cleanup.release(obj).is_ok());
    assert!(cleanup.finish(None).is_ok());
    assert_eq!(pool.len(), 0);
}

#[test]
fn cleanup_hands_back_what_is_not_its_own() {
    let mut pool = BumpPool::new(2, 64);
    let mut gone = TokioBumpAlloc::new(pool.take());
    let mut other = TokioBumpAlloc::new(pool.take());
    let _mine = gone.allocate(1_u8);
    let mut foreign = other.allocate(2_u8);
    let mut cleanup = gone.retire();
    assert!(foreign.dispose().is_some());
    assert!(cleanup.release(foreign).is_err());
    assert_eq!(cleanup.ref_count(), 1);
}
