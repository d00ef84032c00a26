use bump_future::allocator::{BumpAlloc, TokioBumpAlloc};
use bump_future::bump::pool::BumpPool;
use bump_future::future::{BumpFuture, BumpFutureExt};
use bump_future::obj::BumpAny;
use bump_future::util::{check_sync, check_unpin_ref, poll_future, stored_addr};
use std::any::TypeId;
use std::future::Ready;

#[test]
fn a_task_yields_once_after_one_suspension() {
    let mut pool = BumpPool::new(1, 256);
    let mut alloc = TokioBumpAlloc::new(pool.take());
    let mut task: BumpFuture<u32> = std::future::ready(42_u32).bumped(&mut alloc);
    let addr = task.as_ref().downcast_ref::<Ready<u32>>().unwrap();
    assert!(!task.is_completed());
    let mut calls = 0;
    let mut seen = Vec::new();
    let first = task.poll(|at| {
        calls += 1;
        seen.push(at);
        None
    });
    assert_eq!(first, None);
    assert!(!task.is_completed());
    let second = task.poll(|at| {
        calls += 1;
        seen.push(at);
        Some(42)
    });
    assert_eq!(second, Some(42));
    assert!(task.is_completed());
    assert_eq!(calls, 2);
    assert_eq!(seen, vec![addr, addr]);
}

#[test]
fn bumped_stores_the_future_itself() {
    let mut pool = BumpPool::new(1, 256);
    let mut alloc = TokioBumpAlloc::new(pool.take());
    let task: BumpFuture<u8> = std::future::ready(1_u8).bumped(&mut alloc);
    assert_eq!(alloc.ref_count(), 1);
    assert!(task.as_ref().is::<Ready<u8>>());
    assert!(!task.as_ref().is::<u8>());
    assert_eq!(task.as_ref().serial(), alloc.serial());
    check_unpin_ref(&task);
}

#[test]
fn a_task_gives_its_object_back() {
    let mut pool = BumpPool::new(1, 256);
    let mut alloc = TokioBumpAlloc::new(pool.take());
    let obj = alloc.allocate(std::future::ready(()));
    let addr = obj.downcast_ref::<Ready<()>>();
    let mut task: BumpFuture<()> = BumpFuture::new(obj);
    assert_eq!(task.as_mut().downcast_mut::<Ready<()>>(), addr);
    assert_eq!(task.poll(|_| Some(())), Some(()));
    let mut obj = task.into_object();
    assert_eq!(obj.dispose(), addr);
    assert!(alloc.release(obj).is_ok());
    assert!(alloc.retire().finish(Some(&mut pool)).is_ok());
    assert_eq!(pool.len(), 1);
}

#[test]
fn poll_future_passes_the_address_and_the_answer() {
    let mut pool = BumpPool::new(1, 256);
    let mut alloc = TokioBumpAlloc::new(pool.take());
    let mut obj = alloc.allocate(9_u16);
    let tag = TypeId::of::<u16>();
    let addr = obj.downcast_ref::<u16>().unwrap();
    assert_eq!(stored_addr(&mut obj, &tag), addr);
    let out: Option<usize> = poll_future(&mut obj, &tag, |at| Some(at + 1));
    assert_eq!(out, Some(addr + 1));
    let none: Option<usize> = poll_future(&mut obj, &tag, |_| None);
    assert_eq!(none, None);
    assert_eq!(obj.downcast_ref::<u16>(), Some(addr));
}

#[test]
fn plain_data_is_sync() {
    check_sync::<u32>();
}
