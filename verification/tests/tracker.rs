use bump_future::bump::BumpRefMgr;

#[test]
fn a_new_tracker_keeps_its_own_guard() {
    let mgr = BumpRefMgr::new();
    assert_eq!(mgr.serial(), 0);
    assert_eq!(mgr.ref_count(), 0);
    // its own guard is still there
    assert!(!mgr.no_ref());
}

#[test]
fn default_tracker_is_a_new_tracker() {
    let mgr = BumpRefMgr::default();
    assert_eq!(mgr.serial(), 0);
    assert_eq!(mgr.ref_count(), 0);
    assert!(!mgr.no_ref());
}

#[test]
fn guards_are_counted() {
    let mut mgr = BumpRefMgr::with_serial(7);
    let a = mgr.new_ref();
    let b = mgr.new_ref();
    assert_eq!(a.serial(), 7);
    assert_eq!(b.serial(), 7);
    assert_eq!(mgr.ref_count(), 2);
    assert!(mgr.release(a).is_ok());
    assert_eq!(mgr.ref_count(), 1);
    assert!(mgr.release(b).is_ok());
    assert_eq!(mgr.ref_count(), 0);
}

#[test]
fn a_foreign_guard_is_handed_back() {
    let mut ours = BumpRefMgr::with_serial(1);
    let mut theirs = BumpRefMgr::with_serial(2);
    let _mine = ours.new_ref();
    let guard = theirs.new_ref();
    let back = match ours.release(guard) {
        Ok(()) => panic!("a guard of another tracker was taken"),
        Err(g) => g,
    };
    assert_eq!(back.serial(), 2);
    assert_eq!(ours.ref_count(), 1);
    assert!(theirs.release(back).is_ok());
    assert_eq!(theirs.ref_count(), 0);
}

#[test]
fn a_guard_too_many_is_handed_back() {
    let mut spent = BumpRefMgr::with_serial(3);
    let mut twin = BumpRefMgr::with_serial(3);
    let guard = twin.new_ref();
    assert!(spent.release(guard).is_err());
    assert_eq!(spent.ref_count(), 0);
}

#[test]
fn wait_ends_at_once_without_guards() {
    let mgr = BumpRefMgr::new();
    assert!(mgr.wait_no_ref().is_ok());
}

#[test]
fn wait_goes_on_until_the_last_guard_is_back() {
    let mut mgr = BumpRefMgr::with_serial(9);
    let a = mgr.new_ref();
    let b = mgr.new_ref();
    let mut waiting = match mgr.wait_no_ref() {
        Ok(()) => panic!("two guards are out"),
        Err(m) => m,
    };
    assert_eq!(waiting.ref_count(), 2);
    assert_eq!(waiting.serial(), 9);
    assert!(!waiting.no_ref());
    assert!(waiting.release(a).is_ok());
    assert!(!waiting.no_ref());
    let mut waiting = match waiting.wait_no_ref() {
        Ok(()) => panic!("one guard is out"),
        Err(m) => m,
    };
    assert!(waiting.release(b).is_ok());
    assert!(waiting.no_ref());
    assert!(waiting.wait_no_ref().is_ok());
}
