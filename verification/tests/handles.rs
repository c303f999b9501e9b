use ownedfd::{dup_result, FdRef, IntoRawFd, OsError, OwnedFd};

#[test]
fn from_owned_raw_round_trip() {
    let h = OwnedFd::from_owned_raw(7);
    assert_eq!(h.as_raw_fd(), 7);
    let zero = OwnedFd::from_owned_raw(0);
    assert_eq!(zero.as_raw_fd(), 0);
    let top = OwnedFd::from_owned_raw(i32::MAX);
    assert_eq!(top.as_raw_fd(), i32::MAX);
}

#[test]
fn view_round_trip_boundaries() {
    let low = FdRef::from_unowned_raw(0);
    assert_eq!(low.as_raw_fd(), 0);
    let high = FdRef::from_unowned_raw(i32::MAX);
    assert_eq!(high.as_raw_fd(), i32::MAX);
    let mid = FdRef::from_unowned_raw(42);
    assert_eq!(mid.as_raw_fd(), 42);
}

#[test]
fn borrow_observes_handle_id() {
    let h = OwnedFd::from_owned_raw(12);
    let v = h.borrow();
    assert_eq!(v.as_raw_fd(), h.as_raw_fd());
    assert_eq!(v.as_raw_fd(), 12);
}

#[test]
fn dup_result_success() {
    assert_eq!(dup_result(5, 0), Ok(5));
    assert_eq!(dup_result(0, 0), Ok(0));
}

#[test]
fn dup_result_failure_carries_error_code() {
    let emfile: i32 = 24;
    assert_eq!(dup_result(-1, emfile), Err(OsError { code: emfile }));
    let ebadf: i32 = 9;
    assert_eq!(dup_result(-1, ebadf), Err(OsError { code: ebadf }));
}

#[test]
fn from_dup_result_adopts_fresh_identifier() {
    let adopted = OwnedFd::from_dup_result(Ok(9));
    match adopted {
        Ok(h) => assert_eq!(h.as_raw_fd(), 9),
        Err(_) => panic!("a fresh identifier must be adopted"),
    }
}

#[test]
fn from_dup_result_passes_failure_through() {
    let emfile: i32 = 24;
    let adopted = OwnedFd::from_dup_result(Err(OsError { code: emfile }));
    match adopted {
        Ok(_) => panic!("a failed duplication must not yield a handle"),
        Err(e) => assert_eq!(e, OsError { code: emfile }),
    }
}

#[test]
fn relinquish_returns_identifier() {
    let h = OwnedFd::from_owned_raw(6);
    let i = h.into_raw_fd();
    assert_eq!(i, 6);
}

#[test]
fn from_collaborator_takes_over_identifier() {
    let h = OwnedFd::from_owned_raw(11);
    let taken = OwnedFd::from(h);
    assert_eq!(taken.as_raw_fd(), 11);
}

#[test]
fn dup_via_view_matches_direct() {
    let h = OwnedFd::from_owned_raw(3);
    let v = h.borrow();
    // Both paths hand the OS the same identifier...
    assert_eq!(v.as_raw_fd(), h.as_raw_fd());
    // ... and adopt the same outcome identically.
    let via_view = OwnedFd::from_dup_result(dup_result(8, 0)).unwrap();
    let direct = OwnedFd::from_dup_result(dup_result(8, 0)).unwrap();
    assert_eq!(via_view.as_raw_fd(), direct.as_raw_fd());
}

#[test]
fn scenario_wrap_borrow_dup_release() {
    // A temporary resource identifier, wrapped unconditionally.
    let f: i32 = 3;
    let h1 = OwnedFd::from_owned_raw(f);
    // Derive a view and duplicate through it; the OS answers with a fresh
    // identifier, here 4.
    let v = h1.borrow();
    let outcome = dup_result(4, 0);
    assert_eq!(v.as_raw_fd(), f);
    let h2 = OwnedFd::from_dup_result(outcome).unwrap();
    assert_ne!(h1.as_raw_fd(), h2.as_raw_fd());
    // Destroying the duplicate leaves the original usable.
    drop(h2);
    assert_eq!(h1.as_raw_fd(), f);
}
