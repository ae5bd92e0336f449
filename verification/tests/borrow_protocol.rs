use wasm_bindgen::borrow::{
    acquire_exclusive, acquire_shared, release_exclusive, release_shared, EXCLUSIVE, UNBORROWED,
};
use wasm_bindgen::fatal::Fatal;
use wasm_bindgen::refcell::WasmRefCell;

#[test]
fn shared_borrow_increments_flag() {
    assert_eq!(acquire_shared(UNBORROWED), Ok(1));
    assert_eq!(acquire_shared(41), Ok(42));
}

#[test]
fn shared_borrow_refused_while_exclusive() {
    assert_eq!(acquire_shared(EXCLUSIVE), Err(Fatal::RecursiveBorrow));
    assert_eq!(acquire_exclusive(EXCLUSIVE), Err(Fatal::RecursiveBorrow));
}

#[test]
fn shared_borrow_just_below_max_becomes_exclusive_flag() {
    assert_eq!(acquire_shared(usize::MAX - 1), Ok(usize::MAX));
    assert_eq!(acquire_shared(usize::MAX - 1).unwrap(), EXCLUSIVE);
}

#[test]
fn exclusive_borrow_needs_unborrowed() {
    assert_eq!(acquire_exclusive(UNBORROWED), Ok(usize::MAX));
    assert_eq!(acquire_exclusive(1), Err(Fatal::RecursiveBorrow));
    assert_eq!(acquire_exclusive(7), Err(Fatal::RecursiveBorrow));
}

#[test]
fn releases_restore_flag() {
    assert_eq!(release_shared(1), 0);
    assert_eq!(release_shared(usize::MAX), usize::MAX - 1);
    assert_eq!(release_exclusive(EXCLUSIVE), UNBORROWED);
}

#[test]
fn shared_round_trip() {
    for flag in [0usize, 1, 5, usize::MAX - 1] {
        let next = acquire_shared(flag).unwrap();
        assert!(next > 0);
        assert_eq!(release_shared(next), flag);
    }
}

#[test]
fn exclusive_round_trip() {
    let next = acquire_exclusive(UNBORROWED).unwrap();
    assert_eq!(release_exclusive(next), UNBORROWED);
}

#[test]
fn granted_exclusive_blocks_everything() {
    let next = acquire_exclusive(UNBORROWED).unwrap();
    assert!(acquire_shared(next).is_err());
    assert!(acquire_exclusive(next).is_err());
}

#[test]
fn granted_shared_blocks_exclusive() {
    let next = acquire_shared(UNBORROWED).unwrap();
    assert_eq!(acquire_exclusive(next), Err(Fatal::RecursiveBorrow));
}

#[test]
fn many_shared_borrows_balance() {
    let mut flag = 3usize;
    for _ in 0..10 {
        flag = acquire_shared(flag).unwrap();
    }
    assert_eq!(flag, 13);
    for _ in 0..10 {
        flag = release_shared(flag);
    }
    assert_eq!(flag, 3);
}

#[test]
fn shared_borrows_stop_at_max() {
    let mut flag = usize::MAX - 3;
    for _ in 0..3 {
        flag = acquire_shared(flag).unwrap();
    }
    assert_eq!(flag, usize::MAX);
    assert!(acquire_shared(flag).is_err());
}

#[test]
fn cell_scenario() {
    let mut cell = WasmRefCell::new(String::from("abc"));
    let a = cell.borrow().unwrap();
    let b = cell.borrow().unwrap();
    assert_eq!(cell.deref(&a), "abc");
    assert_eq!(cell.borrow_mut().err(), Some(Fatal::RecursiveBorrow));
    cell.release(a);
    assert!(cell.borrow_mut().is_err());
    cell.release(b);
    let m = cell.borrow_mut().unwrap();
    assert_eq!(cell.borrow().err(), Some(Fatal::RecursiveBorrow));
    assert!(cell.borrow_mut().is_err());
    cell.deref_mut(&m).push('d');
    cell.release_mut(m);
    let c = cell.borrow().unwrap();
    assert_eq!(cell.deref(&c), "abcd");
    cell.release(c);
    cell.get_mut().push('e');
    assert_eq!(cell.into_inner(), "abcde");
}

#[test]
fn cell_new_into_inner() {
    let cell = WasmRefCell::new(17u64);
    assert_eq!(cell.into_inner(), 17);
}

#[test]
fn fatal_messages() {
    assert_eq!(Fatal::NullPointer.message(), "null pointer passed to rust");
    assert_eq!(
        Fatal::RecursiveBorrow.message(),
        "recursive use of an object detected which would lead to unsafe aliasing in rust"
    );
    assert_eq!(Fatal::InvalidMalloc.message(), "invalid malloc request");
}

#[test]
fn exclusive_borrow_is_alone_over_a_sequence() {
    let mut cell = WasmRefCell::new(0u8);
    let a = cell.borrow().unwrap();
    assert!(cell.borrow_mut().is_err());
    let b = cell.borrow().unwrap();
    cell.release(a);
    assert!(cell.borrow_mut().is_err());
    cell.release(b);
    let m = cell.borrow_mut().unwrap();
    assert!(cell.borrow().is_err());
    assert!(cell.borrow_mut().is_err());
    *cell.deref_mut(&m) = 9;
    cell.release_mut(m);
    let c = cell.borrow().unwrap();
    assert_eq!(*cell.deref(&c), 9);
    cell.release(c);
    assert!(cell.borrow_mut().is_ok());
}
