use wasm_export::ledger::{LeakHandle, LeakLedger, ReleaseError};

#[test]
fn two_leaks_are_independent() {
    let mut l = LeakLedger::new();
    let a = l.leak(b"https://auth.example/1".to_vec());
    let b = l.leak(b"https://auth.example/2".to_vec());
    assert_ne!(a.index, b.index);
    assert_eq!(l.release(a), Ok(b"https://auth.example/1".to_vec()));
    assert_eq!(l.get(b.index), Some(&b"https://auth.example/2".to_vec()));
    assert_eq!(l.release(b), Ok(b"https://auth.example/2".to_vec()));
}

#[test]
fn release_twice_is_refused() {
    let mut l = LeakLedger::new();
    let a = l.leak(vec![1, 2, 3]);
    assert_eq!(a, LeakHandle { index: 0, len: 3 });
    assert!(l.release(a).is_ok());
    assert_eq!(l.release(a), Err(ReleaseError::NotLeaked));
    assert_eq!(l.get(0), None);
}

#[test]
fn release_with_wrong_length_is_refused() {
    let mut l = LeakLedger::new();
    let a = l.leak(vec![9; 4]);
    assert_eq!(l.release(LeakHandle { index: a.index, len: 5 }), Err(ReleaseError::LengthMismatch));
    assert_eq!(l.get(a.index), Some(&vec![9; 4]));
    assert_eq!(l.release(LeakHandle { index: 7, len: 4 }), Err(ReleaseError::NotLeaked));
}

#[test]
fn empty_buffer_can_be_leaked_and_released() {
    let mut l = LeakLedger::new();
    let a = l.leak(Vec::new());
    assert_eq!(a.len, 0);
    assert_eq!(l.release(a), Ok(Vec::new()));
}

#[test]
fn released_slots_still_count() {
    let mut l = LeakLedger::new();
    assert_eq!(l.slot_count(), 0);
    let a = l.leak(vec![1]);
    l.leak(vec![2]);
    l.release(a).unwrap();
    assert_eq!(l.slot_count(), 2);
    assert_eq!(l.leak(vec![3]).index, 2);
}
