use sync_benchmarking::{Counter, Large, Small, SIZE_OF_LARGE, SIZE_OF_SMALL};

#[test]
fn test_size_of_small() {
    assert_eq!(std::mem::size_of::<Small>(), SIZE_OF_SMALL);
}

#[test]
fn test_size_of_large() {
    assert_eq!(std::mem::size_of::<Large>(), SIZE_OF_LARGE);
}

#[test]
fn default_small_counter_is_zero() {
    let s = Small::default();
    assert_eq!(s.counter(), 0);
    assert_eq!(s.counter, 0);
}

#[test]
fn default_large_counter_is_zero() {
    let l = Large::default();
    assert_eq!(l.counter(), 0);
    assert_eq!(l.counter, 0);
}

#[test]
fn counter_mut_updates_small_in_place() {
    let mut s = Small::default();
    *s.counter_mut() += 1;
    *s.counter_mut() += 1;
    assert_eq!(s.counter(), 2);
    assert_eq!(s.counter, 2);
}

#[test]
fn counter_mut_updates_large_in_place() {
    let mut l = Large::default();
    *l.counter_mut() = 41;
    *l.counter_mut() += 1;
    assert_eq!(l.counter(), 42);
    assert_eq!(l.counter, 42);
}

#[test]
fn payloads_are_plain_copyable_values() {
    let mut s = Small::default();
    *s.counter_mut() = 7;
    let t = s;
    assert_eq!(s, t);
    assert_eq!(t.counter(), 7);
}
