//! The set of known block numbers.

use blockviz::dedup::KnownBlocks;

#[test]
fn new_set_knows_nothing() {
    let known = KnownBlocks::new();
    assert!(!known.contains(0));
    assert!(!known.contains(42));
}

#[test]
fn insert_marks_a_number_known() {
    let mut known = KnownBlocks::new();
    known.insert(5);
    assert!(known.contains(5));
    assert!(!known.contains(6));
}

#[test]
fn double_insert_is_idempotent() {
    let mut known = KnownBlocks::new();
    known.insert(5);
    known.insert(5);
    known.insert(6);
    assert!(known.contains(5));
    assert!(known.contains(6));
    assert!(!known.contains(7));
}
