use os_pipe::unix::weak::{encode_name, Symbol, Weak};
use std::cell::{Cell, RefCell};

#[test]
fn a_name_is_encoded_with_a_zero_byte_at_its_end() {
    assert_eq!(encode_name(&b"pipe2".to_vec()), Some(b"pipe2\0".to_vec()));
    assert_eq!(encode_name(&b"a".to_vec()), Some(vec![97, 0]));
}

#[test]
fn the_empty_name_is_encoded_as_a_single_zero_byte() {
    assert_eq!(encode_name(&Vec::new()), Some(vec![0]));
}

#[test]
fn a_name_with_a_zero_byte_has_no_encoded_form() {
    assert_eq!(encode_name(&b"pi\0pe2".to_vec()), None);
    assert_eq!(encode_name(&b"\0".to_vec()), None);
    assert_eq!(encode_name(&b"pipe2\0".to_vec()), None);
    assert_eq!(encode_name(&b"\0pipe2".to_vec()), None);
}

#[test]
fn a_new_entry_point_is_unresolved() {
    let weak = Weak::new(b"pipe2".to_vec());
    assert_eq!(weak.peek(), Symbol::Unresolved);
}

#[test]
fn a_found_entry_point_is_present_at_its_address() {
    let mut weak = Weak::new(b"pipe2".to_vec());
    assert_eq!(weak.get(|_| 0x7f00_1000), Some(0x7f00_1000));
    assert_eq!(weak.peek(), Symbol::Present(0x7f00_1000));
}

#[test]
fn a_missing_entry_point_is_absent() {
    let mut weak = Weak::new(b"pipe2".to_vec());
    assert_eq!(weak.get(|_| 0), None);
    assert_eq!(weak.peek(), Symbol::Absent);
}

#[test]
fn the_lookup_is_handed_the_encoded_name() {
    let seen = RefCell::new(Vec::new());
    let mut weak = Weak::new(b"pipe2".to_vec());
    weak.get(|name| {
        seen.replace(name.clone());
        1
    });
    assert_eq!(seen.into_inner(), b"pipe2\0".to_vec());
}

#[test]
fn the_lookup_is_made_at_most_once() {
    let lookups = Cell::new(0u32);
    let mut weak = Weak::new(b"pipe2".to_vec());
    let first = weak.get(|_| {
        lookups.set(lookups.get() + 1);
        4096
    });
    let second = weak.get(|_| {
        lookups.set(lookups.get() + 1);
        8192
    });
    let third = weak.get(|_| {
        lookups.set(lookups.get() + 1);
        0
    });
    assert_eq!(first, Some(4096));
    assert_eq!(second, Some(4096));
    assert_eq!(third, Some(4096));
    assert_eq!(lookups.get(), 1);
}

#[test]
fn an_absent_entry_point_stays_absent() {
    let lookups = Cell::new(0u32);
    let mut weak = Weak::new(b"pipe2".to_vec());
    assert_eq!(
        weak.get(|_| {
            lookups.set(lookups.get() + 1);
            0
        }),
        None
    );
    assert_eq!(
        weak.get(|_| {
            lookups.set(lookups.get() + 1);
            4096
        }),
        None
    );
    assert_eq!(weak.peek(), Symbol::Absent);
    assert_eq!(lookups.get(), 1);
}

#[test]
fn a_name_that_cannot_be_encoded_is_absent_and_never_looked_up() {
    let lookups = Cell::new(0u32);
    let mut weak = Weak::new(b"pipe\x002".to_vec());
    assert_eq!(
        weak.get(|_| {
            lookups.set(lookups.get() + 1);
            4096
        }),
        None
    );
    assert_eq!(weak.peek(), Symbol::Absent);
    assert_eq!(lookups.get(), 0);
}

#[test]
fn only_the_first_answer_is_recorded() {
    let mut weak = Weak::new(b"pipe2".to_vec());
    weak.record(4096);
    assert_eq!(weak.peek(), Symbol::Present(4096));
    weak.record(0);
    assert_eq!(weak.peek(), Symbol::Present(4096));
    weak.record(8192);
    assert_eq!(weak.peek(), Symbol::Present(4096));
    assert_eq!(weak.get(|_| 1), Some(4096));
}

#[test]
fn the_answer_zero_is_recorded_as_absent() {
    let mut weak = Weak::new(b"pipe2".to_vec());
    weak.record(0);
    assert_eq!(weak.peek(), Symbol::Absent);
    weak.record(4096);
    assert_eq!(weak.peek(), Symbol::Absent);
}
