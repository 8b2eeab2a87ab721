use ffi_string::narrow::narrow_len;
use ffi_string::{FFIStr, FFIString};

const SPAN: usize = 1 << 32;

#[test]
fn narrowing_keeps_counts_that_fit() {
    assert_eq!(narrow_len(0), 0);
    assert_eq!(narrow_len(9), 9);
    assert_eq!(narrow_len(SPAN - 2), u32::MAX - 1);
    assert_eq!(narrow_len(SPAN - 1), u32::MAX);
}

#[test]
fn narrowing_drops_the_high_part() {
    assert_eq!(narrow_len(SPAN), 0);
    assert_eq!(narrow_len(SPAN + 1), 1);
    assert_eq!(narrow_len(SPAN + 9), 9);
    assert_eq!(narrow_len(3 * SPAN + 7), 7);
    assert_eq!(narrow_len(usize::MAX), u32::MAX);
}

#[test]
fn stored_length_is_the_narrowed_byte_length() {
    let texts = ["", "hello ffi", "naïve café", "🦀"];
    for text in texts {
        assert_eq!(FFIStr::new(text).len(), narrow_len(text.len()));
        assert_eq!(FFIString::new(text).len(), narrow_len(text.len()));
    }
}

#[test]
fn stored_capacity_is_the_narrowed_buffer_size() {
    let mut owned = String::with_capacity(1000);
    owned.push_str("roomy");
    let capacity = owned.capacity();
    let wrapper = FFIString::new(owned);
    assert_eq!(wrapper.capacity(), narrow_len(capacity));
    assert!(wrapper.capacity() >= 1000);
}

#[test]
fn counts_of_a_roomy_buffer_are_stored_as_they_are() {
    let mut owned = String::with_capacity(64);
    owned.push_str("hello ffi");
    let address = owned.as_ptr();
    let capacity = owned.capacity();
    assert!(capacity >= 64);
    let wrapper = FFIString::from_parts(owned, capacity);
    assert_eq!(wrapper.len(), 9);
    assert_eq!(wrapper.capacity() as usize, capacity);
    assert!(wrapper.len() <= wrapper.capacity());
    let back = wrapper.into_string();
    assert_eq!(back.as_ptr(), address);
    assert_eq!(back.capacity(), capacity);
    assert_eq!(back, "hello ffi");
}

#[test]
fn new_stores_what_from_parts_stores() {
    let mut owned = String::with_capacity(48);
    owned.push_str("same record");
    let capacity = owned.capacity();
    let by_parts = FFIString::from_parts(owned.clone(), capacity);
    let by_new = FFIString::new(owned);
    assert_eq!(by_new.len(), by_parts.len());
    assert_eq!(by_new.capacity() as usize, capacity);
    assert_eq!(by_parts.capacity() as usize, capacity);
    let by_from = FFIString::from(String::from("same record"));
    assert_eq!(by_from.len(), by_parts.len());
    assert!(by_from.capacity() >= by_from.len());
}

#[test]
fn capacity_at_the_edge_of_the_field() {
    let longest = FFIString::from_parts(String::from("edge"), SPAN - 1);
    assert_eq!(longest.capacity(), u32::MAX);
    assert_eq!(longest.len(), 4);
    let one_more = FFIString::from_parts(String::from("edge"), SPAN);
    assert_eq!(one_more.capacity(), 0);
    assert_eq!(one_more.len(), 4);
    assert_eq!(one_more.into_string(), "edge");
    let beyond = FFIString::from_parts(String::from("edge"), SPAN + 70);
    assert_eq!(beyond.capacity(), 70);
    let far = FFIString::from_parts(String::new(), usize::MAX);
    assert_eq!(far.capacity(), u32::MAX);
    assert_eq!(far.len(), 0);
}

#[test]
fn capacity_equal_to_the_length_is_accepted() {
    let wrapper = FFIString::from_parts(String::from("tight"), 5);
    assert_eq!(wrapper.len(), 5);
    assert_eq!(wrapper.capacity(), 5);
    assert_eq!(wrapper.as_str(), "tight");
}
