use ffi_string::FFIString;

#[test]
fn hello_ffi_round_trip() {
    let wrapper = FFIString::new("hello ffi");
    assert_eq!(wrapper.len(), 9);
    assert!(wrapper.capacity() >= 9);
    assert!(wrapper.is_readable());
    let back = wrapper.into_string();
    assert_eq!(back, "hello ffi");
}

#[test]
fn round_trip_keeps_every_byte() {
    let texts = ["", "a", "hello ffi", "naïve café", "日本語のテキスト", "🦀 crab", "line\nbreak\t\"quoted\""];
    for text in texts {
        let back = FFIString::new(text).into_string();
        assert_eq!(back.as_bytes(), text.as_bytes());
    }
}

#[test]
fn owned_input_is_taken_over_without_copy() {
    let owned = String::from("zero copy");
    let address = owned.as_ptr();
    let wrapper = FFIString::new(owned);
    assert_eq!(wrapper.as_str().as_ptr(), address);
    let back = wrapper.into_string();
    assert_eq!(back.as_ptr(), address);
    assert_eq!(back, "zero copy");
}

#[test]
fn borrowed_input_is_copied() {
    let input = "copied text";
    let wrapper = FFIString::new(input);
    assert_ne!(wrapper.as_str().as_ptr(), input.as_ptr());
    assert_eq!(wrapper.as_str(), input);
}

#[test]
fn stored_counts_match_the_buffer() {
    let mut owned = String::with_capacity(64);
    owned.push_str("abc");
    let capacity = owned.capacity();
    let wrapper = FFIString::new(owned);
    assert_eq!(wrapper.len(), 3);
    assert_eq!(wrapper.capacity() as usize, capacity);
    assert!(wrapper.capacity() >= wrapper.len());
}

#[test]
fn length_counts_bytes_not_characters() {
    let wrapper = FFIString::new("é🦀");
    assert_eq!(wrapper.len(), 6);
    assert_eq!(wrapper.as_str().chars().count(), 2);
}

#[test]
fn empty_text_has_zero_length() {
    let wrapper = FFIString::new(String::new());
    assert_eq!(wrapper.len(), 0);
    assert!(wrapper.is_readable());
    assert_eq!(wrapper.as_str(), "");
    assert_eq!(wrapper.into_string(), "");
}

#[test]
fn as_str_leaves_the_wrapper_usable() {
    let wrapper = FFIString::new("still here");
    assert_eq!(wrapper.as_str(), "still here");
    assert_eq!(wrapper.as_str(), "still here");
    assert_eq!(wrapper.into_string(), "still here");
}

#[test]
fn from_string_is_the_zero_copy_path() {
    let owned = String::from("via from");
    let address = owned.as_ptr();
    let wrapper = FFIString::from(owned);
    assert_eq!(wrapper.len(), 8);
    assert_eq!(wrapper.as_str().as_ptr(), address);
    assert_eq!(wrapper.into_string(), "via from");
}

#[test]
fn clone_owns_a_buffer_of_its_own() {
    let first = FFIString::new("twice");
    let copy = first.clone();
    assert_ne!(copy.as_str().as_ptr(), first.as_str().as_ptr());
    assert_eq!(copy.len(), first.len());
    assert!(copy.capacity() >= copy.len());
    assert_eq!(copy.as_str(), "twice");
    drop(first);
    assert_eq!(copy.into_string(), "twice");
}

#[test]
fn display_form_is_the_text() {
    let wrapper = FFIString::new("plain \"text\"");
    assert_eq!(wrapper.to_string(), "plain \"text\"");
}

#[test]
fn debug_form_is_the_text_in_quotes() {
    let wrapper = FFIString::new("plain");
    assert_eq!(wrapper.to_debug_string(), "\"plain\"");
    let inner = FFIString::new("a \"b\"\n");
    assert_eq!(inner.to_debug_string(), "\"a \"b\"\n\"");
}

#[test]
fn repeated_cycles_keep_one_owner() {
    let mut text = String::from("cycle");
    let address = text.as_ptr();
    for round in 0..10_000 {
        let wrapper = FFIString::new(text);
        assert_eq!(wrapper.len(), 5);
        text = wrapper.into_string();
        assert_eq!(text.as_ptr(), address, "round {}", round);
    }
    assert_eq!(text, "cycle");
    for _ in 0..10_000 {
        let abandoned = FFIString::new("dropped without being taken back");
        assert_eq!(abandoned.len(), 32);
    }
}
