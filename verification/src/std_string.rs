//! Contracts for the standard-library functions the owning handle relies on
//! and that come without one. Verus takes them on trust.

use vstd::prelude::*;
use vstd::string::*;
use vstd::utf8::*;

verus! {

/// `String::from(&str)` copies the text into a string of its own.
pub assume_specification<'a, 'b>[ <String as From<&'a str>>::from ](s: &'b str) -> (r: String)
    ensures
        r@ == s@,
;

/// The conversion of a value into its own type returns the value unchanged.
pub assume_specification<T>[ <T as From<T>>::from ](t: T) -> (r: T)
    ensures
        r == t,
;

/// `String::capacity` reports the size of the string's buffer in bytes. The
/// size is the allocator's choice; the standard library promises only that it
/// is never below the length.
pub assume_specification[ String::capacity ](s: &String) -> (c: usize)
    ensures
        c >= encode_utf8(s@).len(),
;

/// `String::truncate` shortens the string to `new_len` bytes in place and has
/// no effect when `new_len` is not below the current length. It panics when
/// `new_len` falls inside a character, which the precondition rules out.
pub assume_specification[ String::truncate ](s: &mut String, new_len: usize)
    requires
        new_len < encode_utf8(old(s)@).len() ==> is_char_boundary(
            encode_utf8(old(s)@),
            new_len as int,
        ),
    ensures
        new_len >= encode_utf8(old(s)@).len() ==> final(s)@ == old(s)@,
        new_len < encode_utf8(old(s)@).len() ==> encode_utf8(final(s)@) == encode_utf8(
            old(s)@,
        ).subrange(0, new_len as int),
;

} // verus!
