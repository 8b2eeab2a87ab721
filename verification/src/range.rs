//! What a `{start, length}` record denotes: the first `length` bytes of the
//! UTF-8 encoding of the text it was taken from.

use vstd::prelude::*;
use vstd::utf8::*;
use crate::narrow::narrowed;

verus! {

/// True when the byte length of `text` is a machine size, as it is for all
/// text held in memory.
pub open spec fn addressable(text: Seq<char>) -> bool {
    encode_utf8(text).len() <= usize::MAX
}

/// True when the byte length of `text` can be stored in a 32-bit field
/// without loss.
pub open spec fn fits(text: Seq<char>) -> bool {
    encode_utf8(text).len() <= u32::MAX
}

/// The length a record stores for `text`: its byte length in UTF-8, narrowed.
pub open spec fn recorded_len(text: Seq<char>) -> u32 {
    narrowed(encode_utf8(text).len())
}

/// The bytes in the range `[start, start + len)` of a record over `text`.
pub open spec fn range_bytes(text: Seq<char>, len: u32) -> Seq<u8> {
    encode_utf8(text).subrange(0, len as int)
}

/// True when the range ends between two characters of `text`, so that its
/// bytes are themselves text.
pub open spec fn range_readable(text: Seq<char>, len: u32) -> bool {
    is_char_boundary(encode_utf8(text), len as int)
}

/// The text in the range of a record over `text`.
pub open spec fn range_text(text: Seq<char>, len: u32) -> Seq<char> {
    decode_utf8(range_bytes(text, len))
}

/// A record over text that fits stores its full length, and its range is the
/// whole text.
pub proof fn lemma_fitting_range_is_whole(text: Seq<char>)
    requires
        fits(text),
    ensures
        recorded_len(text) == encode_utf8(text).len(),
        range_readable(text, recorded_len(text)),
        range_bytes(text, recorded_len(text)) == encode_utf8(text),
        range_text(text, recorded_len(text)) == text,
{
    let bytes = encode_utf8(text);
    encode_utf8_valid_utf8(text);
    is_char_boundary_start_end_of_seq(bytes);
    assert(bytes.subrange(0, bytes.len() as int) =~= bytes);
    encode_utf8_decode_utf8(text);
}

/// A readable range lies within the text the record was taken from and holds
/// valid UTF-8; its text is a prefix of that text and fits the length field.
pub proof fn lemma_readable_range_is_prefix(text: Seq<char>, len: u32)
    requires
        range_readable(text, len),
    ensures
        len <= encode_utf8(text).len(),
        range_bytes(text, len).len() == len,
        valid_utf8(range_bytes(text, len)),
        fits(range_text(text, len)),
        encode_utf8(range_text(text, len)) == range_bytes(text, len),
        range_text(text, len).is_prefix_of(text),
{
    let bytes = encode_utf8(text);
    encode_utf8_valid_utf8(text);
    valid_utf8_split(bytes, len as int);
    decode_utf8_split(bytes, len as int);
    decode_utf8_encode_utf8(range_bytes(text, len));
    encode_utf8_decode_utf8(text);
}

} // verus!
