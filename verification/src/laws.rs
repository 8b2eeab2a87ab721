//! What holds of every handle, stated over the same functions the contracts
//! of the handles use.

use vstd::prelude::*;
use vstd::utf8::*;
use crate::borrowed::FFIStr;
use crate::narrow::{field_span, narrowed};
use crate::owned::FFIString;
use crate::range::{
    fits, lemma_fitting_range_is_whole, range_bytes, range_readable, range_text, recorded_len,
};

verus! {

/// Round trip: an owning handle made from text that fits the length field
/// can be read, and what it gives back is that text, byte for byte.
pub proof fn law_round_trip(wrapper: FFIString)
    requires
        wrapper.well_formed(),
        fits(wrapper.source()),
    ensures
        wrapper.readable(),
        wrapper.text() == wrapper.source(),
        wrapper.bytes() == encode_utf8(wrapper.source()),
{
    lemma_fitting_range_is_whole(wrapper.source());
}

/// Counts of a buffer below 2^32 bytes: both are stored without loss, and
/// the stored length does not exceed the stored capacity.
pub proof fn law_small_buffer_is_stored_exactly(wrapper: FFIString)
    requires
        wrapper.well_formed(),
        wrapper.allocated() <= u32::MAX,
    ensures
        wrapper.spec_capacity() == wrapper.allocated(),
        wrapper.spec_len() == encode_utf8(wrapper.source()).len(),
        wrapper.spec_len() <= wrapper.spec_capacity(),
        wrapper.readable(),
        wrapper.text() == wrapper.source(),
{
    lemma_fitting_range_is_whole(wrapper.source());
}

/// Counts of a larger buffer: the stored capacity is the size of the buffer
/// less a whole multiple of 2^32, and so is the stored length against the
/// byte length of the source.
pub proof fn law_large_buffer_is_stored_modulo(wrapper: FFIString)
    requires
        wrapper.well_formed(),
    ensures
        wrapper.spec_capacity() == wrapper.allocated() as nat % field_span(),
        wrapper.spec_len() == encode_utf8(wrapper.source()).len() % field_span(),
        wrapper.allocated() == field_span() ==> wrapper.spec_capacity() == 0,
        wrapper.allocated() == u32::MAX ==> wrapper.spec_capacity() == u32::MAX,
{
}

/// Borrow fidelity: a borrowed handle made from text that fits the length
/// field can be read, and what it reads is that text, byte for byte.
pub proof fn law_borrow_fidelity(view: FFIStr)
    requires
        view.well_formed(),
        fits(view.source()),
    ensures
        view.readable(),
        view.text() == view.source(),
        view.bytes() == encode_utf8(view.source()),
{
    lemma_fitting_range_is_whole(view.source());
}

/// Narrowing drops whole multiples of 2^32: the field of a count `k + 2^32`
/// holds what the field of `k` holds.
pub proof fn law_narrowed_wraps(k: nat)
    ensures
        narrowed(k + field_span()) == narrowed(k),
{
}

/// The two lengths at the edge of the field. Text of exactly 2^32 - 1 bytes
/// is the longest that is stored whole. Text of exactly 2^32 bytes is stored
/// with length zero: the handle can be read and denotes the empty text.
pub proof fn law_lengths_at_the_field_edge(text: Seq<char>)
    ensures
        encode_utf8(text).len() == u32::MAX ==> {
            &&& recorded_len(text) == u32::MAX
            &&& range_readable(text, recorded_len(text))
            &&& range_text(text, recorded_len(text)) == text
        },
        encode_utf8(text).len() == field_span() ==> {
            &&& recorded_len(text) == 0
            &&& range_readable(text, recorded_len(text))
            &&& range_text(text, recorded_len(text)) == Seq::<char>::empty()
        },
{
    if encode_utf8(text).len() == u32::MAX {
        lemma_fitting_range_is_whole(text);
    }
    if encode_utf8(text).len() == field_span() {
        encode_utf8_valid_utf8(text);
        assert(range_bytes(text, 0) =~= Seq::<u8>::empty());
        assert(encode_utf8(Seq::<char>::empty()) =~= Seq::<u8>::empty());
        encode_utf8_decode_utf8(Seq::<char>::empty());
    }
}

/// A length is stored without loss exactly when the text fits the field.
pub proof fn law_stored_length_exact_iff_fits(text: Seq<char>)
    ensures
        recorded_len(text) == encode_utf8(text).len() <==> fits(text),
{
}

} // verus!
