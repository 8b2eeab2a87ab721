//! The owning handle: a `{start, length, capacity}` record that holds one
//! heap buffer of text.

use vstd::prelude::*;
use vstd::string::*;
use vstd::utf8::*;
use crate::narrow::{narrow_len, narrowed};
use crate::range::{
    addressable, fits, lemma_fitting_range_is_whole, lemma_readable_range_is_prefix, range_bytes,
    range_readable, range_text, recorded_len,
};

verus! {

/// The state of an owning handle.
pub struct StringParts {
    /// The text in the buffer the handle owns.
    pub source: Seq<char>,
    /// The stored length.
    pub len: u32,
    /// The stored capacity.
    pub cap: u32,
    /// The size of the buffer in bytes, as it was when the handle took it.
    pub allocated: usize,
}

/// An owning wrapper of text for a foreign boundary.
///
/// The handle owns the buffer it was made from and stores the buffer's byte
/// length and capacity, each narrowed to 32 bits. It denotes the first `len`
/// bytes of the buffer. There is one owner at any time: the handle is moved,
/// never shared; giving the text back consumes the handle, and a handle that
/// goes out of scope releases its buffer.
pub struct FFIString {
    buf: String,
    len: u32,
    cap: u32,
    allocated: Ghost<usize>,
}

impl View for FFIString {
    type V = StringParts;

    closed spec fn view(&self) -> StringParts {
        StringParts { source: self.buf@, len: self.len, cap: self.cap, allocated: self.allocated@ }
    }
}

impl FFIString {
    /// The text in the buffer the handle owns.
    pub open spec fn source(&self) -> Seq<char> {
        self@.source
    }

    /// The stored length.
    pub open spec fn spec_len(&self) -> u32 {
        self@.len
    }

    /// The stored capacity.
    pub open spec fn spec_capacity(&self) -> u32 {
        self@.cap
    }

    /// The size of the buffer in bytes, before narrowing.
    pub open spec fn allocated(&self) -> usize {
        self@.allocated
    }

    /// What holds of every handle: the stored length is the byte length of
    /// the source, the stored capacity is the size of the buffer, each
    /// narrowed to 32 bits, and the buffer has room for the source.
    #[verifier::type_invariant]
    pub open spec fn well_formed(self) -> bool {
        &&& self.spec_len() == recorded_len(self.source())
        &&& self.spec_capacity() == narrowed(self.allocated() as nat)
        &&& self.allocated() >= encode_utf8(self.source()).len()
    }

    /// The bytes the handle denotes.
    pub open spec fn bytes(&self) -> Seq<u8> {
        range_bytes(self.source(), self.spec_len())
    }

    /// True when the denoted bytes end between two characters, so that they
    /// can be read as text.
    pub open spec fn readable(&self) -> bool {
        range_readable(self.source(), self.spec_len())
    }

    /// The text the handle denotes.
    pub open spec fn text(&self) -> Seq<char> {
        range_text(self.source(), self.spec_len())
    }

    /// Builds the handle over `buf` from the size of its buffer. The stored
    /// length is the byte length of `buf`, the stored capacity is `capacity`,
    /// each narrowed to 32 bits. While `capacity` is below 2^32 it is stored
    /// as it is and the stored length does not exceed it.
    pub fn from_parts(buf: String, capacity: usize) -> (r: Self)
        requires
            capacity >= encode_utf8(buf@).len(),
        ensures
            r@ == (StringParts {
                source: buf@,
                len: recorded_len(buf@),
                cap: narrowed(capacity as nat),
                allocated: capacity,
            }),
            r.well_formed(),
            fits(buf@) ==> r.readable() && r.text() == buf@,
            capacity <= u32::MAX ==> r.spec_capacity() == capacity && r.spec_len()
                <= r.spec_capacity(),
    {
        proof {
            if fits(buf@) {
                lemma_fitting_range_is_whole(buf@);
            }
        }
        let len = narrow_len(buf.as_str().as_bytes().len());
        let cap = narrow_len(capacity);
        FFIString { buf, len, cap, allocated: Ghost(capacity) }
    }

    /// Wraps text for the boundary. An owned `String` is taken over as it is;
    /// any other input is first copied into a fresh buffer by its `Into`.
    /// The string that `Into` hands over becomes the source of the handle,
    /// and the size that `String::capacity` reports for it is the size the
    /// handle records.
    pub fn new<Text: Into<String>>(from: Text) -> (r: Self)
        ensures
            exists|handed: String|
                {
                    &&& call_ensures(Text::into, (from,), handed)
                    &&& call_ensures(String::capacity, (&handed,), r.allocated())
                    &&& r.source() == handed@
                },
            r.well_formed(),
            addressable(r.source()),
            fits(r.source()) ==> r.readable() && r.text() == r.source(),
    {
        FFIString::from(from.into())
    }

    /// The stored length in bytes.
    #[verifier::when_used_as_spec(spec_len)]
    pub fn len(&self) -> (n: u32)
        ensures
            n == self.spec_len(),
            n == recorded_len(self.source()),
    {
        proof {
            use_type_invariant(self);
        }
        self.len
    }

    /// The stored capacity in bytes.
    #[verifier::when_used_as_spec(spec_capacity)]
    pub fn capacity(&self) -> (n: u32)
        ensures
            n == self.spec_capacity(),
            n == narrowed(self.allocated() as nat),
    {
        proof {
            use_type_invariant(self);
        }
        self.cap
    }

    /// Tells whether the handle can be read as text.
    #[verifier::when_used_as_spec(readable)]
    pub fn is_readable(&self) -> (b: bool)
        ensures
            b == self.readable(),
    {
        self.buf.as_str().is_char_boundary(self.len as usize)
    }

    /// Reads the denoted bytes as text without taking the buffer.
    pub fn as_str(&self) -> (r: &str)
        requires
            self.readable(),
        ensures
            r@ == self.text(),
            r.spec_bytes() == self.bytes(),
            fits(self.source()) ==> r@ == self.source(),
    {
        let (head, _) = self.buf.as_str().split_at(self.len as usize);
        proof {
            use_type_invariant(self);
            encode_utf8_decode_utf8(head@);
            if fits(self.source()) {
                lemma_fitting_range_is_whole(self.source());
            }
        }
        head
    }

    /// Gives the buffer back as a `String` of the denoted text and ends the
    /// handle. Nothing is copied.
    pub fn into_string(self) -> (r: String)
        requires
            self.readable(),
        ensures
            r@ == self.text(),
            fits(self.source()) ==> r@ == self.source(),
    {
        proof {
            use_type_invariant(&self);
            if fits(self.source()) {
                lemma_fitting_range_is_whole(self.source());
            }
        }
        let mut buf = self.buf;
        let ghost before = buf@;
        buf.truncate(self.len as usize);
        proof {
            encode_utf8_decode_utf8(buf@);
            if self.len as int >= encode_utf8(before).len() {
                encode_utf8_valid_utf8(before);
                assert(encode_utf8(before).subrange(0, self.len as int) =~= encode_utf8(before));
            }
        }
        buf
    }

    /// Copies the denoted text into a `String` of its own: the display form of
    /// the handle. The handle keeps its buffer.
    pub fn to_string(&self) -> (r: String)
        requires
            self.readable(),
        ensures
            r@ == self.text(),
    {
        self.as_str().to_owned()
    }

    /// The debug form of the handle: the denoted text between two quotation
    /// marks, with nothing escaped.
    pub fn to_debug_string(&self) -> (r: String)
        requires
            self.readable(),
        ensures
            r@ == seq!['"'] + self.text() + seq!['"'],
    {
        proof {
            reveal_strlit("\"");
        }
        let mut out = String::from_str("\"");
        out.append(self.as_str());
        out.append("\"");
        assert(out@ =~= seq!['"'] + self.text() + seq!['"']);
        out
    }

    /// Makes a second, independent wrapper of the denoted text. Ownership is
    /// not shared: the text is copied into a buffer of its own, and the size
    /// that `String::capacity` reports for the copy is the size the new
    /// handle records.
    pub fn clone(&self) -> (r: Self)
        requires
            self.readable(),
        ensures
            r.source() == self.text(),
            r.well_formed(),
            r.spec_len() == self.spec_len(),
            r.readable(),
            r.text() == self.text(),
            exists|copy: String|
                copy@ == self.text() && call_ensures(String::capacity, (&copy,), r.allocated()),
    {
        proof {
            lemma_readable_range_is_prefix(self.source(), self.spec_len());
            lemma_fitting_range_is_whole(self.text());
        }
        FFIString::from(self.to_string())
    }
}

impl From<String> for FFIString {
    /// Takes over the buffer of `value` without copying it. The handle
    /// records the size that `String::capacity` reports for `value`; the
    /// stored counts are the byte length and that size, each narrowed to 32
    /// bits.
    fn from(value: String) -> (r: Self)
        ensures
            r.source() == value@,
            call_ensures(String::capacity, (&value,), r.allocated()),
            r.well_formed(),
            addressable(value@),
            fits(value@) ==> r.readable() && r.text() == value@,
    {
        let capacity = value.capacity();
        FFIString::from_parts(value, capacity)
    }
}

impl vstd::std_specs::convert::FromSpecImpl<String> for FFIString {
    /// The recorded size depends on the allocator, so the conversion is not a
    /// function of the string alone.
    open spec fn obeys_from_spec() -> bool {
        false
    }

    closed spec fn from_spec(v: String) -> Self {
        arbitrary()
    }
}

} // verus!
