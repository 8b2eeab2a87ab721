//! The borrowed handle: a read-only `{start, length}` record over text that
//! somebody else owns.

use vstd::prelude::*;
use vstd::string::*;
use vstd::utf8::*;
use crate::narrow::narrow_len;
use crate::range::{
    addressable, fits, lemma_fitting_range_is_whole, range_bytes, range_readable, range_text,
    recorded_len,
};

verus! {

/// The state of a borrowed handle.
pub struct StrParts {
    /// The text the handle points into.
    pub source: Seq<char>,
    /// The stored length.
    pub len: u32,
}

/// A non-owning view of text for a foreign boundary.
///
/// The handle borrows the text it was made from and stores its byte length
/// narrowed to 32 bits. It denotes the first `len` bytes of that text. Copying
/// the handle copies no text.
#[derive(Clone, Copy)]
pub struct FFIStr<'a> {
    text: &'a str,
    len: u32,
}

impl<'a> View for FFIStr<'a> {
    type V = StrParts;

    closed spec fn view(&self) -> StrParts {
        StrParts { source: self.text@, len: self.len }
    }
}

impl<'a> FFIStr<'a> {
    /// The text the handle was made from.
    pub open spec fn source(&self) -> Seq<char> {
        self@.source
    }

    /// The stored length.
    pub open spec fn spec_len(&self) -> u32 {
        self@.len
    }

    /// What holds of every handle: the stored length is the byte length of
    /// the source, narrowed to 32 bits.
    #[verifier::type_invariant]
    pub open spec fn well_formed(self) -> bool {
        self.spec_len() == recorded_len(self.source())
    }

    /// The bytes the handle denotes.
    pub open spec fn bytes(&self) -> Seq<u8> {
        range_bytes(self.source(), self.spec_len())
    }

    /// True when the denoted bytes end between two characters, so that they
    /// can be read as text.
    pub open spec fn readable(&self) -> bool {
        range_readable(self.source(), self.spec_len())
    }

    /// The text the handle denotes.
    pub open spec fn text(&self) -> Seq<char> {
        range_text(self.source(), self.spec_len())
    }

    /// Captures `from` without copying it. The stored length is the byte
    /// length of `from` narrowed to 32 bits; text of 2^32 bytes or more loses
    /// the high-order part of its length.
    pub fn new(from: &'a str) -> (r: Self)
        ensures
            r@ == (StrParts { source: from@, len: recorded_len(from@) }),
            addressable(from@),
            fits(from@) ==> r.readable() && r.text() == from@,
    {
        FFIStr::from(from)
    }

    /// The stored length in bytes.
    #[verifier::when_used_as_spec(spec_len)]
    pub fn len(&self) -> (n: u32)
        ensures
            n == self.spec_len(),
            n == recorded_len(self.source()),
    {
        proof {
            use_type_invariant(self);
        }
        self.len
    }

    /// Tells whether the handle can be read as text.
    #[verifier::when_used_as_spec(readable)]
    pub fn is_readable(&self) -> (b: bool)
        ensures
            b == self.readable(),
    {
        self.text.is_char_boundary(self.len as usize)
    }

    /// Reads the denoted bytes as text, for the lifetime of the borrowed
    /// source and without copying.
    pub fn as_str(&self) -> (r: &'a str)
        requires
            self.readable(),
        ensures
            r@ == self.text(),
            r.spec_bytes() == self.bytes(),
            fits(self.source()) ==> r@ == self.source(),
    {
        let (head, _) = self.text.split_at(self.len as usize);
        proof {
            use_type_invariant(self);
            encode_utf8_decode_utf8(head@);
            if fits(self.source()) {
                lemma_fitting_range_is_whole(self.source());
            }
        }
        head
    }

    /// Copies the denoted text into a `String` of its own: the display form of
    /// the handle.
    pub fn to_string(&self) -> (r: String)
        requires
            self.readable(),
        ensures
            r@ == self.text(),
    {
        self.as_str().to_owned()
    }

    /// The debug form of the handle: the denoted text between two quotation
    /// marks, with nothing escaped.
    pub fn to_debug_string(&self) -> (r: String)
        requires
            self.readable(),
        ensures
            r@ == seq!['"'] + self.text() + seq!['"'],
    {
        proof {
            reveal_strlit("\"");
        }
        let mut out = String::from_str("\"");
        out.append(self.as_str());
        out.append("\"");
        assert(out@ =~= seq!['"'] + self.text() + seq!['"']);
        out
    }
}

impl<'a> From<&'a str> for FFIStr<'a> {
    /// Captures `value` without copying it, as [`FFIStr::new`] does.
    fn from(value: &'a str) -> (r: Self)
        ensures
            r@ == (StrParts { source: value@, len: recorded_len(value@) }),
            addressable(value@),
            fits(value@) ==> r.readable() && r.text() == value@,
    {
        let count = value.as_bytes().len();
        proof {
            if fits(value@) {
                lemma_fitting_range_is_whole(value@);
            }
        }
        FFIStr { text: value, len: narrow_len(count) }
    }
}

impl<'a> vstd::std_specs::convert::FromSpecImpl<&'a str> for FFIStr<'a> {
    open spec fn obeys_from_spec() -> bool {
        true
    }

    closed spec fn from_spec(v: &'a str) -> Self {
        FFIStr { text: v, len: recorded_len(v@) }
    }
}

} // verus!
