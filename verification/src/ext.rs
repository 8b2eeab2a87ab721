//! Method-call sugar: handles straight from `str` and `String`.

use vstd::prelude::*;
use vstd::string::*;
use crate::borrowed::FFIStr;
use crate::owned::FFIString;
use crate::range::{addressable, fits};

verus! {

/// Adds `to_ffi_str()` and `to_ffi_string()` to `str`.
pub trait StrToFFI {
    /// The text of the value.
    spec fn text(&self) -> Seq<char>;

    /// A borrowed handle over the value; no text is copied.
    fn to_ffi_str<'a>(&'a self) -> (r: FFIStr<'a>)
        ensures
            r.source() == self.text(),
            r.well_formed(),
            addressable(self.text()),
            fits(self.text()) ==> r.readable() && r.text() == self.text(),
    ;

    /// An owning handle over a fresh copy of the value. The handle records
    /// the size that `String::capacity` reports for the copy.
    fn to_ffi_string(&self) -> (r: FFIString)
        ensures
            r.source() == self.text(),
            r.well_formed(),
            exists|copy: String|
                copy@ == self.text() && call_ensures(String::capacity, (&copy,), r.allocated()),
            addressable(self.text()),
            fits(self.text()) ==> r.readable() && r.text() == self.text(),
    ;
}

impl StrToFFI for str {
    open spec fn text(&self) -> Seq<char> {
        self@
    }

    fn to_ffi_str<'a>(&'a self) -> (r: FFIStr<'a>) {
        FFIStr::new(self)
    }

    fn to_ffi_string(&self) -> (r: FFIString) {
        FFIString::new(self)
    }
}

/// Adds `into_ffi_string()` to `String`.
pub trait StringToFFI: Sized {
    /// The text of the value.
    spec fn text(&self) -> Seq<char>;

    /// An owning handle that takes over the value's buffer; no text is copied.
    /// The handle records the size that `String::capacity` reports for the
    /// buffer.
    fn into_ffi_string(self) -> (r: FFIString)
        ensures
            r.source() == self.text(),
            r.well_formed(),
            exists|owned: String|
                owned@ == self.text() && call_ensures(String::capacity, (&owned,), r.allocated()),
            addressable(self.text()),
            fits(self.text()) ==> r.readable() && r.text() == self.text(),
    ;
}

impl StringToFFI for String {
    open spec fn text(&self) -> Seq<char> {
        self@
    }

    fn into_ffi_string(self) -> (r: FFIString)
        ensures
            call_ensures(String::capacity, (&self,), r.allocated()),
    {
        FFIString::new(self)
    }
}

} // verus!
