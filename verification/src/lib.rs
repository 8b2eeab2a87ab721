//! Text handles for a foreign-function boundary.
//!
//! A boundary record describes text by a start address and 32-bit counts. This
//! crate keeps the ownership side of such records in safe Rust: a borrowed
//! handle ([`FFIStr`]) and an owning handle ([`FFIString`]), each carrying the
//! counts exactly as the flat record stores them.

pub mod borrowed;
pub mod ext;
pub mod laws;
pub mod narrow;
pub mod owned;
pub mod range;
pub mod std_string;

pub use borrowed::{FFIStr, StrParts};
pub use ext::{StrToFFI, StringToFFI};
pub use owned::{FFIString, StringParts};
