//! Typed attribute values and the property event interface.

use crate::error::GeozeroError;
use vstd::prelude::*;

verus! {

/// One typed attribute value of a feature: exactly one of a closed set of
/// scalar and opaque kinds.
///
/// The single- and double-precision kinds carry the decimal text of the
/// value rather than a machine float: the protocol reads a float only to
/// render its decimal notation, and the text form is what every consumer of
/// the value observes. The opaque kinds (`Json`, `Binary`) carry data that a
/// sink may be unable to render; such a sink skips them without aborting the
/// pass.
#[derive(Clone, Copy, Debug, PartialEq, Eq)]
pub enum ColumnValue<'a> {
    /// Signed byte.
    Byte(i8),
    /// Unsigned byte.
    UByte(u8),
    /// Boolean.
    Bool(bool),
    /// Signed short.
    Short(i16),
    /// Unsigned short.
    UShort(u16),
    /// Signed 32-bit integer.
    Int(i32),
    /// Unsigned 32-bit integer.
    UInt(u32),
    /// Signed 64-bit integer.
    Long(i64),
    /// Unsigned 64-bit integer.
    ULong(u64),
    /// Single-precision value, as its decimal text.
    Float(&'a str),
    /// Double-precision value, as its decimal text.
    Double(&'a str),
    /// UTF-8 string.
    String(&'a str),
    /// Opaque structured (JSON-like) blob.
    Json(&'a str),
    /// Opaque binary blob.
    Binary(&'a [u8]),
    /// Date-time string.
    DateTime(&'a str),
}

/// The capability of receiving one typed attribute value at a time.
pub trait PropertyProcessor {
    /// Receives the property with zero-based ordinal `idx` within its
    /// feature's property block, named `colname`, holding `colval`. Returns
    /// `Ok(true)` when the driver should stop offering further properties for
    /// this feature. A sink that cannot render the kind of `colval` performs
    /// a no-op for the call rather than failing, and still returns a valid
    /// continuation signal.
    fn property(&mut self, idx: usize, colname: &str, colval: &ColumnValue) -> Result<
        bool,
        GeozeroError,
    >;
}

} // verus!
