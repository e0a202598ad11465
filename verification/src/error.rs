//! The error type shared by every table reader.

use vstd::prelude::*;

verus! {

/// Why reading a table failed.
#[derive(Clone, Copy, Debug, PartialEq, Eq, Structural)]
pub enum ParseError {
    /// The data ended before a value that should be there.
    BadEof,
    /// A value is outside the range its field allows.
    BadValue,
    /// The table has a version or format that is not understood.
    BadVersion,
    /// An offset points outside the table.
    BadOffset,
    /// An index is outside the array it refers to.
    BadIndex,
    /// A required table or value is absent.
    MissingValue,
    /// The data is compressed, and is not expanded.
    CompressionError,
    /// The data has a format that is known and not read.
    NotImplemented,
}

} // verus!
