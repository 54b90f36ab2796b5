//! What can go wrong while a request is built or its response is read.

use vstd::prelude::*;

verus! {

/// The failure of one request. None of them is fatal to the connection.
#[derive(Debug, Clone, Copy, PartialEq, Eq, Structural)]
pub enum Error {
    /// A backend message arrived out of sequence; holds the tag byte of the
    /// message that arrived instead.
    UnexpectedMessage(u8),
    /// An expected message had a malformed body.
    Parse,
    /// The number of parameters supplied differs from the number the
    /// statement declares.
    Parameters { given: usize, expected: usize },
    /// The parameter at this zero-based position could not be converted to
    /// its wire form.
    ToSql(usize),
    /// A frame could not be serialized.
    Encode,
}

} // verus!
