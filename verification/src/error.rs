//! Structural decode failures.

use vstd::prelude::*;

verus! {

/// A structural failure while decoding an encoded map against a schema.
///
/// Semantic or policy failures (a PIN protocol that was never established,
/// an extension that is not permitted) are the caller's to detect; the
/// schema layer reports only the shape of the data.
#[derive(Clone, Copy, Debug, PartialEq, Eq, Structural)]
pub enum SchemaError {
    /// A required field's key is not present at its position.
    MissingField,
    /// A key is present but its value has the wrong type.
    WrongType,
    /// A byte field's length is not one the schema admits.
    InvalidLength,
    /// A key is unknown to the schema, repeated, or out of ascending order.
    InvalidKey,
    /// A list or buffer is longer than its fixed capacity.
    TooLong,
}

} // verus!
