//! What can go wrong in an operation.

use vstd::prelude::*;

verus! {

/// Why a response body was not accepted.
#[derive(Debug, Clone, Copy, PartialEq, Eq, Structural)]
pub enum DecodeError {
    /// The body is no JSON text.
    Syntax,
    /// The body is JSON, but not of the shape that the operation returns.
    Shape,
}

/// The failure of an operation. `E` is the transport's own error type.
#[derive(Debug)]
pub enum Error<E> {
    /// The transport could not complete the exchange. Its error is handed on
    /// as it came.
    Transport(E),
    /// The exchange was completed, but the body could not be decoded.
    Decode(DecodeError),
}

} // verus!
