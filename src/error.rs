//! The two kinds of failure an operation can report.

use vstd::prelude::*;

verus! {

/// A register byte that holds a code the chip does not define, in a field
/// whose policy is to refuse such codes.
#[derive(Clone, Copy, Debug, PartialEq, Eq, Structural)]
pub enum ModelError {
    /// The whole raw byte, for diagnostics.
    InvalidValueU8(u8),
}

/// The failure of an operation that both talks to the bus and validates
/// what it read.
#[derive(Debug)]
pub enum OperationError<E> {
    /// The transport failed; its error is handed on unchanged.
    I2CError(E),
    /// The transport succeeded but the byte it read could not be decoded.
    ModelError(ModelError),
}

} // verus!
