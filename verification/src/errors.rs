//! The decode failure taxonomy.  Every failure is an ordinary value, never a
//! panic: the decoder reports what went wrong and how many bytes it consumed
//! so a caller can skip forward deterministically.

use vstd::prelude::*;

verus! {

/// Why a decode call failed.
#[derive(Copy, Clone, Eq, PartialEq, Structural, Debug)]
pub enum DecodeError {
    /// Fewer bytes were available than the matched form requires.
    TruncatedInput,
    /// No opcode descriptor matched, or a matched descriptor's mode
    /// constraints were violated and the relevant quirk option is not set.
    InvalidInstruction,
    /// The encoding would exceed the 15-byte architectural cap.
    InstructionTooLong,
}

/// A failed decode: the error and the number of bytes consumed before the
/// failure, so the caller can advance the cursor and keep scanning.
#[derive(Copy, Clone, Eq, PartialEq, Structural, Debug)]
pub struct DecodeFailure {
    /// What went wrong.
    pub error: DecodeError,
    /// Bytes consumed before the failure (at most 15).
    pub length: u64,
}

} // verus!
