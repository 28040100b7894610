//! The ways an instruction can fail.
use vstd::prelude::*;

verus! {

/// Why an instruction was refused. Each one ends the instruction with no
/// effect on any account.
#[derive(Clone, Copy, Debug, PartialEq, Eq, Structural)]
pub enum CounterError {
    /// The instruction bytes are not one of the two tagged encodings.
    InvalidInstructionData,
    /// Fewer accounts were passed than the instruction reads.
    NotEnoughAccountKeys,
    /// The counter account is not owned by this program.
    IncorrectProgramId,
    /// The count is already at its largest value.
    CountOverflow,
    /// The counter account does not hold exactly one encoded count.
    MalformedAccountData,
}

} // verus!
