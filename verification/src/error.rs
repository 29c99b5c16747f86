//! The error taxonomy of the settlement core.
//!
//! Every guard in the instruction handlers aborts the enclosing call with
//! one of these values; nothing is caught or recovered inside the core
//! except the deliberate proof-rejected translation in the compute step.

use vstd::prelude::*;

verus! {

#[derive(Clone, Copy, PartialEq, Eq, Structural, Debug)]
pub enum ElusivError {
    /// Identity, ownership or address mismatch on a supplied account.
    InvalidAccount,
    /// A state-machine precondition was violated.
    InvalidAccountState,
    /// A supplied Merkle root matches neither the active tree nor a
    /// closed tree's frozen root.
    InvalidMerkleRoot,
    /// The statement fails a structural check.
    InvalidPublicInputs,
    /// A malformed or out-of-range payload value.
    InvalidInstructionData,
    /// A recomputed binding value does not equal the declared one.
    InputsMismatch,
    /// A sibling instruction in the transaction violates the expected
    /// ordering.
    InvalidOtherInstruction,
    /// The verdict is already recorded.
    ComputationIsAlreadyFinished,
    /// The verdict is not recorded yet.
    ComputationIsNotYetFinished,
    /// The nullifier hash is already present (or the set is out of room).
    CouldNotInsertNullifier,
    InvalidFeeVersion,
    /// The requested path is not available (the migrate statement).
    FeatureNotAvailable,
    QueueIsFull,
    QueueIsEmpty,
    /// A checked arithmetic operation failed.
    MathError,
}

} // verus!
