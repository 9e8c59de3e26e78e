//! The failures of proving and verifying.
use vstd::prelude::*;

verus! {

/// Why a proof could not be produced or was not accepted.
#[derive(Debug, Clone, Copy, PartialEq, Eq, Structural)]
pub enum ProofError {
    /// A witness slot could not be read, or did not fit its buffer.
    WitnessLoadFailure,
    /// The proving parameters could not be decoded.
    ParamsDecodeFailure,
    /// The verifying key could not be decoded or rebuilt.
    VerifyingKeyDecodeFailure,
    /// The output was not exactly 32 bytes long.
    OutputLengthMismatch { length: usize },
    /// The preimage is longer than the message can hold.
    PreimageTooLong { length: usize, max: usize },
    /// The proof does not attest the output under the key and parameters.
    ProofVerificationFailure,
}

} // verus!
