//! The decisions of the on-chain verifier: four bounded loads, then one
//! verification, and a single exit status. The loads themselves are made by
//! the caller, which reports back whether each one succeeded.
use vstd::prelude::*;

use crate::error::ProofError;

verus! {

/// Capacity of the buffers for the parameters, the key and the proof.
pub const BLOB_CAPACITY: usize = 32768;

/// Capacity of the buffer for the output.
pub const OUTPUT_CAPACITY: usize = 32;

/// Where the verifier stands.
#[derive(Debug, Clone, Copy, PartialEq, Eq, Structural)]
pub enum Stage {
    LoadParams,
    LoadVk,
    LoadProof,
    LoadOutput,
    Verify,
    Finished,
}

/// What the caller does next.
#[derive(Debug, Clone, Copy, PartialEq, Eq, Structural)]
pub enum Action {
    /// Read at most `capacity` bytes from witness slot `slot`.
    Load { slot: usize, capacity: usize },
    /// Decode the four artifacts and verify the proof.
    Verify,
    /// Stop with this exit code.
    Exit { code: i8 },
}

/// The first step: load the parameters from slot 0.
pub fn entry_start() -> (r: (Stage, Action))
    ensures
        r == (Stage::LoadParams, Action::Load { slot: 0, capacity: 32768 }),
{
    (Stage::LoadParams, Action::Load { slot: 0, capacity: BLOB_CAPACITY })
}

/// The next step, once the action of `stage` has succeeded or failed. The
/// first failure ends the run with -1; success after verification ends it
/// with 0.
pub fn entry_step(stage: Stage, succeeded: bool) -> (r: (Stage, Action))
    requires
        stage != Stage::Finished,
    ensures
        !succeeded ==> r == (Stage::Finished, Action::Exit { code: -1i8 }),
        succeeded ==> r == match stage {
            Stage::LoadParams => (Stage::LoadVk, Action::Load { slot: 1, capacity: 32768 }),
            Stage::LoadVk => (Stage::LoadProof, Action::Load { slot: 2, capacity: 32768 }),
            Stage::LoadProof => (Stage::LoadOutput, Action::Load { slot: 3, capacity: 32 }),
            Stage::LoadOutput => (Stage::Verify, Action::Verify),
            _ => (Stage::Finished, Action::Exit { code: 0i8 }),
        },
{
    if !succeeded {
        return (Stage::Finished, Action::Exit { code: -1 });
    }
    match stage {
        Stage::LoadParams => (Stage::LoadVk, Action::Load { slot: 1, capacity: BLOB_CAPACITY }),
        Stage::LoadVk => (Stage::LoadProof, Action::Load { slot: 2, capacity: BLOB_CAPACITY }),
        Stage::LoadProof => (Stage::LoadOutput, Action::Load { slot: 3, capacity: OUTPUT_CAPACITY }),
        Stage::LoadOutput => (Stage::Verify, Action::Verify),
        _ => (Stage::Finished, Action::Exit { code: 0i8 }),
    }
}

/// The exit code of a run: 0 on success, -1 for every kind of failure.
pub fn exit_code(result: &Result<(), ProofError>) -> (r: i8)
    ensures
        r == if result is Ok { 0i8 } else { -1i8 },
{
    match result {
        Ok(()) => 0,
        Err(_) => -1,
    }
}

} // verus!
