//! The native proving flow and the verification flow, up to the proving
//! backend: what is handed to it and what its answer means.
use vstd::prelude::*;

use crate::backend::{poseidon_digest, poseidon_hash_of};
use crate::codec::{decode_output, limbs_of, message_of, pack_preimage};
use crate::error::ProofError;

verus! {

/// The circuit-size parameter: the circuit has `2^K` rows.
pub const K: u32 = 6;

/// The number of field elements in a message.
pub const MESSAGE_LEN: usize = 2;

/// The longest preimage, in bytes, that a message holds.
pub const MAX_PREIMAGE_LEN: usize = 64;

/// What a proof attests: the packed message (the private witness) and its
/// digest (the public output).
pub struct Statement {
    pub message: Vec<[u64; 4]>,
    pub output: [u8; 32],
}

impl Statement {
    pub open spec fn message_view(&self) -> Seq<Seq<u64>> {
        self.message@.map_values(|w: [u64; 4]| w@)
    }
}

/// Packs a preimage into the message and computes its digest without any
/// circuit. The digest is the public input of the proof.
pub fn prepare_statement(preimage: &[u8]) -> (r: Result<Statement, ProofError>)
    ensures
        preimage@.len() > 64 ==> r == Err::<Statement, ProofError>(
            ProofError::PreimageTooLong { length: preimage@.len() as usize, max: 64 },
        ),
        preimage@.len() <= 64 ==> r is Ok && r->Ok_0.message_view() == message_of(preimage@, 2)
            && r->Ok_0.output@ == poseidon_hash_of(message_of(preimage@, 2)),
{
    match pack_preimage(preimage, MESSAGE_LEN) {
        Err(e) => Err(e),
        Ok(message) => {
            assert(message@.map_values(|w: [u64; 4]| w@).len() == message@.len());
            let output = poseidon_digest(&message);
            Ok(Statement { message, output })
        },
    }
}

/// Decodes the public output for verification. The length is checked before
/// anything else, so a wrong length fails whatever the other artifacts hold.
pub fn prepare_verification(output_data: &[u8]) -> (r: Result<[u64; 4], ProofError>)
    ensures
        output_data@.len() != 32 ==> r == Err::<[u64; 4], ProofError>(
            ProofError::OutputLengthMismatch { length: output_data@.len() as usize },
        ),
        output_data@.len() == 32 ==> r is Ok && r->Ok_0@ == limbs_of(output_data@),
{
    decode_output(output_data)
}

/// The outcome of a verification, from the backend's answer.
pub fn conclude_verification(accepted: bool) -> (r: Result<(), ProofError>)
    ensures
        r == if accepted {
            Ok::<(), ProofError>(())
        } else {
            Err::<(), ProofError>(ProofError::ProofVerificationFailure)
        },
{
    if accepted {
        Ok(())
    } else {
        Err(ProofError::ProofVerificationFailure)
    }
}

} // verus!
