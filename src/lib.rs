//! Poseidon preimage proofs: the byte codec, the circuit wiring plan, the
//! permutation parameters, and the decisions that run before and after the
//! proving backend.

pub mod backend;
pub mod circuit;
pub mod codec;
pub mod entry;
pub mod error;
pub mod permutation;
pub mod protocol;
