//! The Poseidon permutation parameters for a state width and rate.
use vstd::prelude::*;

use crate::backend::{pallas_modulus, pow_bytes};
use crate::codec::{limbs_value, word_le};

verus! {

/// Poseidon with the x^5 S-box, 8 full rounds and 56 partial rounds, for a
/// state of `WIDTH` field elements that absorbs `RATE` of them at a time.
#[derive(Debug, Clone, Copy)]
pub struct MySpec<const WIDTH: usize, const RATE: usize>;

/// The (width, rate) pairs for which the permutation is defined.
pub open spec fn supported(width: nat, rate: nat) -> bool {
    (width == 3 && rate == 2) || (width == 9 && rate == 8) || (width == 12 && rate == 11)
}

/// The exponent of the S-box.
pub const SBOX_EXPONENT: u64 = 5;

impl<const WIDTH: usize, const RATE: usize> MySpec<WIDTH, RATE> {
    /// Whether this instance is one of the supported ones.
    pub fn is_supported() -> (r: bool)
        ensures
            r == supported(WIDTH as nat, RATE as nat),
    {
        (WIDTH == 3 && RATE == 2) || (WIDTH == 9 && RATE == 8) || (WIDTH == 12 && RATE == 11)
    }

    /// The number of full rounds.
    pub fn full_rounds() -> (r: usize)
        ensures
            r == 8,
    {
        8
    }

    /// The number of partial rounds.
    pub fn partial_rounds() -> (r: usize)
        ensures
            r == 56,
    {
        56
    }

    /// The MDS security level: no search for a secure matrix is made.
    pub fn secure_mds() -> (r: usize)
        ensures
            r == 0,
    {
        0
    }

    /// The S-box `x ^ 5` on a field element given as limbs, returned in its
    /// canonical encoding.
    pub fn sbox(val: [u64; 4]) -> (r: [u8; 32])
        ensures
            word_le(r@) == vstd::arithmetic::power::pow(
                (limbs_value(val@) % pallas_modulus()) as int,
                5,
            ) % (pallas_modulus() as int),
    {
        pow_bytes(val, SBOX_EXPONENT)
    }
}

} // verus!
