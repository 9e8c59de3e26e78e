//! The Poseidon primitive, reached through trusted items. Field elements cross
//! this boundary as little-endian limbs and bytes.
use vstd::prelude::*;

use halo2_gadgets::poseidon::primitives::{self as poseidon, ConstantLength, P128Pow5T3};
use halo2_proofs::arithmetic::Field;
use halo2_proofs::pasta::Fp;

use crate::codec::{limbs_value, word_le};

verus! {

/// The order of the Pallas base field, in which every message word, digest
/// and S-box value lives.
pub open spec fn pallas_modulus() -> nat {
    0x40000000000000000000000000000000224698fc094cf91b992d30ed00000001nat
}

/// The Poseidon digest (width 3, rate 2, 8 full and 56 partial rounds, x^5
/// S-box, constant-length domain) of a message of field elements given as
/// limbs, in its canonical little-endian encoding.
pub uninterp spec fn poseidon_hash_of(message: Seq<Seq<u64>>) -> Seq<u8>;

/// Relies on `halo2_poseidon::Hash::<Fp, P128Pow5T3, ConstantLength<2>, 3, 2>::hash`
/// and on `From<Fp> for [u8; 32]`: the digest depends on the message alone and
/// comes out as the canonical encoding of a field element. `P128Pow5T3` holds
/// the constants that `generate_constants` gives for these parameters with no
/// MDS security search, as halo2_poseidon's own tests check.
#[verifier::external_body]
pub(crate) fn poseidon_digest(message: &Vec<[u64; 4]>) -> (r: [u8; 32])
    requires
        message@.len() == 2,
    ensures
        r@ == poseidon_hash_of(message@.map_values(|w: [u64; 4]| w@)),
        word_le(r@) < pallas_modulus(),
{
    let words = [Fp::from_raw(message[0]), Fp::from_raw(message[1])];
    poseidon::Hash::<Fp, P128Pow5T3, ConstantLength<2>, 3, 2>::init().hash(words).into()
}

/// Relies on `Fp::from_raw` (the limbs taken modulo the field order), on
/// `Field::pow_vartime` and on `From<Fp> for [u8; 32]` (canonical
/// little-endian bytes).
#[verifier::external_body]
pub(crate) fn pow_bytes(x: [u64; 4], e: u64) -> (r: [u8; 32])
    ensures
        word_le(r@) == vstd::arithmetic::power::pow((limbs_value(x@) % pallas_modulus()) as int, e as nat) % (pallas_modulus() as int),
{
    Fp::from_raw(x).pow_vartime([e]).into()
}

} // verus!
