use poseidon_ckb_verifier::codec::{decode_output, pack_limbs, pack_preimage};
use poseidon_ckb_verifier::error::ProofError;

#[test]
fn output_limbs_are_little_endian() {
    let data: Vec<u8> = (0u8..32).collect();
    let limbs = decode_output(&data).unwrap();
    assert_eq!(
        limbs,
        [
            0x0706050403020100,
            0x0f0e0d0c0b0a0908,
            0x1716151413121110,
            0x1f1e1d1c1b1a1918
        ]
    );
}

#[test]
fn output_all_ones_fills_limbs() {
    let data = [0xffu8; 32];
    assert_eq!(decode_output(&data).unwrap(), [u64::MAX; 4]);
}

#[test]
fn output_of_31_bytes_is_rejected() {
    let data = [1u8; 31];
    assert_eq!(
        decode_output(&data),
        Err(ProofError::OutputLengthMismatch { length: 31 })
    );
}

#[test]
fn output_of_33_bytes_is_rejected() {
    let data = [0u8; 33];
    assert_eq!(
        decode_output(&data),
        Err(ProofError::OutputLengthMismatch { length: 33 })
    );
}

#[test]
fn empty_output_is_rejected() {
    assert_eq!(
        decode_output(&[]),
        Err(ProofError::OutputLengthMismatch { length: 0 })
    );
}

#[test]
fn hello_packs_into_first_word() {
    let message = pack_preimage(b"hello", 2).unwrap();
    assert_eq!(message, vec![[0x6f6c6c6568, 0, 0, 0], [0, 0, 0, 0]]);
}

#[test]
fn empty_preimage_packs_to_zero_words() {
    let message = pack_preimage(&[], 2).unwrap();
    assert_eq!(message, vec![[0u64; 4], [0u64; 4]]);
}

#[test]
fn preimage_of_33_bytes_spills_into_second_word() {
    let mut preimage = vec![0u8; 32];
    preimage.push(0xab);
    preimage[8] = 1;
    let message = pack_preimage(&preimage, 2).unwrap();
    assert_eq!(message, vec![[0, 1, 0, 0], [0xab, 0, 0, 0]]);
}

#[test]
fn preimage_of_64_bytes_fills_both_words() {
    let preimage = [0xffu8; 64];
    let message = pack_preimage(&preimage, 2).unwrap();
    assert_eq!(message, vec![[u64::MAX; 4], [u64::MAX; 4]]);
}

#[test]
fn preimage_of_65_bytes_is_rejected() {
    let preimage = [0u8; 65];
    assert_eq!(
        pack_preimage(&preimage, 2),
        Err(ProofError::PreimageTooLong { length: 65, max: 64 })
    );
}

#[test]
fn partial_chunk_is_zero_padded() {
    let bytes = [1u8, 2, 3, 4, 5, 6, 7, 8, 9, 10];
    assert_eq!(pack_limbs(&bytes, 2, 10), [0x0a09080706050403, 0, 0, 0]);
}
