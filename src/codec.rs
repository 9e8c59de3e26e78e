//! Little-endian packing of bytes into four 64-bit limbs, as used for the
//! public output and for the message words of a preimage.
use vstd::prelude::*;

use crate::error::ProofError;

verus! {

/// `256^n`.
pub open spec fn pow256(n: nat) -> nat
    decreases n,
{
    if n == 0 {
        1
    } else {
        256 * pow256((n - 1) as nat)
    }
}

/// The little-endian value of a byte string.
pub open spec fn word_le(s: Seq<u8>) -> nat
    decreases s.len(),
{
    if s.len() == 0 {
        0
    } else {
        s[0] as nat + 256 * word_le(s.drop_first())
    }
}

/// Byte `n` of `s`, or zero past its end.
pub open spec fn byte_at(s: Seq<u8>, n: int) -> u8 {
    if 0 <= n < s.len() {
        s[n]
    } else {
        0
    }
}

/// The eight bytes that make up limb `k` of a chunk, zero-padded.
pub open spec fn limb_bytes(s: Seq<u8>, k: int) -> Seq<u8> {
    Seq::new(8, |i: int| byte_at(s, 8 * k + i))
}

/// Limb `k` of a chunk of at most 32 bytes: byte `i` adds `byte << 8 * (i % 8)`
/// to limb `i / 8`.
pub open spec fn limb_of(s: Seq<u8>, k: int) -> nat {
    word_le(limb_bytes(s, k))
}

/// The four limbs of a chunk.
pub open spec fn limbs_of(s: Seq<u8>) -> Seq<u64> {
    Seq::new(4, |k: int| limb_of(s, k) as u64)
}

/// The integer that four little-endian limbs stand for.
pub open spec fn limbs_value(l: Seq<u64>) -> nat {
    l[0] as nat + pow256(8) * (l[1] as nat + pow256(8) * (l[2] as nat + pow256(8) * l[3] as nat))
}

proof fn lemma_word_le_bound(s: Seq<u8>)
    ensures
        word_le(s) < pow256(s.len()),
    decreases s.len(),
{
    if s.len() > 0 {
        lemma_word_le_bound(s.drop_first());
        assert(pow256(s.len()) == 256 * pow256((s.len() - 1) as nat));
    }
}

proof fn lemma_pow256_8()
    ensures
        pow256(8) == 0x1_0000_0000_0000_0000,
{
    reveal_with_fuel(pow256, 9);
}

/// Computes limb `k` of `bytes[start..end]`.
fn pack_limb(bytes: &[u8], start: usize, end: usize, k: usize) -> (r: u64)
    requires
        start <= end <= bytes@.len(),
        end - start <= 32,
        k < 4,
    ensures
        r as nat == limb_of(bytes@.subrange(start as int, end as int), k as int),
{
    let ghost s = bytes@.subrange(start as int, end as int);
    let ghost w = limb_bytes(s, k as int);
    let mut acc: u64 = 0;
    let mut i: usize = 8;
    proof {
        assert(w.subrange(8, 8) =~= Seq::<u8>::empty());
        lemma_pow256_8();
    }
    while i > 0
        invariant
            i <= 8,
            k < 4,
            start <= end <= bytes@.len(),
            end - start <= 32,
            s == bytes@.subrange(start as int, end as int),
            w == limb_bytes(s, k as int),
            pow256(8) == 0x1_0000_0000_0000_0000,
            acc as nat == word_le(w.subrange(i as int, 8)),
        decreases i,
    {
        let n: usize = 8 * k + (i - 1);
        let b: u8 = if n < end - start {
            bytes[start + n]
        } else {
            0
        };
        proof {
            let t = w.subrange(i - 1, 8);
            assert(t.drop_first() =~= w.subrange(i as int, 8));
            assert(b == w[i - 1]);
            lemma_word_le_bound(w.subrange(i as int, 8));
            assert(pow256(8) == 256 * pow256(7));
            if i < 8 {
                lemma_pow256_mono((8 - i) as nat, 7);
            }
            assert(acc as nat * 256 + 255 < 0x1_0000_0000_0000_0000) by (nonlinear_arith)
                requires
                    (acc as nat) < pow256((8 - i) as nat),
                    pow256((8 - i) as nat) <= pow256(7),
                    256 * pow256(7) == 0x1_0000_0000_0000_0000,
            ;
        }
        acc = acc * 256 + b as u64;
        i = i - 1;
    }
    proof {
        assert(w.subrange(0, 8) =~= w);
    }
    acc
}

proof fn lemma_pow256_mono(a: nat, b: nat)
    requires
        a <= b,
    ensures
        pow256(a) <= pow256(b),
    decreases b,
{
    if a < b {
        lemma_pow256_mono(a, (b - 1) as nat);
    }
}

/// Packs `bytes[start..end]` (at most 32 bytes) into four little-endian limbs.
pub fn pack_limbs(bytes: &[u8], start: usize, end: usize) -> (r: [u64; 4])
    requires
        start <= end <= bytes@.len(),
        end - start <= 32,
    ensures
        r@ == limbs_of(bytes@.subrange(start as int, end as int)),
{
    let l0 = pack_limb(bytes, start, end, 0);
    let l1 = pack_limb(bytes, start, end, 1);
    let l2 = pack_limb(bytes, start, end, 2);
    let l3 = pack_limb(bytes, start, end, 3);
    let r = [l0, l1, l2, l3];
    assert(r@ =~= limbs_of(bytes@.subrange(start as int, end as int)));
    r
}


/// Length of the public output in bytes.
pub const OUTPUT_LEN: usize = 32;

/// Bytes of preimage that one message word holds.
pub const WORD_BYTES: usize = 32;

/// Decodes the 32-byte public output into its four limbs.
pub fn decode_output(output_data: &[u8]) -> (r: Result<[u64; 4], ProofError>)
    ensures
        output_data@.len() != 32 ==> r == Err::<[u64; 4], ProofError>(
            ProofError::OutputLengthMismatch { length: output_data@.len() as usize },
        ),
        output_data@.len() == 32 ==> r is Ok && r->Ok_0@ == limbs_of(output_data@),
{
    if output_data.len() != OUTPUT_LEN {
        return Err(ProofError::OutputLengthMismatch { length: output_data.len() });
    }
    let r = pack_limbs(output_data, 0, OUTPUT_LEN);
    assert(output_data@.subrange(0, 32) =~= output_data@);
    Ok(r)
}

/// Chunk `i` of a preimage: bytes `32 i .. 32 i + 32`, cut at its end (empty
/// past it).
pub open spec fn chunk(p: Seq<u8>, i: int) -> Seq<u8> {
    let start = if 32 * i < p.len() { 32 * i } else { p.len() as int };
    let end = if 32 * i + 32 < p.len() { 32 * i + 32 } else { p.len() as int };
    p.subrange(start, end)
}

/// The `l` message words of a preimage: word `i` packs chunk `i`, and the
/// words past the preimage are zero.
pub open spec fn message_of(p: Seq<u8>, l: nat) -> Seq<Seq<u64>> {
    Seq::new(l, |i: int| limbs_of(chunk(p, i)))
}

/// Packs a preimage into `l` message words of 32 bytes each.
pub fn pack_preimage(preimage: &[u8], l: usize) -> (r: Result<Vec<[u64; 4]>, ProofError>)
    requires
        l <= usize::MAX / 32,
    ensures
        preimage@.len() > l * 32 ==> r == Err::<Vec<[u64; 4]>, ProofError>(
            ProofError::PreimageTooLong { length: preimage@.len() as usize, max: (l * 32) as usize },
        ),
        preimage@.len() <= l * 32 ==> r is Ok && r->Ok_0@.map_values(|w: [u64; 4]| w@)
            == message_of(preimage@, l as nat),
{
    let max_length = l * WORD_BYTES;
    if preimage.len() > max_length {
        return Err(ProofError::PreimageTooLong { length: preimage.len(), max: max_length });
    }
    let mut message: Vec<[u64; 4]> = Vec::new();
    let mut i: usize = 0;
    while i < l
        invariant
            i <= l,
            l <= usize::MAX / 32,
            preimage@.len() <= l * 32,
            message@.len() == i,
            forall|j: int| 0 <= j < i ==> #[trigger] message@[j]@ == limbs_of(chunk(preimage@, j)),
        decreases l - i,
    {
        let start: usize = if i * WORD_BYTES < preimage.len() {
            i * WORD_BYTES
        } else {
            preimage.len()
        };
        let end: usize = if i * WORD_BYTES + WORD_BYTES < preimage.len() {
            i * WORD_BYTES + WORD_BYTES
        } else {
            preimage.len()
        };
        let word = pack_limbs(preimage, start, end);
        message.push(word);
        i = i + 1;
    }
    assert(message@.map_values(|w: [u64; 4]| w@) =~= message_of(preimage@, l as nat));
    Ok(message)
}


proof fn lemma_word_le_concat(a: Seq<u8>, b: Seq<u8>)
    ensures
        word_le(a + b) == word_le(a) + pow256(a.len()) * word_le(b),
    decreases a.len(),
{
    if a.len() == 0 {
        assert(a + b =~= b);
    } else {
        let t = a.drop_first();
        assert((a + b).drop_first() =~= t + b);
        lemma_word_le_concat(t, b);
        assert(pow256(a.len()) == 256 * pow256(t.len()));
        assert(256 * (word_le(t) + pow256(t.len()) * word_le(b)) == 256 * word_le(t) + (256
            * pow256(t.len())) * word_le(b)) by (nonlinear_arith);
    }
}

proof fn lemma_word_le_zeros(n: nat)
    ensures
        word_le(Seq::new(n, |i: int| 0u8)) == 0,
    decreases n,
{
    if n > 0 {
        assert(Seq::new(n, |i: int| 0u8).drop_first() =~= Seq::new((n - 1) as nat, |i: int| 0u8));
        lemma_word_le_zeros((n - 1) as nat);
    }
}

/// Packing a chunk of at most 32 bytes into limbs keeps its value: the four
/// limbs, read as one little-endian integer, are the chunk read as one
/// little-endian integer. The verifier thus recovers exactly the field element
/// that the prover's output bytes encode, and each message word holds exactly
/// the integer of its chunk.
pub proof fn lemma_limbs_keep_value(s: Seq<u8>)
    requires
        s.len() <= 32,
    ensures
        limbs_value(limbs_of(s)) == word_le(s),
{
    let z = Seq::new((32 - s.len()) as nat, |i: int| 0u8);
    let p = s + z;
    let w = |k: int| p.subrange(8 * k, 8 * k + 8);
    assert forall|k: int| 0 <= k < 4 implies limb_bytes(s, k) =~= #[trigger] w(k) by {}
    assert(p =~= w(0) + (w(1) + (w(2) + w(3))));
    lemma_word_le_concat(w(2), w(3));
    lemma_word_le_concat(w(1), w(2) + w(3));
    lemma_word_le_concat(w(0), w(1) + (w(2) + w(3)));
    lemma_word_le_concat(s, z);
    lemma_word_le_zeros(z.len());
    let l = limbs_of(s);
    lemma_pow256_8();
    assert forall|k: int| 0 <= k < 4 implies (#[trigger] l[k]) as nat == word_le(w(k)) by {
        lemma_word_le_bound(limb_bytes(s, k));
    }
}

/// Each of the `l` message words of a preimage stands for the little-endian
/// integer of its 32-byte chunk; the words past the preimage stand for zero.
pub proof fn lemma_message_words_keep_value(p: Seq<u8>, l: nat, i: int)
    requires
        0 <= i < l,
    ensures
        limbs_value(message_of(p, l)[i]) == word_le(chunk(p, i)),
        32 * i >= p.len() ==> limbs_value(message_of(p, l)[i]) == 0,
{
    lemma_limbs_keep_value(chunk(p, i));
    if 32 * i >= p.len() {
        assert(chunk(p, i) =~= Seq::<u8>::empty());
    }
}


proof fn lemma_word_le_injective(a: Seq<u8>, b: Seq<u8>)
    requires
        a.len() == b.len(),
        word_le(a) == word_le(b),
    ensures
        a == b,
    decreases a.len(),
{
    if a.len() > 0 {
        let x = word_le(a.drop_first());
        let y = word_le(b.drop_first());
        let a0 = a[0] as int;
        let b0 = b[0] as int;
        assert(a0 == b0 && x == y) by (nonlinear_arith)
            requires
                a0 + 256 * x == b0 + 256 * y,
                0 <= a0 < 256,
                0 <= b0 < 256,
                x >= 0,
                y >= 0,
        ;
        lemma_word_le_injective(a.drop_first(), b.drop_first());
        assert(a =~= b) by {
            assert forall|i: int| 0 <= i < a.len() implies a[i] == b[i] by {
                if i > 0 {
                    assert(a[i] == a.drop_first()[i - 1]);
                    assert(b[i] == b.drop_first()[i - 1]);
                }
            }
        }
    } else {
        assert(a =~= b);
    }
}

/// Two outputs of 32 bytes that differ in any byte decode to different limbs:
/// changing the output changes what the verifier checks the proof against.
pub proof fn lemma_output_decoding_injective(a: Seq<u8>, b: Seq<u8>)
    requires
        a.len() == 32,
        b.len() == 32,
        a != b,
    ensures
        limbs_of(a) != limbs_of(b),
{
    lemma_limbs_keep_value(a);
    lemma_limbs_keep_value(b);
    if limbs_of(a) == limbs_of(b) {
        lemma_word_le_injective(a, b);
    }
}

} // verus!
