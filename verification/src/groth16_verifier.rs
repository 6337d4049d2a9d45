//! Structural checks on zero-knowledge proof material for anonymous voting.
//!
//! A proof is handed in as fixed-size byte buffers. Before a vote is counted
//! the buffers must have the expected sizes and must not be all zero; a
//! malformed or zeroed proof is rejected outright.

use vstd::prelude::*;

verus! {

/// True when every byte of the sequence is zero.
pub open spec fn all_zero(s: Seq<u8>) -> bool {
    forall|i: int| 0 <= i < s.len() ==> s[i] == 0
}

/// What a structurally valid proof looks like: the three proof components and
/// the two public signals have their expected sizes and none of them is the
/// all-zero buffer.
pub open spec fn proof_structure_ok(
    proof_a: Seq<u8>,
    proof_b: Seq<u8>,
    proof_c: Seq<u8>,
    nullifier: Seq<u8>,
    commitment: Seq<u8>,
) -> bool {
    &&& proof_a.len() == 64
    &&& proof_b.len() == 128
    &&& proof_c.len() == 64
    &&& nullifier.len() == 32
    &&& commitment.len() == 32
    &&& !all_zero(proof_a)
    &&& !all_zero(proof_b)
    &&& !all_zero(proof_c)
    &&& !all_zero(nullifier)
    &&& !all_zero(commitment)
}

/// Check if byte array is all zeros.
pub fn is_zero_bytes(bytes: &[u8]) -> (r: bool)
    ensures
        r == all_zero(bytes@),
{
    let mut i: usize = 0;
    while i < bytes.len()
        invariant
            i <= bytes@.len(),
            forall|j: int| 0 <= j < i ==> bytes@[j] == 0,
        decreases bytes@.len() - i,
    {
        if bytes[i] != 0 {
            return false;
        }
        i += 1;
    }
    true
}

/// Structural verifier for a proof: checks sizes and rejects zeroed
/// components and public signals. The minimum-stake signal is carried for the
/// circuit but not inspected here.
pub fn verify_proof_structure(
    proof_a: &[u8],
    proof_b: &[u8],
    proof_c: &[u8],
    nullifier: &[u8],
    commitment: &[u8],
    _min_stake: &[u8],
) -> (r: bool)
    ensures
        r == proof_structure_ok(proof_a@, proof_b@, proof_c@, nullifier@, commitment@),
{
    if proof_a.len() != 64 || proof_b.len() != 128 || proof_c.len() != 64 {
        return false;
    }
    if nullifier.len() != 32 || commitment.len() != 32 {
        return false;
    }

    if is_zero_bytes(proof_a) || is_zero_bytes(proof_b) || is_zero_bytes(proof_c) {
        return false;
    }

    !is_zero_bytes(nullifier) && !is_zero_bytes(commitment)
}

} // verus!
