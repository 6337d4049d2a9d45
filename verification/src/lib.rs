//! A governance and treasury-release engine.
//!
//! The library decides, from stake-weighted demurrage-adjusted votes and
//! oracle-attested real-world milestones, whether and when escrowed funds may
//! move: anonymous double-vote prevention, attestation quorum with oracle
//! reputation and slashing, and a multi-tranche milestone-gated release state
//! machine with a supermajority execution gate.
//!
//! Every operation here is a pure state transition over plain values. The
//! surrounding runtime supplies the clock, performs the actual token
//! transfers that successful operations call for, and persists the entities.

pub mod bonsol_integration;
pub mod config;
pub mod dilithium;
pub mod errors;
pub mod groth16_verifier;
pub mod oracle;
pub mod pow;
pub mod proposal;
pub mod stake;
pub mod tranche;

use vstd::prelude::*;

verus! {

/// Helper used across modules: a fresh vector of `n` zero bytes.
pub fn zero_bytes(n: usize) -> (r: Vec<u8>)
    ensures
        r@.len() == n,
        groth16_verifier::all_zero(r@),
{
    let mut r: Vec<u8> = Vec::new();
    let mut i: usize = 0;
    while i < n
        invariant
            i <= n,
            r@.len() == i,
            groth16_verifier::all_zero(r@),
        decreases n - i,
    {
        r.push(0);
        i += 1;
    }
    r
}

/// Helper used across modules: an owned copy of a byte buffer.
pub fn copy_bytes(src: &Vec<u8>) -> (r: Vec<u8>)
    ensures
        r@ == src@,
{
    let mut r: Vec<u8> = Vec::new();
    let mut i: usize = 0;
    while i < src.len()
        invariant
            i <= src@.len(),
            r@ == src@.take(i as int),
        decreases src@.len() - i,
    {
        r.push(src[i]);
        i += 1;
    }
    assert(src@.take(src@.len() as int) =~= src@);
    r
}

/// Helper used across modules: element-wise equality of two byte buffers.
pub fn bytes_eq(a: &Vec<u8>, b: &Vec<u8>) -> (r: bool)
    ensures
        r == (a@ == b@),
{
    if a.len() != b.len() {
        assert(a@ != b@);
        return false;
    }
    let mut i: usize = 0;
    while i < a.len()
        invariant
            i <= a@.len(),
            a@.len() == b@.len(),
            forall|j: int| 0 <= j < i ==> a@[j] == b@[j],
        decreases a@.len() - i,
    {
        if a[i] != b[i] {
            assert(a@ != b@);
            return false;
        }
        i += 1;
    }
    assert(a@ =~= b@);
    true
}

} // verus!
