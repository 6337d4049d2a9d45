//! Post-quantum signature checks at the boundary.
//!
//! Full lattice-based signature verification happens off-chain; what arrives
//! here is the fixed-size signature material, and this module performs the
//! structural acceptance tests on it: the exact sizes of the scheme and a
//! rejection of the all-zero signature. A hybrid path pairs it with the
//! classical transaction signature, which the surrounding runtime has
//! already checked by the time these functions run.

use vstd::prelude::*;

use crate::groth16_verifier::all_zero;

verus! {

/// Public key size of the supported signature scheme, in bytes.
pub const DILITHIUM_PUBLICKEY_BYTES: usize = 1952;

/// Signature size of the supported signature scheme, in bytes.
pub const DILITHIUM_SIGNATURE_BYTES: usize = 3293;

/// Failures of the signature checks, kept distinguishable for callers.
#[derive(Clone, Copy, Debug, PartialEq, Eq, Structural)]
pub enum ErrorCode {
    /// The post-quantum signature is invalid.
    DilithiumVerificationFailed,
    /// Either the classical or the post-quantum signature is invalid.
    HybridVerificationFailed,
}

/// What the structural signature test accepts: exact signature and key
/// sizes, and a signature that is not all zero.
pub open spec fn dilithium_shape_ok(signature: Seq<u8>, public_key: Seq<u8>) -> bool {
    &&& signature.len() == DILITHIUM_SIGNATURE_BYTES
    &&& public_key.len() == DILITHIUM_PUBLICKEY_BYTES
    &&& !all_zero(signature)
}

/// Structural check of a post-quantum signature: the sizes must match the
/// scheme exactly and the signature must not be the all-zero buffer. A
/// malformed buffer yields `Ok(false)`, never an error.
pub fn verify_dilithium_signature(_message: &[u8], signature: &[u8], public_key: &[u8]) -> (r:
    Result<bool, ErrorCode>)
    ensures
        r == Ok::<bool, ErrorCode>(dilithium_shape_ok(signature@, public_key@)),
{
    if signature.len() != DILITHIUM_SIGNATURE_BYTES {
        return Ok(false);
    }
    if public_key.len() != DILITHIUM_PUBLICKEY_BYTES {
        return Ok(false);
    }
    if crate::groth16_verifier::is_zero_bytes(signature) {
        return Ok(false);
    }
    Ok(true)
}

/// Hybrid check: the classical signature is implicit (the runtime has
/// verified the transaction's signer before this code runs), so the outcome
/// is that of the post-quantum structural check; a failing signature is
/// surfaced as an error so the enclosing operation aborts.
pub fn verify_hybrid_signature(
    message: &[u8],
    _eddsa_signer: u64,
    dilithium_signature: &[u8],
    dilithium_pubkey: &[u8],
) -> (r: Result<bool, ErrorCode>)
    ensures
        dilithium_shape_ok(dilithium_signature@, dilithium_pubkey@) ==> r == Ok::<bool, ErrorCode>(
            true,
        ),
        !dilithium_shape_ok(dilithium_signature@, dilithium_pubkey@) ==> r == Err::<
            bool,
            ErrorCode,
        >(ErrorCode::HybridVerificationFailed),
{
    let dilithium_valid = match verify_dilithium_signature(
        message,
        dilithium_signature,
        dilithium_pubkey,
    ) {
        Ok(v) => v,
        Err(e) => {
            return Err(e);
        },
    };
    if !dilithium_valid {
        return Err(ErrorCode::HybridVerificationFailed);
    }
    Ok(true)
}

} // verus!
