//! Proof-of-work spam gate.
//!
//! Creating a proposal costs work instead of a fee: the SHA-256 digest of the
//! proposal description concatenated with a caller-chosen nonce, written in
//! lowercase hexadecimal, must start with a configured number of `'0'`
//! characters. Hashing and hex encoding are done by outside crates behind
//! trusted wrappers; the difficulty test itself is verified.

use vstd::prelude::*;

verus! {

/// The SHA-256 digest of a byte sequence. The digest is a pure function of
/// its input alone; nothing further is assumed about its value.
pub uninterp spec fn sha256_of(data: Seq<u8>) -> Seq<u8>;

/// Relies on sha2::Sha256 (SHA-256 as in FIPS 180-4): a deterministic
/// 32-byte digest computed from the input bytes alone.
#[verifier::external_body]
fn sha256_digest(data: &Vec<u8>) -> (r: Vec<u8>)
    ensures
        r@ == sha256_of(data@),
        r@.len() == 32,
{
    <sha2::Sha256 as sha2::Digest>::digest(data.as_slice()).to_vec()
}

/// The lowercase hex digit (as an ASCII byte) for a value below 16:
/// `'0'..'9'` then `'a'..'f'`.
pub open spec fn hex_digit(v: u8) -> u8
    recommends
        v < 16,
{
    if v < 10 {
        (48 + v) as u8
    } else {
        (87 + v) as u8
    }
}

/// The lowercase hexadecimal encoding of a byte sequence: two digits per
/// byte, high nibble first.
pub open spec fn hex_bytes_of(data: Seq<u8>) -> Seq<u8>
    decreases data.len(),
{
    if data.len() == 0 {
        Seq::empty()
    } else {
        seq![hex_digit(data[0] / 16), hex_digit(data[0] % 16)] + hex_bytes_of(data.skip(1))
    }
}

/// Relies on hex::encode: lowercase hexadecimal, exactly two digits per input
/// byte, high nibble first. The resulting text is returned as its ASCII
/// bytes.
#[verifier::external_body]
fn hex_encode(data: &Vec<u8>) -> (r: Vec<u8>)
    ensures
        r@ == hex_bytes_of(data@),
{
    hex::encode(data.as_slice()).into_bytes()
}

/// Whether a hex string (as ASCII bytes) starts with at least `difficulty`
/// `'0'` characters (ASCII 48). A difficulty longer than the string itself
/// can never be met.
pub open spec fn meets_difficulty(hex: Seq<u8>, difficulty: nat) -> bool {
    difficulty <= hex.len() && forall|i: int| 0 <= i < difficulty ==> hex[i] == 48
}

/// The proof-of-work rule for a proposal: the hex digest of
/// `description ++ nonce` starts with `difficulty` zero characters.
pub open spec fn pow_hash_ok(description: Seq<u8>, nonce: Seq<u8>, difficulty: nat) -> bool {
    meets_difficulty(hex_bytes_of(sha256_of(description + nonce)), difficulty)
}

/// Check that a hex string (as ASCII bytes) starts with at least
/// `difficulty` `'0'` characters.
pub fn pow_meets_difficulty(hex: &Vec<u8>, difficulty: u32) -> (r: bool)
    ensures
        r == meets_difficulty(hex@, difficulty as nat),
{
    let needed = difficulty as usize;
    if needed > hex.len() {
        return false;
    }
    let mut i: usize = 0;
    while i < needed
        invariant
            i <= needed,
            needed == difficulty as usize,
            needed <= hex@.len(),
            forall|j: int| 0 <= j < i ==> hex@[j] == 48,
        decreases needed - i,
    {
        if hex[i] != 48 {
            assert(!meets_difficulty(hex@, difficulty as nat)) by {
                assert(hex@[i as int] != 48);
            }
            return false;
        }
        i += 1;
    }
    true
}

/// Concatenate two byte buffers into a fresh one.
pub fn concat_bytes(a: &Vec<u8>, b: &Vec<u8>) -> (r: Vec<u8>)
    ensures
        r@ == a@ + b@,
{
    let mut r = crate::copy_bytes(a);
    let mut i: usize = 0;
    while i < b.len()
        invariant
            i <= b@.len(),
            r@ == a@ + b@.take(i as int),
        decreases b@.len() - i,
    {
        r.push(b[i]);
        assert(a@ + b@.take(i as int) + seq![b@[i as int]] =~= a@ + b@.take(i + 1));
        i += 1;
    }
    assert(a@ + b@.take(b@.len() as int) =~= a@ + b@);
    r
}

/// Run the proof-of-work test for a proposal: hash `description ++ nonce`
/// with SHA-256, hex-encode the digest, and check the leading zeros.
pub fn check_pow(description: &Vec<u8>, nonce: &Vec<u8>, difficulty: u32) -> (r: bool)
    ensures
        r == pow_hash_ok(description@, nonce@, difficulty as nat),
{
    let input = concat_bytes(description, nonce);
    let digest = sha256_digest(&input);
    let hex_result = hex_encode(&digest);
    pow_meets_difficulty(&hex_result, difficulty)
}

} // verus!
