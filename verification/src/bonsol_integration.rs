//! Acceptance checks on externally verified proof executions.
//!
//! A proving service runs the heavy verification off-chain and leaves behind
//! an execution record: the circuit image that ran, the public inputs
//! (commitment and nullifier), the vote, and whether the service verified
//! it. Before such a record is trusted, this module checks it against what
//! the caller expected.

use vstd::prelude::*;

verus! {

/// An execution record left by the external proving service.
#[derive(Clone, Debug, PartialEq, Eq)]
pub struct BonsolExecution {
    /// Image of the circuit that was executed.
    pub image_id: Vec<u8>,
    /// Commitment public input.
    pub commitment: Vec<u8>,
    /// Nullifier public input.
    pub nullifier: Vec<u8>,
    /// The vote choice public input: 0 or 1.
    pub vote: u8,
    /// When the proof was generated.
    pub timestamp: i64,
    /// Whether the proving service verified the execution.
    pub verified: bool,
}

/// Failures of the execution checks, kept distinguishable for callers.
#[derive(Clone, Copy, Debug, PartialEq, Eq, Structural)]
pub enum ErrorCode {
    /// The proving service did not verify the execution.
    BonsolVerificationFailed,
    /// The execution ran a different circuit image.
    InvalidImageId,
    /// The commitment does not match the registered value.
    CommitmentMismatch,
    /// The vote choice must be 0 or 1.
    InvalidVote,
}

/// Why an execution record is rejected, checked in this order; `None` means
/// it is accepted.
pub open spec fn bonsol_proof_err(
    execution: BonsolExecution,
    expected_image_id: Seq<u8>,
    expected_commitment: Seq<u8>,
) -> Option<ErrorCode> {
    if !execution.verified {
        Some(ErrorCode::BonsolVerificationFailed)
    } else if execution.image_id@ != expected_image_id {
        Some(ErrorCode::InvalidImageId)
    } else if execution.commitment@ != expected_commitment {
        Some(ErrorCode::CommitmentMismatch)
    } else if execution.vote != 0 && execution.vote != 1 {
        Some(ErrorCode::InvalidVote)
    } else {
        None
    }
}

/// Accept an execution record: it must be verified by the proving service,
/// have run the expected circuit image against the expected commitment, and
/// carry a binary vote. On acceptance the nullifier and the vote (as a
/// boolean) are handed out.
pub fn verify_bonsol_proof(
    execution: &BonsolExecution,
    expected_image_id: &Vec<u8>,
    expected_commitment: &Vec<u8>,
    _proposal_id: &Vec<u8>,
) -> (r: Result<(Vec<u8>, bool), ErrorCode>)
    ensures
        match bonsol_proof_err(*execution, expected_image_id@, expected_commitment@) {
            Some(e) => r == Err::<(Vec<u8>, bool), ErrorCode>(e),
            None => (r matches Ok(out) && out.0@ == execution.nullifier@ && out.1 == (
            execution.vote == 1)),
        },
{
    if !execution.verified {
        return Err(ErrorCode::BonsolVerificationFailed);
    }
    if !crate::bytes_eq(&execution.image_id, expected_image_id) {
        return Err(ErrorCode::InvalidImageId);
    }
    if !crate::bytes_eq(&execution.commitment, expected_commitment) {
        return Err(ErrorCode::CommitmentMismatch);
    }
    if execution.vote != 0 && execution.vote != 1 {
        return Err(ErrorCode::InvalidVote);
    }

    let nullifier = crate::copy_bytes(&execution.nullifier);
    let vote = execution.vote == 1;
    Ok((nullifier, vote))
}

} // verus!
