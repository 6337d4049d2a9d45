//! Spend proposals and the anonymous vote engine.
//!
//! A proposal is opened behind the proof-of-work spam gate and accepts
//! stake-weighted votes until it expires. Each (proposal, voter) pair owns
//! one `VoteRecord`; once it shows a vote, every further vote from the same
//! registration is rejected with a state conflict and the proposal's
//! accumulated weight is left untouched. Funds are released once the
//! accumulated weight reaches the configured threshold, exactly once.

use vstd::prelude::*;

use crate::config::GlobalConfig;
use crate::errors::ErrorCode;
use crate::groth16_verifier;
use crate::pow;
use crate::stake::Stake;
use crate::stake;

verus! {

/// Longest accepted proposal description, in bytes.
pub const MAX_DESCRIPTION_LEN: usize = 200;

/// Largest funding a single proposal may request.
pub const MAX_FUNDING: u64 = 1_000_000_000_000;

/// A spend proposal.
#[derive(Clone, Debug, PartialEq, Eq)]
pub struct Proposal {
    pub id: u64,
    /// Identity that created the proposal.
    pub creator: u64,
    /// What the funds are for.
    pub description: Vec<u8>,
    /// Amount requested from the treasury.
    pub funding_needed: u64,
    /// Accumulated vote weight.
    pub votes: u64,
    /// Set exactly once, when the funds are released.
    pub funded: bool,
    /// Identity of the treasury that escrows the funds.
    pub treasury: u64,
    /// The nonce that met the proof-of-work gate.
    pub pow_hash: Vec<u8>,
    pub created_at: u64,
    /// Voting closes at this time; release is not gated by it.
    pub expires_at: u64,
}

/// One vote slot per (proposal, voter) pair. `has_voted` is write-once.
#[derive(Clone, Debug, PartialEq, Eq)]
pub struct VoteRecord {
    pub has_voted: bool,
    pub vote_weight: u64,
    pub voted_at: u64,
    /// The nullifier revealed by an anonymous vote; all zero for the
    /// non-anonymous path.
    pub nullifier: Vec<u8>,
}

/// The record emitted for every successful vote, without revealing the voter.
#[derive(Clone, Debug, PartialEq, Eq)]
pub struct VoteEvent {
    pub proposal_id: u64,
    pub nullifier: Vec<u8>,
    pub vote_weight: u64,
    pub timestamp: u64,
}

/// A fresh vote slot: no vote yet, zero weight, zero nullifier.
pub fn new_vote_record() -> (r: VoteRecord)
    ensures
        !r.has_voted,
        r.vote_weight == 0,
        r.voted_at == 0,
        r.nullifier@.len() == 32,
        groth16_verifier::all_zero(r.nullifier@),
{
    VoteRecord { has_voted: false, vote_weight: 0, voted_at: 0, nullifier: crate::zero_bytes(32) }
}

/// Why creating a proposal fails, checked in this order; `None` means it is
/// accepted.
pub open spec fn create_proposal_err(
    config: GlobalConfig,
    description: Seq<u8>,
    funding_needed: u64,
    pow_nonce: Seq<u8>,
    now: u64,
) -> Option<ErrorCode> {
    if description.len() > MAX_DESCRIPTION_LEN {
        Some(ErrorCode::DescriptionTooLong)
    } else if funding_needed > MAX_FUNDING {
        Some(ErrorCode::FundingTooHigh)
    } else if !pow::pow_hash_ok(description, pow_nonce, config.pow_difficulty as nat) {
        Some(ErrorCode::InvalidPoW)
    } else if now + config.proposal_duration_seconds > u64::MAX {
        Some(ErrorCode::ArithmeticOverflow)
    } else {
        None
    }
}

/// Open a proposal: reject oversize descriptions and funding, demand the
/// proof-of-work on `description ++ pow_nonce`, and set the voting window.
/// On rejection no proposal is created.
pub fn create_proposal(
    config: &GlobalConfig,
    id: u64,
    creator: u64,
    treasury: u64,
    description: Vec<u8>,
    funding_needed: u64,
    pow_nonce: Vec<u8>,
    now: u64,
) -> (r: Result<Proposal, ErrorCode>)
    ensures
        match create_proposal_err(*config, description@, funding_needed, pow_nonce@, now) {
            Some(e) => r == Err::<Proposal, ErrorCode>(e),
            None => r matches Ok(p) && p == (Proposal {
                id,
                creator,
                description,
                funding_needed,
                votes: 0,
                funded: false,
                treasury,
                pow_hash: pow_nonce,
                created_at: now,
                expires_at: (now + config.proposal_duration_seconds) as u64,
            }),
        },
{
    if description.len() > MAX_DESCRIPTION_LEN {
        return Err(ErrorCode::DescriptionTooLong);
    }
    if funding_needed > MAX_FUNDING {
        return Err(ErrorCode::FundingTooHigh);
    }
    if !pow::check_pow(&description, &pow_nonce, config.pow_difficulty) {
        return Err(ErrorCode::InvalidPoW);
    }
    let expires_at = match now.checked_add(config.proposal_duration_seconds) {
        Some(v) => v,
        None => {
            return Err(ErrorCode::ArithmeticOverflow);
        },
    };
    Ok(Proposal {
        id,
        creator,
        description,
        funding_needed,
        votes: 0,
        funded: false,
        treasury,
        pow_hash: pow_nonce,
        created_at: now,
        expires_at,
    })
}

/// Why an anonymous vote fails, checked in this order; `None` means the vote
/// is counted.
pub open spec fn vote_with_zk_err(
    proposal: Proposal,
    stake_entry: Stake,
    record: VoteRecord,
    config: GlobalConfig,
    nullifier: Seq<u8>,
    commitment: Seq<u8>,
    proof_a: Seq<u8>,
    proof_b: Seq<u8>,
    proof_c: Seq<u8>,
    now: u64,
) -> Option<ErrorCode> {
    if now > proposal.expires_at {
        Some(ErrorCode::ProposalExpired)
    } else if !groth16_verifier::proof_structure_ok(proof_a, proof_b, proof_c, nullifier, commitment) {
        Some(ErrorCode::InvalidZKProof)
    } else if stake_entry.commitment@ != commitment {
        Some(ErrorCode::CommitmentMismatch)
    } else if record.has_voted {
        Some(ErrorCode::AlreadyVoted)
    } else if !stake::vote_weight_fits(stake_entry, config.demurrage_rate, now) {
        Some(ErrorCode::ArithmeticOverflow)
    } else if proposal.votes + stake::vote_weight_of(stake_entry, config.demurrage_rate, now)
        > u64::MAX {
        Some(ErrorCode::ArithmeticOverflow)
    } else {
        None
    }
}

/// Cast an anonymous vote: the proposal must still be open, the proof must
/// be structurally valid against the nullifier and commitment, the
/// commitment must be the one registered on the voter's stake, and the vote
/// slot must be unused. The vote adds the voter's current decayed stake
/// weight to the proposal and marks the slot voted; on any rejection both
/// the proposal and the slot are left exactly as they were.
pub fn vote_with_zk(
    proposal: &mut Proposal,
    stake_entry: &Stake,
    vote_record: &mut VoteRecord,
    config: &GlobalConfig,
    nullifier: &Vec<u8>,
    commitment: &Vec<u8>,
    proof_a: &Vec<u8>,
    proof_b: &Vec<u8>,
    proof_c: &Vec<u8>,
    now: u64,
) -> (r: Result<VoteEvent, ErrorCode>)
    ensures
        match vote_with_zk_err(
            *old(proposal),
            *stake_entry,
            *old(vote_record),
            *config,
            nullifier@,
            commitment@,
            proof_a@,
            proof_b@,
            proof_c@,
            now,
        ) {
            Some(e) => r == Err::<VoteEvent, ErrorCode>(e) && *final(proposal) == *old(proposal)
                && *final(vote_record) == *old(vote_record),
            None => {
                let weight = stake::vote_weight_of(*stake_entry, config.demurrage_rate, now);
                &&& r matches Ok(ev)
                &&& ev.proposal_id == old(proposal).id
                &&& ev.nullifier@ == nullifier@
                &&& ev.vote_weight == weight
                &&& ev.timestamp == now
                &&& final(proposal).votes == old(proposal).votes + weight
                &&& *final(proposal) == (Proposal { votes: final(proposal).votes, ..*old(proposal) })
                &&& final(vote_record).has_voted
                &&& final(vote_record).vote_weight == weight
                &&& final(vote_record).voted_at == now
                &&& final(vote_record).nullifier@ == nullifier@
            },
        },
{
    if now > proposal.expires_at {
        return Err(ErrorCode::ProposalExpired);
    }

    let min_stake = crate::zero_bytes(32);
    let proof_valid = groth16_verifier::verify_proof_structure(
        proof_a.as_slice(),
        proof_b.as_slice(),
        proof_c.as_slice(),
        nullifier.as_slice(),
        commitment.as_slice(),
        min_stake.as_slice(),
    );
    if !proof_valid {
        return Err(ErrorCode::InvalidZKProof);
    }

    if !crate::bytes_eq(&stake_entry.commitment, commitment) {
        return Err(ErrorCode::CommitmentMismatch);
    }

    if vote_record.has_voted {
        return Err(ErrorCode::AlreadyVoted);
    }

    let weight = match stake::decayed_weight(
        stake_entry.amount,
        config.demurrage_rate,
        stake_entry.last_demurrage,
        now,
    ) {
        Ok(w) => w,
        Err(e) => {
            return Err(e);
        },
    };

    let new_votes = match proposal.votes.checked_add(weight) {
        Some(v) => v,
        None => {
            return Err(ErrorCode::ArithmeticOverflow);
        },
    };

    proposal.votes = new_votes;
    vote_record.nullifier = crate::copy_bytes(nullifier);
    vote_record.has_voted = true;
    vote_record.voted_at = now;
    vote_record.vote_weight = weight;

    Ok(VoteEvent {
        proposal_id: proposal.id,
        nullifier: crate::copy_bytes(nullifier),
        vote_weight: weight,
        timestamp: now,
    })
}

/// Why a non-anonymous vote fails, checked in this order; `None` means the
/// vote is counted.
pub open spec fn vote_insecure_err(
    proposal: Proposal,
    stake_entry: Stake,
    record: VoteRecord,
    config: GlobalConfig,
    now: u64,
) -> Option<ErrorCode> {
    if record.has_voted {
        Some(ErrorCode::AlreadyVoted)
    } else if now > proposal.expires_at {
        Some(ErrorCode::ProposalExpired)
    } else if !stake::vote_weight_fits(stake_entry, config.demurrage_rate, now) {
        Some(ErrorCode::ArithmeticOverflow)
    } else if proposal.votes + stake::vote_weight_of(stake_entry, config.demurrage_rate, now)
        > u64::MAX {
        Some(ErrorCode::ArithmeticOverflow)
    } else {
        None
    }
}

/// The non-anonymous fallback vote: keyed directly by voter identity, with
/// no proof and no anonymity. It carries the same double-vote protection and
/// the same decayed weight rule as the anonymous path.
pub fn vote_insecure(
    proposal: &mut Proposal,
    stake_entry: &Stake,
    vote_record: &mut VoteRecord,
    config: &GlobalConfig,
    now: u64,
) -> (r: Result<(), ErrorCode>)
    ensures
        match vote_insecure_err(*old(proposal), *stake_entry, *old(vote_record), *config, now) {
            Some(e) => r == Err::<(), ErrorCode>(e) && *final(proposal) == *old(proposal)
                && *final(vote_record) == *old(vote_record),
            None => {
                let weight = stake::vote_weight_of(*stake_entry, config.demurrage_rate, now);
                &&& r is Ok
                &&& final(proposal).votes == old(proposal).votes + weight
                &&& *final(proposal) == (Proposal { votes: final(proposal).votes, ..*old(proposal) })
                &&& final(vote_record).has_voted
                &&& final(vote_record).vote_weight == weight
                &&& final(vote_record).voted_at == now
                &&& final(vote_record).nullifier@.len() == 32
                &&& groth16_verifier::all_zero(final(vote_record).nullifier@)
            },
        },
{
    if vote_record.has_voted {
        return Err(ErrorCode::AlreadyVoted);
    }
    if now > proposal.expires_at {
        return Err(ErrorCode::ProposalExpired);
    }

    let weight = match stake::decayed_weight(
        stake_entry.amount,
        config.demurrage_rate,
        stake_entry.last_demurrage,
        now,
    ) {
        Ok(w) => w,
        Err(e) => {
            return Err(e);
        },
    };

    let new_votes = match proposal.votes.checked_add(weight) {
        Some(v) => v,
        None => {
            return Err(ErrorCode::ArithmeticOverflow);
        },
    };

    proposal.votes = new_votes;
    vote_record.has_voted = true;
    vote_record.vote_weight = weight;
    vote_record.voted_at = now;
    vote_record.nullifier = crate::zero_bytes(32);

    Ok(())
}

/// No double vote: once a record shows a vote, every further vote on the
/// same (proposal, voter) pair is rejected, whatever nullifier, commitment
/// or proof is supplied, on the anonymous and the fallback path alike; and
/// whenever the gates checked before the vote slot (expiry, proof shape,
/// registered commitment) pass, the rejection is exactly the already-voted
/// state conflict. Together with the vote operations' own contracts (a
/// rejected vote leaves the proposal and the record exactly as they were)
/// this rules out counting the same registration twice.
pub proof fn lemma_no_double_vote(
    proposal: Proposal,
    stake_entry: Stake,
    record: VoteRecord,
    config: GlobalConfig,
    nullifier: Seq<u8>,
    commitment: Seq<u8>,
    proof_a: Seq<u8>,
    proof_b: Seq<u8>,
    proof_c: Seq<u8>,
    now: u64,
)
    requires
        record.has_voted,
    ensures
        vote_with_zk_err(
            proposal,
            stake_entry,
            record,
            config,
            nullifier,
            commitment,
            proof_a,
            proof_b,
            proof_c,
            now,
        ) is Some,
        now <= proposal.expires_at && groth16_verifier::proof_structure_ok(
            proof_a,
            proof_b,
            proof_c,
            nullifier,
            commitment,
        ) && stake_entry.commitment@ == commitment ==> vote_with_zk_err(
            proposal,
            stake_entry,
            record,
            config,
            nullifier,
            commitment,
            proof_a,
            proof_b,
            proof_c,
            now,
        ) == Some(ErrorCode::AlreadyVoted),
        vote_insecure_err(proposal, stake_entry, record, config, now) == Some(
            ErrorCode::AlreadyVoted,
        ),
{
}

/// Why a release fails, checked in this order; `None` means the funds move.
pub open spec fn release_funds_err(
    proposal: Proposal,
    config: GlobalConfig,
    treasury_balance: u64,
) -> Option<ErrorCode> {
    if proposal.votes < config.voting_threshold {
        Some(ErrorCode::InsufficientVotes)
    } else if proposal.funded {
        Some(ErrorCode::AlreadyFunded)
    } else if treasury_balance < proposal.funding_needed {
        Some(ErrorCode::InsufficientTreasuryBalance)
    } else {
        None
    }
}

/// Release the requested funds once the accumulated weight has reached the
/// configured threshold. Marks the proposal funded exactly once and returns
/// the amount the caller owes the recipient out of the treasury; a proposal
/// already funded is rejected with a state conflict and nothing moves again.
pub fn release_funds(proposal: &mut Proposal, config: &GlobalConfig, treasury_balance: u64) -> (r:
    Result<u64, ErrorCode>)
    ensures
        match release_funds_err(*old(proposal), *config, treasury_balance) {
            Some(e) => r == Err::<u64, ErrorCode>(e) && *final(proposal) == *old(proposal),
            None => r == Ok::<u64, ErrorCode>(old(proposal).funding_needed) && *final(proposal)
                == (Proposal { funded: true, ..*old(proposal) }),
        },
        old(proposal).funded ==> final(proposal).funded,
{
    if proposal.votes < config.voting_threshold {
        return Err(ErrorCode::InsufficientVotes);
    }
    if proposal.funded {
        return Err(ErrorCode::AlreadyFunded);
    }
    if treasury_balance < proposal.funding_needed {
        return Err(ErrorCode::InsufficientTreasuryBalance);
    }
    proposal.funded = true;
    Ok(proposal.funding_needed)
}

} // verus!
