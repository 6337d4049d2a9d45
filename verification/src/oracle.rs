//! Oracle registry and attestation engine.
//!
//! Collateral-backed oracles attest real-world milestones with confidence
//! scores. A milestone verifies once enough independent attestations have
//! arrived and their mean confidence meets the minimum; verification is
//! monotone and recorded exactly once. Misbehaving oracles lose a quarter of
//! their collateral and up to thirty reputation points; reputation can be
//! partially recovered by governance. Accuracy-tier reputation tokens are
//! derived from the registry and deactivate permanently.

use vstd::prelude::*;

use crate::errors::ErrorCode;

verus! {

/// Minimum mean confidence (in percent) for a milestone to verify.
pub const MIN_MILESTONE_CONFIDENCE: u8 = 70;

/// Longest accepted oracle display name, in bytes.
pub const MAX_ORACLE_NAME_LEN: usize = 64;

/// Longest accepted evidence or reasoning text, in bytes.
pub const MAX_EVIDENCE_LEN: usize = 500;

/// How a milestone is verified in the world. The tag is descriptive and
/// auditable only; quorum logic never branches on it.
#[derive(Clone, Debug, PartialEq, Eq)]
pub enum MilestoneVerificationType {
    /// A source-control commit verified as real.
    CodeCommit { repo: Vec<u8>, commit_hash: Vec<u8> },
    /// Satellite imagery confirms physical progress.
    SatelliteImagery { latitude: i32, longitude: i32, confidence_threshold: u8 },
    /// Biometric data proves a biological milestone.
    BiometricData { patient_hash: Vec<u8>, vital_signature: Vec<u8> },
    /// An external attestor service vouches.
    ExternalAPI { oracle_pubkey: u64 },
    /// A zero-knowledge proof of achievement.
    ZKProof { circuit_hash: Vec<u8> },
}

/// A single oracle's attestation of a milestone. Append-only once created.
#[derive(Clone, Debug, PartialEq, Eq)]
pub struct OracleAttestation {
    pub oracle_pubkey: u64,
    pub attestation_time: u64,
    /// 0-100; higher is more confident.
    pub confidence_score: u8,
    /// Opaque signed payload backing the attestation.
    pub signed_data: Vec<u8>,
    /// Whether this attestation is under slashing review.
    pub slashing_risk: bool,
}

/// A milestone that must be achieved before its tranche can be released.
#[derive(Clone, Debug, PartialEq, Eq)]
pub struct Milestone {
    pub id: u64,
    pub tranche_id: u64,
    pub description: Vec<u8>,
    pub verification_type: MilestoneVerificationType,
    /// How many oracle attestations are needed.
    pub required_attestations: u8,
    pub attestations: Vec<OracleAttestation>,
    /// Set exactly once, when quorum and confidence are first met.
    pub verified_at: Option<u64>,
    pub release_triggered: bool,
    pub created_at: u64,
}

/// An oracle's alignment judgement of a proposal.
#[derive(Clone, Debug, PartialEq, Eq)]
pub struct AlignmentScore {
    pub proposal_id: u64,
    /// 0-100.
    pub raw_score: u8,
    pub oracle_pubkey: u64,
    pub reasoning: Vec<u8>,
    pub scored_at: u64,
    pub alignment_tier: AlignmentTier,
}

/// Alignment tiers by raw score.
#[derive(Clone, Copy, Debug, PartialEq, Eq, Structural)]
pub enum AlignmentTier {
    /// 90-100.
    Visionary,
    /// 70-89.
    Aligned,
    /// 40-69.
    Neutral,
    /// 0-39.
    Misaligned,
}

/// The tier a raw alignment score falls in. Only 0-100 is a meaningful
/// score; anything above falls outside every range and lands in the lowest
/// tier.
pub open spec fn alignment_tier_of(score: u8) -> AlignmentTier {
    if 90 <= score <= 100 {
        AlignmentTier::Visionary
    } else if 70 <= score <= 89 {
        AlignmentTier::Aligned
    } else if 40 <= score <= 69 {
        AlignmentTier::Neutral
    } else {
        AlignmentTier::Misaligned
    }
}

impl AlignmentTier {
    /// The tier a raw score (0-100) falls in; a score out of range maps to
    /// the lowest tier.
    pub fn from_score(score: u8) -> (r: Self)
        ensures
            r == alignment_tier_of(score),
    {
        if 90 <= score && score <= 100 {
            AlignmentTier::Visionary
        } else if 70 <= score && score <= 89 {
            AlignmentTier::Aligned
        } else if 40 <= score && score <= 69 {
            AlignmentTier::Neutral
        } else {
            AlignmentTier::Misaligned
        }
    }

    /// The proof-of-work difficulty a proposal of this tier must meet: the
    /// base difficulty, raised for weakly aligned proposals (saturating).
    pub fn pow_difficulty_adjustment(&self, base_difficulty: u32) -> (r: u32)
        ensures
            *self == AlignmentTier::Visionary ==> r == base_difficulty,
            *self == AlignmentTier::Aligned ==> r
                == u32_saturating_add_spec(base_difficulty, 1),
            *self == AlignmentTier::Neutral ==> r
                == u32_saturating_add_spec(base_difficulty, 3),
            *self == AlignmentTier::Misaligned ==> r
                == u32_saturating_add_spec(base_difficulty, 10),
    {
        match self {
            AlignmentTier::Visionary => base_difficulty,
            AlignmentTier::Aligned => base_difficulty.saturating_add(1),
            AlignmentTier::Neutral => base_difficulty.saturating_add(3),
            AlignmentTier::Misaligned => base_difficulty.saturating_add(10),
        }
    }
}

/// Saturating 32-bit addition, as a spec value.
pub open spec fn u32_saturating_add_spec(a: u32, b: u32) -> u32 {
    if a + b > u32::MAX {
        u32::MAX
    } else {
        (a + b) as u32
    }
}

/// Immutable record of a proposal that was rejected.
#[derive(Clone, Debug, PartialEq, Eq)]
pub struct RejectedProposal {
    pub id: u64,
    pub description: Vec<u8>,
    pub alignment_score: u8,
    pub reason: Vec<u8>,
    pub rejected_at: u64,
    /// Hashed for privacy.
    pub creator_hash: Vec<u8>,
}

/// Registry entry for a collateral-backed oracle.
#[derive(Clone, Debug, PartialEq, Eq)]
pub struct OracleRegistry {
    pub oracle_pubkey: u64,
    pub name: Vec<u8>,
    /// Locked collateral, slashed on misbehaviour.
    pub collateral: u64,
    /// 0-100, starts at 100.
    pub reputation_score: u32,
    pub total_attestations: u64,
    pub successful_attestations: u64,
    pub failed_attestations: u64,
    pub last_attested: Option<u64>,
}

/// The bookkeeping an oracle registry entry always satisfies: successes never
/// outnumber attestations and reputation stays on its 0-100 scale.
pub open spec fn registry_wf(o: OracleRegistry) -> bool {
    &&& o.successful_attestations <= o.total_attestations
    &&& o.reputation_score <= 100
}

/// Accuracy as an integer percentage: successes per attestation, floored;
/// zero when nothing was attested yet.
pub open spec fn accuracy_rate_of(o: OracleRegistry) -> int {
    if o.total_attestations == 0 {
        0
    } else {
        (o.successful_attestations * 100) / o.total_attestations as int
    }
}

impl OracleRegistry {
    /// Accuracy as an integer percentage (0-100).
    pub fn accuracy_rate(&self) -> (r: u8)
        requires
            self.successful_attestations <= self.total_attestations,
        ensures
            r as int == accuracy_rate_of(*self),
    {
        if self.total_attestations == 0 {
            return 0;
        }
        let rate = (self.successful_attestations as u128 * 100) / (self.total_attestations as u128);
        proof {
            assert(self.successful_attestations * 100 <= self.total_attestations * 100)
                by (nonlinear_arith)
                requires self.successful_attestations <= self.total_attestations;
            assert((self.successful_attestations * 100) / (self.total_attestations as int) <= 100)
                by (nonlinear_arith)
                requires
                    self.successful_attestations * 100 <= self.total_attestations * 100
                        && self.total_attestations > 0;
        }
        rate as u8
    }

    /// A healthy oracle keeps both reputation above 50 and accuracy above 70.
    pub fn is_healthy(&self) -> (r: bool)
        requires
            self.successful_attestations <= self.total_attestations,
        ensures
            r == (self.reputation_score > 50 && accuracy_rate_of(*self) > 70),
    {
        self.reputation_score > 50 && self.accuracy_rate() > 70
    }
}

/// Non-transferable reputation badge derived from an oracle's accuracy.
#[derive(Clone, Debug, PartialEq, Eq)]
pub struct OracleReputationToken {
    pub oracle_pubkey: u64,
    pub mint_address: u64,
    pub accuracy_tier: AccuracyTier,
    pub successful_attestations: u64,
    pub reputation_score: u32,
    pub minted_at: u64,
    pub last_updated: u64,
    /// Cleared permanently when accuracy falls below the lowest tier or the
    /// token is burned; never set back.
    pub is_active: bool,
}

/// Accuracy tiers by accuracy rate.
#[derive(Clone, Copy, Debug, PartialEq, Eq, Structural)]
pub enum AccuracyTier {
    /// 0-49: no token.
    Unrated,
    /// 50-69.
    Bronze,
    /// 70-84.
    Silver,
    /// 85-94.
    Gold,
    /// 95-100.
    Platinum,
}

/// The tier an accuracy rate falls in. Only 0-100 is a meaningful rate;
/// anything above falls outside every range and earns no tier.
pub open spec fn accuracy_tier_of(rate: u8) -> AccuracyTier {
    if 95 <= rate <= 100 {
        AccuracyTier::Platinum
    } else if 85 <= rate <= 94 {
        AccuracyTier::Gold
    } else if 70 <= rate <= 84 {
        AccuracyTier::Silver
    } else if 50 <= rate <= 69 {
        AccuracyTier::Bronze
    } else {
        AccuracyTier::Unrated
    }
}

impl AccuracyTier {
    /// The tier an accuracy rate (0-100) falls in; a rate out of range earns
    /// no tier.
    pub fn from_accuracy_rate(rate: u8) -> (r: Self)
        ensures
            r == accuracy_tier_of(rate),
    {
        if 95 <= rate && rate <= 100 {
            AccuracyTier::Platinum
        } else if 85 <= rate && rate <= 94 {
            AccuracyTier::Gold
        } else if 70 <= rate && rate <= 84 {
            AccuracyTier::Silver
        } else if 50 <= rate && rate <= 69 {
            AccuracyTier::Bronze
        } else {
            AccuracyTier::Unrated
        }
    }

    /// A short display label for the tier.
    pub fn to_string(&self) -> (r: &'static str)
        ensures
            *self == AccuracyTier::Unrated ==> r@ == "None"@,
            *self == AccuracyTier::Bronze ==> r@ == "Bronze"@,
            *self == AccuracyTier::Silver ==> r@ == "Silver"@,
            *self == AccuracyTier::Gold ==> r@ == "Gold"@,
            *self == AccuracyTier::Platinum ==> r@ == "Platinum"@,
    {
        match self {
            AccuracyTier::Unrated => "None",
            AccuracyTier::Bronze => "Bronze",
            AccuracyTier::Silver => "Silver",
            AccuracyTier::Gold => "Gold",
            AccuracyTier::Platinum => "Platinum",
        }
    }
}

/// An oracle with accuracy below the lowest tier gets no token.
pub proof fn lemma_low_accuracy_no_token(rate: u8)
    requires
        rate < 50,
    ensures
        accuracy_tier_of(rate) == AccuracyTier::Unrated,
{
}

/// Sum of the confidence scores of a sequence of attestations.
pub open spec fn sum_confidence(s: Seq<OracleAttestation>) -> int
    decreases s.len(),
{
    if s.len() == 0 {
        0
    } else {
        s[0].confidence_score + sum_confidence(s.skip(1))
    }
}

/// The quorum rule: a milestone is verified when it holds at least
/// `required_quorum` attestations (and at least one) whose mean confidence,
/// floored, reaches `min_confidence`.
pub open spec fn quorum_met(m: Milestone, required_quorum: u8, min_confidence: u8) -> bool {
    &&& m.attestations@.len() >= required_quorum
    &&& m.attestations@.len() > 0
    &&& sum_confidence(m.attestations@) / (m.attestations@.len() as int) >= min_confidence
}

/// Quorum needs the count: with fewer attestations than the quorum, the
/// milestone does not verify no matter how confident each attestation is.
pub proof fn lemma_quorum_needs_count(m: Milestone, required_quorum: u8, min_confidence: u8)
    requires
        m.attestations@.len() < required_quorum,
    ensures
        !quorum_met(m, required_quorum, min_confidence),
{
}

/// Check the quorum rule for a milestone.
pub fn verify_milestone_with_quorum(
    milestone: &Milestone,
    required_quorum: u8,
    min_confidence: u8,
) -> (r: bool)
    ensures
        r == quorum_met(*milestone, required_quorum, min_confidence),
{
    let count = milestone.attestations.len();
    if count < required_quorum as usize {
        return false;
    }
    if count == 0 {
        return false;
    }

    let mut sum: u128 = 0;
    let mut i: usize = 0;
    while i < count
        invariant
            i <= count,
            count == milestone.attestations@.len(),
            sum == sum_confidence(milestone.attestations@.take(i as int)),
            sum <= 255 * i,
        decreases count - i,
    {
        proof {
            lemma_sum_confidence_take_step(milestone.attestations@, i as int);
        }
        sum = sum + milestone.attestations[i].confidence_score as u128;
        i += 1;
    }
    assert(milestone.attestations@.take(count as int) =~= milestone.attestations@);

    let avg = sum / (count as u128);
    avg >= min_confidence as u128
}

/// Extending a prefix by one element adds that element's confidence.
proof fn lemma_sum_confidence_take_step(s: Seq<OracleAttestation>, i: int)
    requires
        0 <= i < s.len(),
    ensures
        sum_confidence(s.take(i + 1)) == sum_confidence(s.take(i)) + s[i].confidence_score,
    decreases i,
{
    let t = s.take(i + 1);
    if i == 0 {
        assert(t.skip(1) =~= s.take(0));
    } else {
        assert(t.skip(1) =~= s.skip(1).take(i));
        assert(s.take(i).skip(1) =~= s.skip(1).take(i - 1));
        lemma_sum_confidence_take_step(s.skip(1), i - 1);
        assert(s.skip(1).take(i - 1 + 1) =~= s.skip(1).take(i));
    }
}

/// Register an oracle: lock positive collateral (the caller owes the escrow
/// that transfer), start reputation at 100 with all counters at zero.
pub fn register_oracle(oracle: u64, oracle_name: Vec<u8>, collateral_amount: u64) -> (r: Result<
    OracleRegistry,
    ErrorCode,
>)
    ensures
        oracle_name@.len() > MAX_ORACLE_NAME_LEN ==> r == Err::<OracleRegistry, ErrorCode>(
            ErrorCode::OracleNameTooLong,
        ),
        oracle_name@.len() <= MAX_ORACLE_NAME_LEN && collateral_amount == 0 ==> r == Err::<
            OracleRegistry,
            ErrorCode,
        >(ErrorCode::InvalidCollateralAmount),
        oracle_name@.len() <= MAX_ORACLE_NAME_LEN && collateral_amount > 0 ==> (r matches Ok(o)
            && o == (OracleRegistry {
            oracle_pubkey: oracle,
            name: oracle_name,
            collateral: collateral_amount,
            reputation_score: 100,
            total_attestations: 0,
            successful_attestations: 0,
            failed_attestations: 0,
            last_attested: None,
        })),
        r matches Ok(o) ==> registry_wf(o),
{
    if oracle_name.len() > MAX_ORACLE_NAME_LEN {
        return Err(ErrorCode::OracleNameTooLong);
    }
    if collateral_amount == 0 {
        return Err(ErrorCode::InvalidCollateralAmount);
    }
    Ok(OracleRegistry {
        oracle_pubkey: oracle,
        name: oracle_name,
        collateral: collateral_amount,
        reputation_score: 100,
        total_attestations: 0,
        successful_attestations: 0,
        failed_attestations: 0,
        last_attested: None,
    })
}

/// Record emitted when an attestation is accepted.
#[derive(Clone, Debug, PartialEq, Eq)]
pub struct MilestoneAttestationSubmitted {
    pub milestone_id: u64,
    pub oracle_pubkey: u64,
    pub confidence_score: u8,
    pub attestation_count: u8,
}

/// Why submitting an attestation fails, checked in this order; `None` means
/// it is appended.
pub open spec fn submit_attestation_err(
    milestone: Milestone,
    registry: OracleRegistry,
    caller: u64,
    milestone_id: u64,
    confidence_score: u8,
) -> Option<ErrorCode> {
    if confidence_score > 100 {
        Some(ErrorCode::InvalidConfidenceScore)
    } else if registry.oracle_pubkey != caller {
        Some(ErrorCode::UnauthorizedOracle)
    } else if milestone.id != milestone_id {
        Some(ErrorCode::MilestoneIdMismatch)
    } else if registry.total_attestations + 1 > u64::MAX {
        Some(ErrorCode::ArithmeticOverflow)
    } else {
        None
    }
}

/// Append an oracle's confidence-scored attestation to a milestone. Only the
/// registered oracle itself may attest; the registry's attestation counter
/// and last-attested clock advance with it. On rejection neither the
/// milestone nor the registry changes.
pub fn submit_milestone_attestation(
    milestone: &mut Milestone,
    registry: &mut OracleRegistry,
    caller: u64,
    milestone_id: u64,
    confidence_score: u8,
    signed_data: Vec<u8>,
    now: u64,
) -> (r: Result<MilestoneAttestationSubmitted, ErrorCode>)
    requires
        signed_data@.len() == 128,
    ensures
        match submit_attestation_err(
            *old(milestone),
            *old(registry),
            caller,
            milestone_id,
            confidence_score,
        ) {
            Some(e) => r == Err::<MilestoneAttestationSubmitted, ErrorCode>(e) && *final(milestone)
                == *old(milestone) && *final(registry) == *old(registry),
            None => {
                &&& final(milestone).attestations@ == old(milestone).attestations@.push(
                    OracleAttestation {
                        oracle_pubkey: caller,
                        attestation_time: now,
                        confidence_score,
                        signed_data,
                        slashing_risk: false,
                    },
                )
                &&& *final(milestone) == (Milestone {
                    attestations: final(milestone).attestations,
                    ..*old(milestone)
                })
                &&& *final(registry) == (OracleRegistry {
                    total_attestations: (old(registry).total_attestations + 1) as u64,
                    last_attested: Some(now),
                    ..*old(registry)
                })
                &&& r matches Ok(ev)
                &&& ev.milestone_id == milestone_id
                &&& ev.oracle_pubkey == caller
                &&& ev.confidence_score == confidence_score
                &&& ev.attestation_count as int == (old(milestone).attestations@.len() + 1) % 256
            },
        },
        registry_wf(*old(registry)) ==> registry_wf(*final(registry)),
{
    if confidence_score > 100 {
        return Err(ErrorCode::InvalidConfidenceScore);
    }
    if registry.oracle_pubkey != caller {
        return Err(ErrorCode::UnauthorizedOracle);
    }
    if milestone.id != milestone_id {
        return Err(ErrorCode::MilestoneIdMismatch);
    }
    let new_total = match registry.total_attestations.checked_add(1) {
        Some(v) => v,
        None => {
            return Err(ErrorCode::ArithmeticOverflow);
        },
    };

    let attestation = OracleAttestation {
        oracle_pubkey: caller,
        attestation_time: now,
        confidence_score,
        signed_data,
        slashing_risk: false,
    };
    milestone.attestations.push(attestation);

    registry.total_attestations = new_total;
    registry.last_attested = Some(now);

    let count = milestone.attestations.len();
    Ok(MilestoneAttestationSubmitted {
        milestone_id,
        oracle_pubkey: caller,
        confidence_score,
        attestation_count: (count % 256) as u8,
    })
}

/// Record emitted when a milestone verifies.
#[derive(Clone, Debug, PartialEq, Eq)]
pub struct MilestoneVerified {
    pub milestone_id: u64,
    pub tranche_id: u64,
    pub attestation_count: u8,
    pub verified_at: u64,
}

/// Mark a milestone verified once its quorum rule holds at the configured
/// minimum confidence. Verification is monotone: the timestamp is written
/// exactly once, and a milestone that is already verified stays verified,
/// unchanged. A milestone short of quorum is rejected with no change.
pub fn verify_milestone(milestone: &mut Milestone, now: u64) -> (r: Result<
    MilestoneVerified,
    ErrorCode,
>)
    ensures
        old(milestone).verified_at is None && !quorum_met(
            *old(milestone),
            old(milestone).required_attestations,
            MIN_MILESTONE_CONFIDENCE,
        ) ==> r == Err::<MilestoneVerified, ErrorCode>(ErrorCode::MilestoneNotVerified)
            && *final(milestone) == *old(milestone),
        old(milestone).verified_at is None && quorum_met(
            *old(milestone),
            old(milestone).required_attestations,
            MIN_MILESTONE_CONFIDENCE,
        ) ==> *final(milestone) == (Milestone { verified_at: Some(now), ..*old(milestone) }),
        old(milestone).verified_at is Some ==> *final(milestone) == *old(milestone),
        r matches Ok(ev) ==> {
            &&& final(milestone).verified_at is Some
            &&& ev.milestone_id == old(milestone).id
            &&& ev.tranche_id == old(milestone).tranche_id
            &&& Some(ev.verified_at) == final(milestone).verified_at
            &&& ev.attestation_count as int == old(milestone).attestations@.len() % 256
        },
        r is Ok <==> (old(milestone).verified_at is Some || quorum_met(
            *old(milestone),
            old(milestone).required_attestations,
            MIN_MILESTONE_CONFIDENCE,
        )),
        old(milestone).verified_at is Some ==> final(milestone).verified_at == old(
            milestone,
        ).verified_at,
{
    let count = milestone.attestations.len();
    match milestone.verified_at {
        Some(t) => {
            return Ok(MilestoneVerified {
                milestone_id: milestone.id,
                tranche_id: milestone.tranche_id,
                attestation_count: (count % 256) as u8,
                verified_at: t,
            });
        },
        None => {},
    }

    let required_quorum = milestone.required_attestations;
    if !verify_milestone_with_quorum(milestone, required_quorum, MIN_MILESTONE_CONFIDENCE) {
        return Err(ErrorCode::MilestoneNotVerified);
    }

    milestone.verified_at = Some(now);
    Ok(MilestoneVerified {
        milestone_id: milestone.id,
        tranche_id: milestone.tranche_id,
        attestation_count: (count % 256) as u8,
        verified_at: now,
    })
}

/// Judge a proposal's alignment: only the registered oracle itself may
/// submit, scores are 0-100 and reasoning is bounded. The tier is derived
/// from the raw score.
pub fn submit_alignment_score(
    registry: &OracleRegistry,
    caller: u64,
    proposal_id: u64,
    alignment_score: u8,
    reasoning: Vec<u8>,
    now: u64,
) -> (r: Result<AlignmentScore, ErrorCode>)
    ensures
        alignment_score > 100 ==> r == Err::<AlignmentScore, ErrorCode>(
            ErrorCode::InvalidAlignmentScore,
        ),
        alignment_score <= 100 && reasoning@.len() > MAX_EVIDENCE_LEN ==> r == Err::<
            AlignmentScore,
            ErrorCode,
        >(ErrorCode::ReasoningTooLong),
        alignment_score <= 100 && reasoning@.len() <= MAX_EVIDENCE_LEN && registry.oracle_pubkey
            != caller ==> r == Err::<AlignmentScore, ErrorCode>(ErrorCode::UnauthorizedOracle),
        alignment_score <= 100 && reasoning@.len() <= MAX_EVIDENCE_LEN && registry.oracle_pubkey
            == caller ==> (r matches Ok(s) && s == (AlignmentScore {
            proposal_id,
            raw_score: alignment_score,
            oracle_pubkey: caller,
            reasoning,
            scored_at: now,
            alignment_tier: alignment_tier_of(alignment_score),
        })),
{
    if alignment_score > 100 {
        return Err(ErrorCode::InvalidAlignmentScore);
    }
    if reasoning.len() > MAX_EVIDENCE_LEN {
        return Err(ErrorCode::ReasoningTooLong);
    }
    if registry.oracle_pubkey != caller {
        return Err(ErrorCode::UnauthorizedOracle);
    }
    let tier = AlignmentTier::from_score(alignment_score);
    Ok(AlignmentScore {
        proposal_id,
        raw_score: alignment_score,
        oracle_pubkey: caller,
        reasoning,
        scored_at: now,
        alignment_tier: tier,
    })
}

/// Record emitted when an oracle is slashed; `collateral_slashed` is the
/// amount the caller owes the governance treasury out of the oracle's
/// collateral escrow.
#[derive(Clone, Debug, PartialEq, Eq)]
pub struct OracleSlashed {
    pub oracle_pubkey: u64,
    pub collateral_slashed: u64,
    pub reputation_penalty: u32,
    pub reason: Vec<u8>,
    pub slashed_at: u64,
}

/// Why slashing fails, checked in this order; `None` means the oracle is
/// slashed.
pub open spec fn slash_oracle_err(
    registry: OracleRegistry,
    governance: u64,
    admin: u64,
    evidence: Seq<u8>,
) -> Option<ErrorCode> {
    if evidence.len() > MAX_EVIDENCE_LEN {
        Some(ErrorCode::DescriptionTooLong)
    } else if governance != admin {
        Some(ErrorCode::UnauthorizedAdmin)
    } else if registry.collateral == 0 {
        Some(ErrorCode::OracleNotRegistered)
    } else if registry.collateral / 4 == 0 {
        Some(ErrorCode::InsufficientOracleCollateral)
    } else {
        None
    }
}

/// Slash a misbehaving oracle: only the governance authority may do it.
/// A quarter of the current collateral is forfeited, reputation drops by up
/// to 30 points (floored at zero), and the failure counter advances. On
/// rejection the registry is untouched.
pub fn slash_oracle(
    registry: &mut OracleRegistry,
    governance: u64,
    admin: u64,
    _oracle_pubkey: u64,
    evidence: Vec<u8>,
    now: u64,
) -> (r: Result<OracleSlashed, ErrorCode>)
    ensures
        match slash_oracle_err(*old(registry), governance, admin, evidence@) {
            Some(e) => r == Err::<OracleSlashed, ErrorCode>(e) && *final(registry) == *old(
                registry,
            ),
            None => {
                let slash = old(registry).collateral / 4;
                let penalty = if old(registry).reputation_score < 30 {
                    old(registry).reputation_score
                } else {
                    30u32
                };
                &&& *final(registry) == (OracleRegistry {
                    collateral: (old(registry).collateral - slash) as u64,
                    reputation_score: (old(registry).reputation_score - penalty) as u32,
                    failed_attestations: if old(registry).failed_attestations == u64::MAX {
                        u64::MAX
                    } else {
                        (old(registry).failed_attestations + 1) as u64
                    },
                    ..*old(registry)
                })
                &&& r matches Ok(ev)
                &&& ev == (OracleSlashed {
                    oracle_pubkey: old(registry).oracle_pubkey,
                    collateral_slashed: slash,
                    reputation_penalty: penalty,
                    reason: evidence,
                    slashed_at: now,
                })
            },
        },
        registry_wf(*old(registry)) ==> registry_wf(*final(registry)),
{
    if evidence.len() > MAX_EVIDENCE_LEN {
        return Err(ErrorCode::DescriptionTooLong);
    }
    if governance != admin {
        return Err(ErrorCode::UnauthorizedAdmin);
    }
    if registry.collateral == 0 {
        return Err(ErrorCode::OracleNotRegistered);
    }
    let collateral_to_slash = registry.collateral / 4;
    if collateral_to_slash == 0 {
        return Err(ErrorCode::InsufficientOracleCollateral);
    }

    let reputation_penalty = if registry.reputation_score < 30 {
        registry.reputation_score
    } else {
        30
    };

    registry.collateral = registry.collateral - collateral_to_slash;
    registry.reputation_score = registry.reputation_score - reputation_penalty;
    registry.failed_attestations = registry.failed_attestations.saturating_add(1);

    Ok(OracleSlashed {
        oracle_pubkey: registry.oracle_pubkey,
        collateral_slashed: collateral_to_slash,
        reputation_penalty,
        reason: evidence,
        slashed_at: now,
    })
}

/// Record emitted when reputation is restored.
#[derive(Clone, Copy, Debug, PartialEq, Eq, Structural)]
pub struct OracleReputationRecovered {
    pub oracle_pubkey: u64,
    pub reputation_restored: u32,
    pub recovered_at: u64,
}

/// Why a reputation recovery fails, checked in this order; `None` means it
/// is granted.
pub open spec fn recover_reputation_err(
    registry: OracleRegistry,
    governance: u64,
    admin: u64,
    evidence: Seq<u8>,
) -> Option<ErrorCode> {
    if evidence.len() > MAX_EVIDENCE_LEN {
        Some(ErrorCode::DescriptionTooLong)
    } else if governance != admin {
        Some(ErrorCode::UnauthorizedAdmin)
    } else if registry.collateral == 0 {
        Some(ErrorCode::OracleNotRegistered)
    } else {
        None
    }
}

/// Restore up to 15 reputation points to an oracle, capped at the original
/// 100. Only the governance authority may grant it.
pub fn recover_oracle_reputation(
    registry: &mut OracleRegistry,
    governance: u64,
    admin: u64,
    _oracle_pubkey: u64,
    evidence_of_correction: Vec<u8>,
    now: u64,
) -> (r: Result<OracleReputationRecovered, ErrorCode>)
    ensures
        match recover_reputation_err(*old(registry), governance, admin, evidence_of_correction@) {
            Some(e) => r == Err::<OracleReputationRecovered, ErrorCode>(e) && *final(registry)
                == *old(registry),
            None => {
                let headroom = if old(registry).reputation_score >= 100 {
                    0u32
                } else {
                    (100 - old(registry).reputation_score) as u32
                };
                let recovery = if headroom < 15 {
                    headroom
                } else {
                    15u32
                };
                &&& *final(registry) == (OracleRegistry {
                    reputation_score: (old(registry).reputation_score + recovery) as u32,
                    ..*old(registry)
                })
                &&& r == Ok::<OracleReputationRecovered, ErrorCode>(OracleReputationRecovered {
                    oracle_pubkey: old(registry).oracle_pubkey,
                    reputation_restored: recovery,
                    recovered_at: now,
                })
            },
        },
        registry_wf(*old(registry)) ==> registry_wf(*final(registry)),
{
    if evidence_of_correction.len() > MAX_EVIDENCE_LEN {
        return Err(ErrorCode::DescriptionTooLong);
    }
    if governance != admin {
        return Err(ErrorCode::UnauthorizedAdmin);
    }
    if registry.collateral == 0 {
        return Err(ErrorCode::OracleNotRegistered);
    }

    let headroom = 100u32.saturating_sub(registry.reputation_score);
    let recovery = if headroom < 15 {
        headroom
    } else {
        15
    };
    registry.reputation_score = registry.reputation_score + recovery;

    Ok(OracleReputationRecovered {
        oracle_pubkey: registry.oracle_pubkey,
        reputation_restored: recovery,
        recovered_at: now,
    })
}

/// Mint a reputation token for an oracle. Minting is owed exactly to oracles
/// whose accuracy reaches the lowest real tier; below that no token exists.
/// The token is a fresh value derived from the registry: minting never
/// touches or revives an existing token.
pub fn mint_reputation_token(registry: &OracleRegistry, now: u64) -> (r: Result<
    OracleReputationToken,
    ErrorCode,
>)
    requires
        registry.successful_attestations <= registry.total_attestations,
    ensures
        accuracy_tier_of(accuracy_rate_of(*registry) as u8) == AccuracyTier::Unrated ==> r == Err::<
            OracleReputationToken,
            ErrorCode,
        >(ErrorCode::InsufficientVoteApproval),
        accuracy_tier_of(accuracy_rate_of(*registry) as u8) != AccuracyTier::Unrated ==> (r
            matches Ok(t) && t == (OracleReputationToken {
            oracle_pubkey: registry.oracle_pubkey,
            mint_address: registry.oracle_pubkey,
            accuracy_tier: accuracy_tier_of(accuracy_rate_of(*registry) as u8),
            successful_attestations: registry.successful_attestations,
            reputation_score: registry.reputation_score,
            minted_at: now,
            last_updated: now,
            is_active: true,
        })),
{
    let accuracy_rate = registry.accuracy_rate();
    let accuracy_tier = AccuracyTier::from_accuracy_rate(accuracy_rate);

    if accuracy_tier == AccuracyTier::Unrated {
        return Err(ErrorCode::InsufficientVoteApproval);
    }

    Ok(OracleReputationToken {
        oracle_pubkey: registry.oracle_pubkey,
        mint_address: registry.oracle_pubkey,
        accuracy_tier,
        successful_attestations: registry.successful_attestations,
        reputation_score: registry.reputation_score,
        minted_at: now,
        last_updated: now,
        is_active: true,
    })
}

/// Recompute a token's tier from the registry's current state. A token whose
/// accuracy has fallen below the lowest tier is deactivated; deactivation is
/// permanent, this update never sets a token active again.
pub fn update_reputation_token(
    token: &mut OracleReputationToken,
    registry: &OracleRegistry,
    now: u64,
) -> (r: Result<(), ErrorCode>)
    requires
        registry.successful_attestations <= registry.total_attestations,
    ensures
        r is Ok,
        *final(token) == (OracleReputationToken {
            accuracy_tier: accuracy_tier_of(accuracy_rate_of(*registry) as u8),
            successful_attestations: registry.successful_attestations,
            reputation_score: registry.reputation_score,
            last_updated: now,
            is_active: old(token).is_active && accuracy_tier_of(
                accuracy_rate_of(*registry) as u8,
            ) != AccuracyTier::Unrated,
            ..*old(token)
        }),
        final(token).is_active ==> old(token).is_active,
{
    let accuracy_rate = registry.accuracy_rate();
    let new_tier = AccuracyTier::from_accuracy_rate(accuracy_rate);

    token.accuracy_tier = new_tier;
    token.successful_attestations = registry.successful_attestations;
    token.reputation_score = registry.reputation_score;
    token.last_updated = now;

    if new_tier == AccuracyTier::Unrated {
        token.is_active = false;
    }

    Ok(())
}

/// Burn a reputation token: an explicit, irreversible deactivation. A token
/// already inactive is rejected with a state conflict and stays inactive; no
/// operation ever reactivates a token.
pub fn burn_reputation_token(token: &mut OracleReputationToken, _now: u64) -> (r: Result<
    (),
    ErrorCode,
>)
    ensures
        old(token).is_active ==> r is Ok && *final(token) == (OracleReputationToken {
            is_active: false,
            ..*old(token)
        }),
        !old(token).is_active ==> r == Err::<(), ErrorCode>(ErrorCode::InsufficientVoteApproval)
            && *final(token) == *old(token),
        !final(token).is_active,
{
    if !token.is_active {
        return Err(ErrorCode::InsufficientVoteApproval);
    }
    token.is_active = false;
    Ok(())
}

} // verus!
