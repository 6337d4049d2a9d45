use cryptrans::errors::ErrorCode;
use cryptrans::oracle::{
    burn_reputation_token, mint_reputation_token, recover_oracle_reputation, register_oracle,
    slash_oracle, submit_alignment_score, submit_milestone_attestation, update_reputation_token,
    verify_milestone, verify_milestone_with_quorum, AccuracyTier, AlignmentTier, Milestone,
    MilestoneVerificationType, OracleRegistry,
};

#[test]
fn test_alignment_tier_from_score() {
    assert_eq!(AlignmentTier::from_score(95), AlignmentTier::Visionary);
    assert_eq!(AlignmentTier::from_score(75), AlignmentTier::Aligned);
    assert_eq!(AlignmentTier::from_score(50), AlignmentTier::Neutral);
    assert_eq!(AlignmentTier::from_score(20), AlignmentTier::Misaligned);
}

#[test]
fn test_pow_difficulty_adjustment() {
    let base = 4u32;
    assert_eq!(AlignmentTier::Visionary.pow_difficulty_adjustment(base), 4);
    assert_eq!(AlignmentTier::Aligned.pow_difficulty_adjustment(base), 5);
    assert_eq!(AlignmentTier::Neutral.pow_difficulty_adjustment(base), 7);
    assert_eq!(AlignmentTier::Misaligned.pow_difficulty_adjustment(base), 14);
}

#[test]
fn test_oracle_accuracy_rate() {
    let oracle = OracleRegistry {
        oracle_pubkey: 0,
        name: b"TestOracle".to_vec(),
        collateral: 1000000,
        reputation_score: 100,
        total_attestations: 100,
        successful_attestations: 95,
        failed_attestations: 5,
        last_attested: None,
    };
    assert_eq!(oracle.accuracy_rate(), 95);
}

#[test]
fn test_oracle_is_healthy() {
    let healthy = OracleRegistry {
        oracle_pubkey: 0,
        name: b"HealthyOracle".to_vec(),
        collateral: 1000000,
        reputation_score: 80,
        total_attestations: 100,
        successful_attestations: 80,
        failed_attestations: 20,
        last_attested: None,
    };
    assert!(healthy.is_healthy());

    let unhealthy = OracleRegistry {
        oracle_pubkey: 0,
        name: b"UnhealthyOracle".to_vec(),
        collateral: 1000000,
        reputation_score: 40,
        total_attestations: 100,
        successful_attestations: 60,
        failed_attestations: 40,
        last_attested: None,
    };
    assert!(!unhealthy.is_healthy());
}

#[test]
fn register_oracle_validates() {
    let long_name = vec![b'n'; 65];
    assert_eq!(register_oracle(3, long_name, 1_000).unwrap_err(), ErrorCode::OracleNameTooLong);
    assert_eq!(
        register_oracle(3, b"Watcher".to_vec(), 0).unwrap_err(),
        ErrorCode::InvalidCollateralAmount
    );

    let o = register_oracle(3, b"Watcher".to_vec(), 1_000).unwrap();
    assert_eq!(o.oracle_pubkey, 3);
    assert_eq!(o.collateral, 1_000);
    assert_eq!(o.reputation_score, 100);
    assert_eq!(o.total_attestations, 0);
    assert_eq!(o.successful_attestations, 0);
    assert_eq!(o.failed_attestations, 0);
    assert_eq!(o.last_attested, None);
}

#[test]
fn alignment_score_paths() {
    let registry = register_oracle(3, b"Watcher".to_vec(), 1_000).unwrap();

    assert_eq!(
        submit_alignment_score(&registry, 3, 9, 101, b"r".to_vec(), 5).unwrap_err(),
        ErrorCode::InvalidAlignmentScore
    );
    let long = vec![b'r'; 501];
    assert_eq!(
        submit_alignment_score(&registry, 3, 9, 80, long, 5).unwrap_err(),
        ErrorCode::ReasoningTooLong
    );
    assert_eq!(
        submit_alignment_score(&registry, 4, 9, 80, b"r".to_vec(), 5).unwrap_err(),
        ErrorCode::UnauthorizedOracle
    );

    let s = submit_alignment_score(&registry, 3, 9, 80, b"strong fit".to_vec(), 5).unwrap();
    assert_eq!(s.proposal_id, 9);
    assert_eq!(s.raw_score, 80);
    assert_eq!(s.alignment_tier, AlignmentTier::Aligned);
    assert_eq!(s.scored_at, 5);
}

fn empty_milestone(id: u64, required: u8) -> Milestone {
    Milestone {
        id,
        tranche_id: 1,
        description: b"first deployment".to_vec(),
        verification_type: MilestoneVerificationType::ExternalAPI { oracle_pubkey: 3 },
        required_attestations: required,
        attestations: Vec::new(),
        verified_at: None,
        release_triggered: false,
        created_at: 0,
    }
}

#[test]
fn attestation_submission_paths() {
    let mut milestone = empty_milestone(7, 3);
    let mut registry = register_oracle(3, b"Watcher".to_vec(), 1_000).unwrap();

    assert_eq!(
        submit_milestone_attestation(&mut milestone, &mut registry, 3, 7, 101, vec![0u8; 128], 9)
            .unwrap_err(),
        ErrorCode::InvalidConfidenceScore
    );
    assert_eq!(
        submit_milestone_attestation(&mut milestone, &mut registry, 4, 7, 90, vec![0u8; 128], 9)
            .unwrap_err(),
        ErrorCode::UnauthorizedOracle
    );
    assert_eq!(
        submit_milestone_attestation(&mut milestone, &mut registry, 3, 8, 90, vec![0u8; 128], 9)
            .unwrap_err(),
        ErrorCode::MilestoneIdMismatch
    );
    assert_eq!(milestone.attestations.len(), 0);
    assert_eq!(registry.total_attestations, 0);

    let ev = submit_milestone_attestation(&mut milestone, &mut registry, 3, 7, 90, vec![0u8; 128], 9)
        .unwrap();
    assert_eq!(ev.attestation_count, 1);
    assert_eq!(ev.confidence_score, 90);
    assert_eq!(milestone.attestations.len(), 1);
    assert_eq!(milestone.attestations[0].confidence_score, 90);
    assert_eq!(registry.total_attestations, 1);
    assert_eq!(registry.last_attested, Some(9));
}

#[test]
fn quorum_needs_count_and_confidence() {
    // Two attestations at full confidence never satisfy a quorum of three.
    let mut milestone = empty_milestone(7, 3);
    let mut registry = register_oracle(3, b"Watcher".to_vec(), 1_000).unwrap();
    for _ in 0..2 {
        submit_milestone_attestation(&mut milestone, &mut registry, 3, 7, 100, vec![0u8; 128], 9)
            .unwrap();
    }
    assert!(!verify_milestone_with_quorum(&milestone, 3, 70));
    assert_eq!(verify_milestone(&mut milestone, 10).unwrap_err(), ErrorCode::MilestoneNotVerified);
    assert_eq!(milestone.verified_at, None);

    // Three attestations averaging below the minimum confidence do not
    // verify either.
    let mut weak = empty_milestone(8, 3);
    for score in [60u8, 70, 75] {
        submit_milestone_attestation(&mut weak, &mut registry, 3, 8, score, vec![0u8; 128], 9)
            .unwrap();
    }
    // Mean of 60, 70, 75 floors to 68.
    assert!(!verify_milestone_with_quorum(&weak, 3, 70));

    // Three attestations averaging 70 or more verify, exactly once.
    let mut strong = empty_milestone(9, 3);
    for score in [60u8, 75, 80] {
        submit_milestone_attestation(&mut strong, &mut registry, 3, 9, score, vec![0u8; 128], 9)
            .unwrap();
    }
    assert!(verify_milestone_with_quorum(&strong, 3, 70));
    let ev = verify_milestone(&mut strong, 42).unwrap();
    assert_eq!(ev.verified_at, 42);
    assert_eq!(ev.attestation_count, 3);
    assert_eq!(strong.verified_at, Some(42));

    // Idempotent: a second call succeeds and changes nothing.
    let ev2 = verify_milestone(&mut strong, 99).unwrap();
    assert_eq!(ev2.verified_at, 42);
    assert_eq!(strong.verified_at, Some(42));
}

#[test]
fn slash_takes_quarter_and_reputation() {
    let mut registry = register_oracle(3, b"Watcher".to_vec(), 1_000).unwrap();

    let long = vec![b'e'; 501];
    assert_eq!(
        slash_oracle(&mut registry, 9, 9, 3, long, 5).unwrap_err(),
        ErrorCode::DescriptionTooLong
    );
    assert_eq!(
        slash_oracle(&mut registry, 9, 8, 3, b"lied".to_vec(), 5).unwrap_err(),
        ErrorCode::UnauthorizedAdmin
    );

    let ev = slash_oracle(&mut registry, 9, 9, 3, b"lied".to_vec(), 5).unwrap();
    assert_eq!(ev.collateral_slashed, 250);
    assert_eq!(ev.reputation_penalty, 30);
    assert_eq!(registry.collateral, 750);
    assert_eq!(registry.reputation_score, 70);
    assert_eq!(registry.failed_attestations, 1);

    // An oracle with no collateral left is not slashable.
    let mut empty = register_oracle(4, b"Ghost".to_vec(), 3).unwrap();
    // 3 / 4 == 0: nothing worth slashing.
    assert_eq!(
        slash_oracle(&mut empty, 9, 9, 4, b"lied".to_vec(), 5).unwrap_err(),
        ErrorCode::InsufficientOracleCollateral
    );
    empty.collateral = 0;
    assert_eq!(
        slash_oracle(&mut empty, 9, 9, 4, b"lied".to_vec(), 5).unwrap_err(),
        ErrorCode::OracleNotRegistered
    );
}

#[test]
fn reputation_recovery_caps_at_hundred() {
    let mut registry = register_oracle(3, b"Watcher".to_vec(), 1_000).unwrap();
    slash_oracle(&mut registry, 9, 9, 3, b"lied".to_vec(), 5).unwrap();
    assert_eq!(registry.reputation_score, 70);

    let ev = recover_oracle_reputation(&mut registry, 9, 9, 3, b"amends".to_vec(), 6).unwrap();
    assert_eq!(ev.reputation_restored, 15);
    assert_eq!(registry.reputation_score, 85);

    recover_oracle_reputation(&mut registry, 9, 9, 3, b"amends".to_vec(), 7).unwrap();
    assert_eq!(registry.reputation_score, 100);

    // Already at the cap: nothing more is restored.
    let ev = recover_oracle_reputation(&mut registry, 9, 9, 3, b"amends".to_vec(), 8).unwrap();
    assert_eq!(ev.reputation_restored, 0);
    assert_eq!(registry.reputation_score, 100);

    assert_eq!(
        recover_oracle_reputation(&mut registry, 9, 8, 3, b"amends".to_vec(), 9).unwrap_err(),
        ErrorCode::UnauthorizedAdmin
    );
}

#[test]
fn reputation_token_lifetime() {
    // 40% accuracy: no token can be minted.
    let mut registry = OracleRegistry {
        oracle_pubkey: 3,
        name: b"Watcher".to_vec(),
        collateral: 1_000,
        reputation_score: 100,
        total_attestations: 10,
        successful_attestations: 4,
        failed_attestations: 6,
        last_attested: None,
    };
    assert_eq!(registry.accuracy_rate(), 40);
    assert_eq!(
        mint_reputation_token(&registry, 5).unwrap_err(),
        ErrorCode::InsufficientVoteApproval
    );

    // Raising accuracy to 72% permits minting into the Silver tier.
    registry.total_attestations = 25;
    registry.successful_attestations = 18;
    assert_eq!(registry.accuracy_rate(), 72);
    let mut token = mint_reputation_token(&registry, 6).unwrap();
    assert_eq!(token.accuracy_tier, AccuracyTier::Silver);
    assert!(token.is_active);
    assert_eq!(token.minted_at, 6);

    // Accuracy dropping below 50% deactivates the token on the next update.
    registry.total_attestations = 40;
    assert_eq!(registry.accuracy_rate(), 45);
    update_reputation_token(&mut token, &registry, 7).unwrap();
    assert_eq!(token.accuracy_tier, AccuracyTier::Unrated);
    assert!(!token.is_active);

    // Deactivation is permanent: a later update with good accuracy refreshes
    // the tier but never reactivates the token.
    registry.total_attestations = 25;
    update_reputation_token(&mut token, &registry, 8).unwrap();
    assert_eq!(token.accuracy_tier, AccuracyTier::Silver);
    assert!(!token.is_active);
}

#[test]
fn burn_is_irreversible() {
    let registry = OracleRegistry {
        oracle_pubkey: 3,
        name: b"Watcher".to_vec(),
        collateral: 1_000,
        reputation_score: 100,
        total_attestations: 10,
        successful_attestations: 10,
        failed_attestations: 0,
        last_attested: None,
    };
    let mut token = mint_reputation_token(&registry, 5).unwrap();
    assert_eq!(token.accuracy_tier, AccuracyTier::Platinum);

    assert!(burn_reputation_token(&mut token, 6).is_ok());
    assert!(!token.is_active);

    // Burning again is a state conflict; the token stays inactive.
    assert_eq!(
        burn_reputation_token(&mut token, 7).unwrap_err(),
        ErrorCode::InsufficientVoteApproval
    );
    assert!(!token.is_active);

    // An update never brings it back either.
    update_reputation_token(&mut token, &registry, 8).unwrap();
    assert!(!token.is_active);
}

#[test]
fn accuracy_tier_boundaries() {
    assert_eq!(AccuracyTier::from_accuracy_rate(95), AccuracyTier::Platinum);
    assert_eq!(AccuracyTier::from_accuracy_rate(94), AccuracyTier::Gold);
    assert_eq!(AccuracyTier::from_accuracy_rate(85), AccuracyTier::Gold);
    assert_eq!(AccuracyTier::from_accuracy_rate(84), AccuracyTier::Silver);
    assert_eq!(AccuracyTier::from_accuracy_rate(70), AccuracyTier::Silver);
    assert_eq!(AccuracyTier::from_accuracy_rate(69), AccuracyTier::Bronze);
    assert_eq!(AccuracyTier::from_accuracy_rate(50), AccuracyTier::Bronze);
    assert_eq!(AccuracyTier::from_accuracy_rate(49), AccuracyTier::Unrated);
    // Out-of-range rates fall outside every tier range and earn nothing.
    assert_eq!(AccuracyTier::from_accuracy_rate(101), AccuracyTier::Unrated);
    assert_eq!(AccuracyTier::from_accuracy_rate(255), AccuracyTier::Unrated);
    assert_eq!(AccuracyTier::Unrated.to_string(), "None");
    assert_eq!(AccuracyTier::Platinum.to_string(), "Platinum");
}

#[test]
fn alignment_tier_out_of_range_is_misaligned() {
    assert_eq!(AlignmentTier::from_score(100), AlignmentTier::Visionary);
    assert_eq!(AlignmentTier::from_score(101), AlignmentTier::Misaligned);
    assert_eq!(AlignmentTier::from_score(255), AlignmentTier::Misaligned);
}
