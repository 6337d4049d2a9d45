//! Multi-tranche milestone-gated release state machine.
//!
//! A project is an ordered sequence of time-locked funding tranches, each
//! gated by an oracle-verified milestone. A tranche moves through propose,
//! vote and execute: the release proposal collects stake-weighted yes, no and
//! abstain votes until its deadline, and execution demands both a
//! supermajority approval rate and strictly more yes than no weight. The two
//! conditions are deliberately independent: with heavy abstention a narrow
//! majority could pass the percentage test alone. A released tranche never
//! reverts, a proposal already executed is rejected with a state conflict,
//! and the project completes exactly when every tranche is released.

use vstd::prelude::*;

use crate::config::GlobalConfig;
use crate::errors::ErrorCode;
use crate::groth16_verifier;
use crate::oracle::Milestone;
use crate::proposal::{VoteEvent, VoteRecord};
use crate::stake::Stake;
use crate::stake;

verus! {

/// Supermajority threshold for releasing a tranche, in percent.
pub const SUPERMAJORITY_THRESHOLD: u64 = 66;

/// Shortest accepted voting period for a release proposal (one day).
pub const MIN_VOTING_PERIOD: u64 = 86400;

/// Longest accepted voting period for a release proposal (thirty days).
pub const MAX_VOTING_PERIOD: u64 = 2592000;

/// Longest accepted project name, in bytes.
pub const MAX_PROJECT_NAME_LEN: usize = 128;

/// Longest accepted project description, in bytes.
pub const MAX_PROJECT_DESC_LEN: usize = 1000;

/// Most tranches a project may have.
pub const MAX_TRANCHES: usize = 10;

/// Status of a project.
#[derive(Clone, Copy, Debug, PartialEq, Eq, Structural)]
pub enum ProjectStatus {
    /// Voting is open.
    Proposed,
    /// Governance approved; milestone gates active.
    Approved,
    /// Executing tranches.
    InProgress,
    /// All tranches released successfully.
    Completed,
    /// Community vote to abandon.
    Abandoned,
    /// Project failed; kept as an immutable record.
    Failed,
}

/// What a caller proposes for one tranche of a new project.
#[derive(Clone, Debug, PartialEq, Eq)]
pub struct TrancheInput {
    /// 1-based position; tranches must be numbered consecutively.
    pub sequence: u8,
    pub funding_amount: u64,
    pub unlock_date: u64,
    pub milestone_description: Vec<u8>,
    pub verification_type: crate::oracle::MilestoneVerificationType,
    pub required_attestations: u8,
}

/// A single funding tranche.
#[derive(Clone, Debug, PartialEq, Eq)]
pub struct Tranche {
    pub id: u64,
    /// 1-based position in the project.
    pub sequence: u8,
    pub funding_amount: u64,
    /// Release is impossible before this time, even with the milestone met.
    pub unlock_date: u64,
    /// The milestone that must verify before release.
    pub milestone_id: u64,
    /// Write-once: set exactly when the funds move.
    pub released: bool,
    pub released_at: Option<u64>,
    /// Where the funds go.
    pub recipient: u64,
}

impl Tranche {
    /// Whether the hard unlock date has been reached.
    pub fn is_unlocked(&self, current_time: u64) -> (r: bool)
        ensures
            r == (current_time >= self.unlock_date),
    {
        current_time >= self.unlock_date
    }

    /// Whether the tranche could be released right now, given whether its
    /// milestone has verified.
    pub fn can_release(&self, current_time: u64, milestone_verified: bool) -> (r: bool)
        ensures
            r == (!self.released && current_time >= self.unlock_date && milestone_verified),
    {
        !self.released && self.is_unlocked(current_time) && milestone_verified
    }
}

/// A project with multiple funding tranches.
#[derive(Clone, Debug, PartialEq, Eq)]
pub struct TranhumanProject {
    pub id: u64,
    pub name: Vec<u8>,
    pub description: Vec<u8>,
    pub creator: u64,
    pub total_funding_needed: u64,
    /// Identity of the treasury escrowing the funds.
    pub treasury: u64,
    pub tranches: Vec<Tranche>,
    pub status: ProjectStatus,
    /// Supermajority threshold, in percent.
    pub approval_votes_required: u64,
    pub created_at: u64,
    pub completed_at: Option<u64>,
    /// Reference into the permanent archive, once written.
    pub arweave_hash: Option<Vec<u8>>,
    /// The record stays forever, even after completion.
    pub immutable_record: bool,
}

/// Sum of the funding amounts of a tranche sequence.
pub open spec fn sum_tranche_amounts(ts: Seq<Tranche>) -> int
    decreases ts.len(),
{
    if ts.len() == 0 {
        0
    } else {
        ts[0].funding_amount + sum_tranche_amounts(ts.skip(1))
    }
}

/// Sum of the funding amounts of the released tranches.
pub open spec fn sum_released(ts: Seq<Tranche>) -> int
    decreases ts.len(),
{
    if ts.len() == 0 {
        0
    } else {
        (if ts[0].released {
            ts[0].funding_amount as int
        } else {
            0
        }) + sum_released(ts.skip(1))
    }
}

/// Sum of the funding amounts of the tranches not yet released.
pub open spec fn sum_pending(ts: Seq<Tranche>) -> int
    decreases ts.len(),
{
    if ts.len() == 0 {
        0
    } else {
        (if ts[0].released {
            0
        } else {
            ts[0].funding_amount as int
        }) + sum_pending(ts.skip(1))
    }
}

/// Released and pending amounts are non-negative and partition the total.
pub proof fn lemma_sum_split(ts: Seq<Tranche>)
    ensures
        0 <= sum_released(ts) <= sum_tranche_amounts(ts),
        0 <= sum_pending(ts) <= sum_tranche_amounts(ts),
        sum_released(ts) + sum_pending(ts) == sum_tranche_amounts(ts),
    decreases ts.len(),
{
    if ts.len() > 0 {
        lemma_sum_split(ts.skip(1));
    }
}

/// Peeling one element off the front of the tail: relates the sums over
/// `skip(i)` and `skip(i + 1)`.
proof fn lemma_sums_skip_step(ts: Seq<Tranche>, i: int)
    requires
        0 <= i < ts.len(),
    ensures
        sum_tranche_amounts(ts.skip(i)) == ts[i].funding_amount + sum_tranche_amounts(
            ts.skip(i + 1),
        ),
        sum_released(ts.skip(i)) == (if ts[i].released {
            ts[i].funding_amount as int
        } else {
            0
        }) + sum_released(ts.skip(i + 1)),
        sum_pending(ts.skip(i)) == (if ts[i].released {
            0
        } else {
            ts[i].funding_amount as int
        }) + sum_pending(ts.skip(i + 1)),
{
    assert(ts.skip(i).skip(1) =~= ts.skip(i + 1));
    assert(ts.skip(i)[0] == ts[i]);
}

/// Setting one tranche's released flag (keeping its amount) moves its amount
/// between the released and pending sums and leaves the total unchanged.
proof fn lemma_sums_update(ts: Seq<Tranche>, i: int, t: Tranche)
    requires
        0 <= i < ts.len(),
        t.funding_amount == ts[i].funding_amount,
    ensures
        sum_tranche_amounts(ts.update(i, t)) == sum_tranche_amounts(ts),
        ts[i].released == t.released ==> sum_released(ts.update(i, t)) == sum_released(ts),
        !ts[i].released && t.released ==> sum_released(ts.update(i, t)) == sum_released(ts)
            + t.funding_amount,
    decreases i,
{
    let us = ts.update(i, t);
    if i == 0 {
        assert(us.skip(1) =~= ts.skip(1));
    } else {
        assert(us.skip(1) =~= ts.skip(1).update(i - 1, t));
        lemma_sums_update(ts.skip(1), i - 1, t);
    }
}

/// Whether a project's total tranche funding fits 64-bit arithmetic; projects
/// built by `propose_transhuman_project` always satisfy it.
pub open spec fn project_funding_fits(p: TranhumanProject) -> bool {
    sum_tranche_amounts(p.tranches@) <= u64::MAX
}

impl TranhumanProject {
    /// First tranche that could release right now, with its milestone status
    /// still unknown (treated as unverified): with the milestone gate closed
    /// no tranche qualifies.
    pub fn next_available_tranche(&self, current_time: u64) -> (r: Option<usize>)
        ensures
            r is None,
    {
        let mut i: usize = 0;
        while i < self.tranches.len()
            invariant
                i <= self.tranches@.len(),
            decreases self.tranches@.len() - i,
        {
            if self.tranches[i].can_release(current_time, false) {
                return Some(i);
            }
            i += 1;
        }
        None
    }

    /// Total funding already released.
    pub fn total_released(&self) -> (r: u64)
        requires
            project_funding_fits(*self),
        ensures
            r == sum_released(self.tranches@),
    {
        let ts = &self.tranches;
        let n = ts.len();
        let mut acc: u64 = 0;
        let mut i: usize = 0;
        proof {
            assert(ts@.skip(0) =~= ts@);
            lemma_sum_split(ts@);
        }
        while i < n
            invariant
                i <= n,
                n == ts@.len(),
                sum_tranche_amounts(ts@) <= u64::MAX,
                acc + sum_released(ts@.skip(i as int)) == sum_released(ts@),
                acc <= sum_released(ts@),
            decreases n - i,
        {
            proof {
                lemma_sums_skip_step(ts@, i as int);
                lemma_sum_split(ts@.skip(i as int + 1));
                lemma_sum_split(ts@);
            }
            if ts[i].released {
                acc = acc + ts[i].funding_amount;
            }
            i += 1;
        }
        proof {
            assert(ts@.skip(n as int) =~= Seq::<Tranche>::empty());
        }
        acc
    }

    /// Total funding not yet released.
    pub fn total_pending(&self) -> (r: u64)
        requires
            project_funding_fits(*self),
        ensures
            r == sum_pending(self.tranches@),
    {
        let ts = &self.tranches;
        let n = ts.len();
        let mut acc: u64 = 0;
        let mut i: usize = 0;
        proof {
            assert(ts@.skip(0) =~= ts@);
            lemma_sum_split(ts@);
        }
        while i < n
            invariant
                i <= n,
                n == ts@.len(),
                sum_tranche_amounts(ts@) <= u64::MAX,
                acc + sum_pending(ts@.skip(i as int)) == sum_pending(ts@),
                acc <= sum_pending(ts@),
            decreases n - i,
        {
            proof {
                lemma_sums_skip_step(ts@, i as int);
                lemma_sum_split(ts@.skip(i as int + 1));
                lemma_sum_split(ts@);
            }
            if !ts[i].released {
                acc = acc + ts[i].funding_amount;
            }
            i += 1;
        }
        proof {
            assert(ts@.skip(n as int) =~= Seq::<Tranche>::empty());
        }
        acc
    }

    /// Whether every tranche's funding has been released.
    pub fn is_fully_funded(&self) -> (r: bool)
        requires
            project_funding_fits(*self),
        ensures
            r == (sum_released(self.tranches@) == self.total_funding_needed),
    {
        self.total_released() == self.total_funding_needed
    }

    /// Attach the permanent-archive reference to the project. The reference
    /// must have the expected length; otherwise nothing changes.
    pub fn record_archive(&mut self, arweave_tx_hash: Vec<u8>) -> (r: Result<(), ErrorCode>)
        ensures
            40 <= arweave_tx_hash@.len() <= 50 ==> r is Ok && *final(self) == (TranhumanProject {
                arweave_hash: Some(arweave_tx_hash),
                ..*old(self)
            }),
            !(40 <= arweave_tx_hash@.len() <= 50) ==> r == Err::<(), ErrorCode>(
                ErrorCode::InvalidPoWContent,
            ) && *final(self) == *old(self),
    {
        if arweave_tx_hash.len() < 40 || arweave_tx_hash.len() > 50 {
            return Err(ErrorCode::InvalidPoWContent);
        }
        self.arweave_hash = Some(arweave_tx_hash);
        Ok(())
    }
}

/// Immutable record of one tranche release.
#[derive(Clone, Debug, PartialEq, Eq)]
pub struct TrancheReleaseRecord {
    pub project_id: u64,
    pub project_name: Vec<u8>,
    pub tranche_id: u64,
    pub tranche_sequence: u8,
    pub milestone_description: Vec<u8>,
    pub amount: u64,
    pub recipient: u64,
    pub released_at: u64,
    pub oracle_attestations_count: u8,
    /// Percentage of vote weight in favour at execution.
    pub vote_approval_rate: u8,
    /// Reference into the permanent archive, once written.
    pub arweave_hash: Option<Vec<u8>>,
}

/// A proposal to release one tranche, subject to a community vote.
#[derive(Clone, Debug, PartialEq, Eq)]
pub struct TrancheReleaseProposal {
    pub id: u64,
    pub project_id: u64,
    pub tranche_id: u64,
    pub proposed_at: u64,
    pub voting_deadline: u64,
    pub votes_yes: u64,
    pub votes_no: u64,
    pub votes_abstain: u64,
    pub status: TrancheVoteStatus,
}

/// Status of a tranche release proposal, monotone along
/// open, closed, executed.
#[derive(Clone, Copy, Debug, PartialEq, Eq, Structural)]
pub enum TrancheVoteStatus {
    /// Voting in progress.
    Open,
    /// Supermajority reached, ready to execute.
    Approved,
    /// Majority voted no.
    Rejected,
    /// Voting window closed without execution.
    Expired,
    /// Funds released; terminal.
    Executed,
}

/// One weighted vote on a tranche release.
#[derive(Clone, Debug, PartialEq, Eq)]
pub struct TrancheVote {
    pub voter: u64,
    pub proposal_id: u64,
    pub vote: TrancheVoteType,
    /// Voting power, from the decayed stake.
    pub weight: u64,
    pub voted_at: u64,
}

/// The three vote buckets.
#[derive(Clone, Copy, Debug, PartialEq, Eq, Structural)]
pub enum TrancheVoteType {
    Yes,
    No,
    Abstain,
}

/// Failures specific to tranche operations, kept distinguishable for callers
/// that only deal in tranches.
#[derive(Clone, Copy, Debug, PartialEq, Eq, Structural)]
pub enum TrancheErrorCode {
    TrancheNotYetUnlocked,
    MilestoneNotVerified,
    TrancheAlreadyReleased,
    InsufficientVoteApproval,
    ProjectStatusInvalid,
    TrancheNotFound,
}

/// The integer approval percentage of a tally: yes weight per total weight,
/// floored; zero when nothing was voted.
pub open spec fn approval_rate_of(yes: u64, no: u64, abstain: u64) -> int {
    if yes + no + abstain == 0 {
        0
    } else {
        (yes * 100) / (yes + no + abstain)
    }
}

/// The supermajority gate on a tally: the deadline has passed, the approval
/// rate reaches the threshold, and yes strictly outweighs no. The last two
/// conditions are independent on purpose.
pub open spec fn passes_spec(
    yes: u64,
    no: u64,
    abstain: u64,
    threshold: u64,
    now: u64,
    deadline: u64,
) -> bool {
    now >= deadline && approval_rate_of(yes, no, abstain) >= threshold && yes > no
}

/// An approval rate never exceeds one hundred percent.
pub proof fn lemma_approval_rate_bounds(yes: u64, no: u64, abstain: u64)
    ensures
        0 <= approval_rate_of(yes, no, abstain) <= 100,
{
    let total = yes + no + abstain;
    if total != 0 {
        assert(yes * 100 <= total * 100) by (nonlinear_arith)
            requires yes <= total;
        assert(0 <= (yes * 100) / total <= 100) by (nonlinear_arith)
            requires yes * 100 >= 0 && yes * 100 <= total * 100 && total > 0;
    }
}

/// Compute the integer approval percentage of a tally.
pub fn approval_rate_tally(yes: u64, no: u64, abstain: u64) -> (r: u8)
    ensures
        r as int == approval_rate_of(yes, no, abstain),
{
    let total: u128 = yes as u128 + no as u128 + abstain as u128;
    if total == 0 {
        return 0;
    }
    let rate = (yes as u128 * 100) / total;
    proof {
        lemma_approval_rate_bounds(yes, no, abstain);
    }
    rate as u8
}

/// The shared governance tally gate: whether a yes/no/abstain tally passes a
/// supermajority threshold once its deadline has passed. Both the release
/// vote and direct proposal funding judge votes through this one rule, so
/// rounding and tie-breaks cannot diverge between them.
pub fn tally_passes(yes: u64, no: u64, abstain: u64, threshold: u64, now: u64, deadline: u64) -> (r:
    bool)
    ensures
        r == passes_spec(yes, no, abstain, threshold, now, deadline),
{
    if now < deadline {
        return false;
    }
    let rate = approval_rate_tally(yes, no, abstain);
    rate as u64 >= threshold && yes > no
}

impl TrancheReleaseProposal {
    /// The integer approval percentage of the tally so far.
    pub fn approval_rate(&self) -> (r: u8)
        ensures
            r as int == approval_rate_of(self.votes_yes, self.votes_no, self.votes_abstain),
    {
        approval_rate_tally(self.votes_yes, self.votes_no, self.votes_abstain)
    }

    /// Whether the proposal has passed the supermajority gate.
    pub fn is_approved(&self, current_time: u64) -> (r: bool)
        ensures
            r == passes_spec(
                self.votes_yes,
                self.votes_no,
                self.votes_abstain,
                SUPERMAJORITY_THRESHOLD,
                current_time,
                self.voting_deadline,
            ),
    {
        tally_passes(
            self.votes_yes,
            self.votes_no,
            self.votes_abstain,
            SUPERMAJORITY_THRESHOLD,
            current_time,
            self.voting_deadline,
        )
    }

    /// Whether the proposal has closed with the no side holding at least as
    /// much weight as the yes side.
    pub fn is_rejected(&self, current_time: u64) -> (r: bool)
        ensures
            r == (current_time >= self.voting_deadline && self.votes_no >= self.votes_yes),
    {
        current_time >= self.voting_deadline && self.votes_no >= self.votes_yes
    }
}

/// Why one tranche input is rejected while walking the list in order, with
/// `last_unlock` the unlock date of the previous tranche; `None` past the
/// end means the whole list is accepted.
pub open spec fn validate_tranches(ts: Seq<TrancheInput>, i: int, last_unlock: u64) -> Option<
    ErrorCode,
>
    decreases ts.len() - i,
{
    if i < 0 || i >= ts.len() {
        None
    } else if ts[i].sequence as int != i + 1 {
        Some(ErrorCode::InvalidTrancheSequence)
    } else if ts[i].funding_amount == 0 {
        Some(ErrorCode::InvalidFundingAmount)
    } else if ts[i].unlock_date < last_unlock {
        Some(ErrorCode::InvalidUnlockDates)
    } else {
        validate_tranches(ts, i + 1, ts[i].unlock_date)
    }
}

/// What a valid tranche list looks like: numbered consecutively from one,
/// every amount positive, unlock dates non-decreasing.
pub open spec fn tranches_well_formed(ts: Seq<TrancheInput>) -> bool {
    &&& forall|j: int|
        0 <= j < ts.len() ==> (#[trigger] ts[j]).sequence as int == j + 1
            && ts[j].funding_amount > 0
    &&& forall|j: int| 0 < j < ts.len() ==> (#[trigger] ts[j]).unlock_date >= ts[j - 1].unlock_date
}

/// Tranche ordering: a tranche list is accepted exactly when it is numbered
/// consecutively from one with positive amounts and non-decreasing unlock
/// dates; any list out of order is rejected, and rejection at proposal time
/// means no project is created.
pub proof fn lemma_tranche_ordering(ts: Seq<TrancheInput>)
    ensures
        validate_tranches(ts, 0, 0) is None <==> tranches_well_formed(ts),
{
    lemma_validate_walk(ts, 0, 0);
}

/// The validation walk from position `i` accepts exactly the lists whose
/// tail from `i` is well formed and starts no earlier than `last_unlock`.
proof fn lemma_validate_walk(ts: Seq<TrancheInput>, i: int, last_unlock: u64)
    requires
        0 <= i <= ts.len(),
    ensures
        validate_tranches(ts, i, last_unlock) is None <==> ((forall|j: int|
            i <= j < ts.len() ==> (#[trigger] ts[j]).sequence as int == j + 1
                && ts[j].funding_amount > 0) && (forall|j: int|
            i < j < ts.len() ==> (#[trigger] ts[j]).unlock_date >= ts[j - 1].unlock_date) && (i
            < ts.len() ==> ts[i].unlock_date >= last_unlock)),
    decreases ts.len() - i,
{
    if i < ts.len() {
        lemma_validate_walk(ts, i + 1, if ts[i].sequence as int == i + 1 && ts[i].funding_amount
            > 0 && ts[i].unlock_date >= last_unlock {
            ts[i].unlock_date
        } else {
            last_unlock
        });
        lemma_validate_walk(ts, i + 1, ts[i].unlock_date);
    }
}

/// Sum of the funding amounts of the proposed tranches.
pub open spec fn sum_input_amounts(ts: Seq<TrancheInput>) -> int
    decreases ts.len(),
{
    if ts.len() == 0 {
        0
    } else {
        ts[0].funding_amount + sum_input_amounts(ts.skip(1))
    }
}

/// Input sums are non-negative.
pub proof fn lemma_sum_input_nonneg(ts: Seq<TrancheInput>)
    ensures
        0 <= sum_input_amounts(ts),
    decreases ts.len(),
{
    if ts.len() > 0 {
        lemma_sum_input_nonneg(ts.skip(1));
    }
}

/// Why proposing a project fails, checked in this order; `None` means the
/// project is created.
pub open spec fn propose_project_err(
    project_name: Seq<u8>,
    project_description: Seq<u8>,
    ts: Seq<TrancheInput>,
    project_id: u64,
) -> Option<ErrorCode> {
    if project_name.len() == 0 || project_name.len() > MAX_PROJECT_NAME_LEN {
        Some(ErrorCode::ProjectNameTooLong)
    } else if project_description.len() > MAX_PROJECT_DESC_LEN {
        Some(ErrorCode::ProjectDescriptionTooLong)
    } else if ts.len() < 1 || ts.len() > MAX_TRANCHES {
        Some(ErrorCode::InvalidTrancheCount)
    } else if validate_tranches(ts, 0, 0) is Some {
        validate_tranches(ts, 0, 0)
    } else if sum_input_amounts(ts) > u64::MAX {
        Some(ErrorCode::ArithmeticOverflow)
    } else if project_id * 1000 + ts.len() > u64::MAX {
        Some(ErrorCode::ArithmeticOverflow)
    } else {
        None
    }
}

/// The tranche a project gets from one accepted input: identifiers derived
/// from the project, nothing released yet, funds destined for the creator.
pub open spec fn tranche_of_input(input: TrancheInput, project_id: u64, creator: u64) -> Tranche {
    Tranche {
        id: (project_id * 1000 + input.sequence) as u64,
        sequence: input.sequence,
        funding_amount: input.funding_amount,
        unlock_date: input.unlock_date,
        milestone_id: (project_id * 1000 + input.sequence) as u64,
        released: false,
        released_at: None,
        recipient: creator,
    }
}

/// Propose a project: validate the name, description and tranche list
/// (consecutive sequence numbers, positive amounts, non-decreasing unlock
/// dates), and assemble the project with the total funding equal to the sum
/// of its tranches. On any rejection no project is created.
#[verifier::loop_isolation(false)]
pub fn propose_transhuman_project(
    project_id: u64,
    project_name: Vec<u8>,
    project_description: Vec<u8>,
    creator: u64,
    treasury: u64,
    tranches: Vec<TrancheInput>,
    now: u64,
) -> (r: Result<TranhumanProject, ErrorCode>)
    ensures
        match propose_project_err(project_name@, project_description@, tranches@, project_id) {
            Some(e) => r == Err::<TranhumanProject, ErrorCode>(e),
            None => {
                &&& r matches Ok(p)
                &&& p.id == project_id
                &&& p.name == project_name
                &&& p.description == project_description
                &&& p.creator == creator
                &&& p.total_funding_needed == sum_input_amounts(tranches@)
                &&& p.treasury == treasury
                &&& p.status == ProjectStatus::Proposed
                &&& p.approval_votes_required == SUPERMAJORITY_THRESHOLD
                &&& p.created_at == now
                &&& p.completed_at is None
                &&& p.arweave_hash is None
                &&& p.immutable_record
                &&& p.tranches@.len() == tranches@.len()
                &&& forall|i: int|
                    0 <= i < tranches@.len() ==> p.tranches@[i] == tranche_of_input(
                        #[trigger] tranches@[i],
                        project_id,
                        creator,
                    )
                &&& project_funding_fits(p)
            },
        },
{
    if project_name.len() == 0 || project_name.len() > MAX_PROJECT_NAME_LEN {
        return Err(ErrorCode::ProjectNameTooLong);
    }
    if project_description.len() > MAX_PROJECT_DESC_LEN {
        return Err(ErrorCode::ProjectDescriptionTooLong);
    }
    let n = tranches.len();
    if n < 1 || n > MAX_TRANCHES {
        return Err(ErrorCode::InvalidTrancheCount);
    }

    // Walk the tranche list once, rejecting the first rule it breaks.
    let mut last_unlock_date: u64 = 0;
    let mut i: usize = 0;
    while i < n
        invariant
            i <= n,
            n == tranches@.len(),
            validate_tranches(tranches@, 0, 0) == validate_tranches(
                tranches@,
                i as int,
                last_unlock_date,
            ),
        decreases n - i,
    {
        let t = &tranches[i];
        if t.sequence as usize != i + 1 {
            return Err(ErrorCode::InvalidTrancheSequence);
        }
        if t.funding_amount == 0 {
            return Err(ErrorCode::InvalidFundingAmount);
        }
        if t.unlock_date < last_unlock_date {
            return Err(ErrorCode::InvalidUnlockDates);
        }
        last_unlock_date = t.unlock_date;
        i += 1;
    }

    // Total funding is the checked sum of the tranche amounts.
    let mut total_funding_needed: u64 = 0;
    let mut i: usize = 0;
    proof {
        assert(tranches@.skip(0) =~= tranches@);
    }
    while i < n
        invariant
            i <= n,
            n == tranches@.len(),
            total_funding_needed + sum_input_amounts(tranches@.skip(i as int))
                == sum_input_amounts(tranches@),
        decreases n - i,
    {
        proof {
            assert(tranches@.skip(i as int).skip(1) =~= tranches@.skip(i as int + 1));
            assert(tranches@.skip(i as int)[0] == tranches@[i as int]);
            lemma_sum_input_nonneg(tranches@.skip(i as int + 1));
        }
        total_funding_needed = match total_funding_needed.checked_add(tranches[i].funding_amount) {
            Some(v) => v,
            None => {
                return Err(ErrorCode::ArithmeticOverflow);
            },
        };
        i += 1;
    }
    proof {
        assert(tranches@.skip(n as int) =~= Seq::<TrancheInput>::empty());
    }

    // Derive each tranche's identifiers from the project.
    let base = match project_id.checked_mul(1000) {
        Some(v) => v,
        None => {
            proof {
                assert(project_id * 1000 + n > u64::MAX) by (nonlinear_arith)
                    requires project_id * 1000 > u64::MAX && n >= 0;
            }
            return Err(ErrorCode::ArithmeticOverflow);
        },
    };
    let mut tranche_accounts: Vec<Tranche> = Vec::new();
    let mut i: usize = 0;
    while i < n
        invariant
            i <= n,
            n == tranches@.len(),
            n <= MAX_TRANCHES,
            base == project_id * 1000,
            validate_tranches(tranches@, 0, 0) is None,
            tranche_accounts@.len() == i,
            forall|j: int|
                0 <= j < i ==> tranche_accounts@[j] == tranche_of_input(
                    #[trigger] tranches@[j],
                    project_id,
                    creator,
                ),
        decreases n - i,
    {
        proof {
            lemma_validate_positions(tranches@, 0, 0, i as int);
        }
        let seq_no = tranches[i].sequence;
        let id = match base.checked_add(seq_no as u64) {
            Some(v) => v,
            None => {
                return Err(ErrorCode::ArithmeticOverflow);
            },
        };
        tranche_accounts.push(Tranche {
            id,
            sequence: seq_no,
            funding_amount: tranches[i].funding_amount,
            unlock_date: tranches[i].unlock_date,
            milestone_id: id,
            released: false,
            released_at: None,
            recipient: creator,
        });
        i += 1;
    }

    let project = TranhumanProject {
        id: project_id,
        name: project_name,
        description: project_description,
        creator,
        total_funding_needed,
        treasury,
        tranches: tranche_accounts,
        status: ProjectStatus::Proposed,
        approval_votes_required: SUPERMAJORITY_THRESHOLD,
        created_at: now,
        completed_at: None,
        arweave_hash: None,
        immutable_record: true,
    };
    proof {
        lemma_sum_of_inputs_matches(tranches@, project.tranches@, project_id, creator);
    }
    Ok(project)
}

/// In an accepted list, the tranche at position `i` carries sequence number
/// `i + 1`.
proof fn lemma_validate_positions(ts: Seq<TrancheInput>, i: int, last_unlock: u64, k: int)
    requires
        0 <= i <= k < ts.len(),
        validate_tranches(ts, i, last_unlock) is None,
    ensures
        ts[k].sequence as int == k + 1,
        ts[k].sequence <= ts.len(),
    decreases k - i,
{
    if i < k {
        lemma_validate_positions(ts, i + 1, ts[i].unlock_date, k);
    }
}

/// Tranches built from accepted inputs carry the same amounts, so the sums
/// agree.
proof fn lemma_sum_of_inputs_matches(
    ins: Seq<TrancheInput>,
    ts: Seq<Tranche>,
    project_id: u64,
    creator: u64,
)
    requires
        ts.len() == ins.len(),
        forall|j: int| 0 <= j < ins.len() ==> ts[j] == tranche_of_input(#[trigger] ins[j], project_id, creator),
    ensures
        sum_tranche_amounts(ts) == sum_input_amounts(ins),
    decreases ins.len(),
{
    if ins.len() > 0 {
        assert(ts.skip(1).len() == ins.skip(1).len());
        assert(forall|j: int|
            0 <= j < ins.skip(1).len() ==> ts.skip(1)[j] == tranche_of_input(
                #[trigger] ins.skip(1)[j],
                project_id,
                creator,
            ));
        lemma_sum_of_inputs_matches(ins.skip(1), ts.skip(1), project_id, creator);
    }
}

/// Position of the first tranche with the given sequence number, scanning
/// from `i`.
pub open spec fn tranche_pos(ts: Seq<Tranche>, seq_no: u8, i: int) -> Option<int>
    decreases ts.len() - i,
{
    if i < 0 || i >= ts.len() {
        None
    } else if ts[i].sequence == seq_no {
        Some(i)
    } else {
        tranche_pos(ts, seq_no, i + 1)
    }
}

/// A found position indexes a tranche with the sought sequence number.
pub proof fn lemma_tranche_pos_sound(ts: Seq<Tranche>, seq_no: u8, i: int)
    requires
        0 <= i <= ts.len(),
    ensures
        tranche_pos(ts, seq_no, i) matches Some(k) ==> i <= k < ts.len() && ts[k].sequence
            == seq_no,
    decreases ts.len() - i,
{
    if i < ts.len() && ts[i].sequence != seq_no {
        lemma_tranche_pos_sound(ts, seq_no, i + 1);
    }
}

/// Find the first tranche with the given sequence number.
fn find_tranche_index(ts: &Vec<Tranche>, seq_no: u8) -> (r: Option<usize>)
    ensures
        r is Some <==> tranche_pos(ts@, seq_no, 0) is Some,
        r matches Some(i) ==> tranche_pos(ts@, seq_no, 0) == Some(i as int),
{
    let n = ts.len();
    let mut i: usize = 0;
    while i < n
        invariant
            i <= n,
            n == ts@.len(),
            tranche_pos(ts@, seq_no, 0) == tranche_pos(ts@, seq_no, i as int),
        decreases n - i,
    {
        if ts[i].sequence == seq_no {
            return Some(i);
        }
        i += 1;
    }
    None
}

/// Why opening a release vote fails, checked in this order; `None` means the
/// proposal opens.
pub open spec fn propose_release_err(
    project: TranhumanProject,
    milestone: Milestone,
    voting_period_seconds: u64,
    now: u64,
) -> Option<ErrorCode> {
    if voting_period_seconds < MIN_VOTING_PERIOD || voting_period_seconds > MAX_VOTING_PERIOD {
        Some(ErrorCode::InvalidVotingPeriod)
    } else if milestone.verified_at is None {
        Some(ErrorCode::MilestoneNotVerified)
    } else {
        match tranche_pos(project.tranches@, (milestone.tranche_id % 256) as u8, 0) {
            None => Some(ErrorCode::TrancheNotFound),
            Some(k) => if project.tranches@[k].released {
                Some(ErrorCode::TrancheAlreadyReleased)
            } else if now < project.tranches@[k].unlock_date {
                Some(ErrorCode::TrancheNotYetUnlocked)
            } else if now + voting_period_seconds > u64::MAX {
                Some(ErrorCode::ArithmeticOverflow)
            } else {
                None
            },
        }
    }
}

/// Open the vote on releasing a tranche: the voting period must be between
/// one and thirty days, the tranche's milestone must already be verified,
/// the tranche must not be released, and its unlock date must have passed.
/// The proposal starts with empty vote buckets.
pub fn propose_tranche_release(
    project: &TranhumanProject,
    milestone: &Milestone,
    proposal_id: u64,
    voting_period_seconds: u64,
    now: u64,
) -> (r: Result<TrancheReleaseProposal, ErrorCode>)
    ensures
        match propose_release_err(*project, *milestone, voting_period_seconds, now) {
            Some(e) => r == Err::<TrancheReleaseProposal, ErrorCode>(e),
            None => r == Ok::<TrancheReleaseProposal, ErrorCode>(TrancheReleaseProposal {
                id: proposal_id,
                project_id: project.id,
                tranche_id: milestone.tranche_id,
                proposed_at: now,
                voting_deadline: (now + voting_period_seconds) as u64,
                votes_yes: 0,
                votes_no: 0,
                votes_abstain: 0,
                status: TrancheVoteStatus::Open,
            }),
        },
{
    if voting_period_seconds < MIN_VOTING_PERIOD || voting_period_seconds > MAX_VOTING_PERIOD {
        return Err(ErrorCode::InvalidVotingPeriod);
    }
    if milestone.verified_at.is_none() {
        return Err(ErrorCode::MilestoneNotVerified);
    }
    let seq_no = (milestone.tranche_id % 256) as u8;
    let idx = match find_tranche_index(&project.tranches, seq_no) {
        Some(i) => i,
        None => {
            return Err(ErrorCode::TrancheNotFound);
        },
    };
    proof {
        lemma_tranche_pos_sound(project.tranches@, seq_no, 0);
    }
    if project.tranches[idx].released {
        return Err(ErrorCode::TrancheAlreadyReleased);
    }
    if now < project.tranches[idx].unlock_date {
        return Err(ErrorCode::TrancheNotYetUnlocked);
    }
    let voting_deadline = match now.checked_add(voting_period_seconds) {
        Some(v) => v,
        None => {
            return Err(ErrorCode::ArithmeticOverflow);
        },
    };
    Ok(TrancheReleaseProposal {
        id: proposal_id,
        project_id: project.id,
        tranche_id: milestone.tranche_id,
        proposed_at: now,
        voting_deadline,
        votes_yes: 0,
        votes_no: 0,
        votes_abstain: 0,
        status: TrancheVoteStatus::Open,
    })
}

/// Why a release vote fails, checked in this order; `None` means the vote is
/// counted.
pub open spec fn tranche_vote_err(
    proposal: TrancheReleaseProposal,
    record: VoteRecord,
    stake_entry: Stake,
    config: GlobalConfig,
    vote: TrancheVoteType,
    now: u64,
) -> Option<ErrorCode> {
    if now > proposal.voting_deadline {
        Some(ErrorCode::ProposalExpired)
    } else if record.has_voted {
        Some(ErrorCode::AlreadyVoted)
    } else if !stake::vote_weight_fits(stake_entry, config.demurrage_rate, now) {
        Some(ErrorCode::ArithmeticOverflow)
    } else {
        let w = stake::vote_weight_of(stake_entry, config.demurrage_rate, now);
        let bucket = match vote {
            TrancheVoteType::Yes => proposal.votes_yes as int,
            TrancheVoteType::No => proposal.votes_no as int,
            TrancheVoteType::Abstain => proposal.votes_abstain as int,
        };
        if bucket + w > u64::MAX {
            Some(ErrorCode::ArithmeticOverflow)
        } else {
            None
        }
    }
}

/// No double vote on a release proposal either: once a voter's slot shows a
/// vote, every further vote on the proposal is rejected, whatever the
/// choice; while voting is still open the rejection is exactly the
/// already-voted state conflict. With the vote operation's own contract (a
/// rejected vote changes nothing) no registration is counted twice.
pub proof fn lemma_no_double_tranche_vote(
    proposal: TrancheReleaseProposal,
    record: VoteRecord,
    stake_entry: Stake,
    config: GlobalConfig,
    vote: TrancheVoteType,
    now: u64,
)
    requires
        record.has_voted,
    ensures
        tranche_vote_err(proposal, record, stake_entry, config, vote, now) is Some,
        now <= proposal.voting_deadline ==> tranche_vote_err(
            proposal,
            record,
            stake_entry,
            config,
            vote,
            now,
        ) == Some(ErrorCode::AlreadyVoted),
{
}

/// The tally after a vote of `weight` lands in the chosen bucket.
pub open spec fn tally_after_vote(
    proposal: TrancheReleaseProposal,
    vote: TrancheVoteType,
    weight: int,
) -> TrancheReleaseProposal {
    match vote {
        TrancheVoteType::Yes => TrancheReleaseProposal {
            votes_yes: (proposal.votes_yes + weight) as u64,
            ..proposal
        },
        TrancheVoteType::No => TrancheReleaseProposal {
            votes_no: (proposal.votes_no + weight) as u64,
            ..proposal
        },
        TrancheVoteType::Abstain => TrancheReleaseProposal {
            votes_abstain: (proposal.votes_abstain + weight) as u64,
            ..proposal
        },
    }
}

/// Cast a yes/no/abstain vote on a tranche release: voting must still be
/// open and the voter's slot unused. The voter's current decayed stake
/// weight lands in the chosen bucket; on any rejection the proposal and the
/// slot are left exactly as they were.
pub fn vote_on_tranche_release(
    proposal: &mut TrancheReleaseProposal,
    vote_record: &mut VoteRecord,
    stake_entry: &Stake,
    config: &GlobalConfig,
    vote: TrancheVoteType,
    now: u64,
) -> (r: Result<VoteEvent, ErrorCode>)
    ensures
        match tranche_vote_err(*old(proposal), *old(vote_record), *stake_entry, *config, vote, now) {
            Some(e) => r == Err::<VoteEvent, ErrorCode>(e) && *final(proposal) == *old(proposal)
                && *final(vote_record) == *old(vote_record),
            None => {
                let weight = stake::vote_weight_of(*stake_entry, config.demurrage_rate, now);
                &&& *final(proposal) == tally_after_vote(*old(proposal), vote, weight)
                &&& final(vote_record).has_voted
                &&& final(vote_record).vote_weight == weight
                &&& final(vote_record).voted_at == now
                &&& final(vote_record).nullifier@.len() == 32
                &&& groth16_verifier::all_zero(final(vote_record).nullifier@)
                &&& r matches Ok(ev)
                &&& ev.proposal_id == old(proposal).id
                &&& ev.vote_weight == weight
                &&& ev.timestamp == now
                &&& groth16_verifier::all_zero(ev.nullifier@)
            },
        },
{
    if now > proposal.voting_deadline {
        return Err(ErrorCode::ProposalExpired);
    }
    if vote_record.has_voted {
        return Err(ErrorCode::AlreadyVoted);
    }

    let weight = match stake::decayed_weight(
        stake_entry.amount,
        config.demurrage_rate,
        stake_entry.last_demurrage,
        now,
    ) {
        Ok(w) => w,
        Err(e) => {
            return Err(e);
        },
    };

    match vote {
        TrancheVoteType::Yes => {
            proposal.votes_yes = match proposal.votes_yes.checked_add(weight) {
                Some(v) => v,
                None => {
                    return Err(ErrorCode::ArithmeticOverflow);
                },
            };
        },
        TrancheVoteType::No => {
            proposal.votes_no = match proposal.votes_no.checked_add(weight) {
                Some(v) => v,
                None => {
                    return Err(ErrorCode::ArithmeticOverflow);
                },
            };
        },
        TrancheVoteType::Abstain => {
            proposal.votes_abstain = match proposal.votes_abstain.checked_add(weight) {
                Some(v) => v,
                None => {
                    return Err(ErrorCode::ArithmeticOverflow);
                },
            };
        },
    }

    vote_record.has_voted = true;
    vote_record.vote_weight = weight;
    vote_record.voted_at = now;
    vote_record.nullifier = crate::zero_bytes(32);

    Ok(VoteEvent {
        proposal_id: proposal.id,
        nullifier: crate::zero_bytes(32),
        vote_weight: weight,
        timestamp: now,
    })
}

/// Why executing a release fails, checked in this order; `None` means the
/// funds move.
pub open spec fn execute_release_err(
    project: TranhumanProject,
    proposal: TrancheReleaseProposal,
    now: u64,
) -> Option<ErrorCode> {
    if now < proposal.voting_deadline {
        Some(ErrorCode::VotingStillOpen)
    } else if proposal.status == TrancheVoteStatus::Executed {
        Some(ErrorCode::TrancheAlreadyReleased)
    } else if proposal.votes_yes + proposal.votes_no + proposal.votes_abstain == 0 {
        Some(ErrorCode::InsufficientVotes)
    } else if approval_rate_of(proposal.votes_yes, proposal.votes_no, proposal.votes_abstain)
        < SUPERMAJORITY_THRESHOLD {
        Some(ErrorCode::InsufficientVoteApproval)
    } else if proposal.votes_yes <= proposal.votes_no {
        Some(ErrorCode::InsufficientVoteApproval)
    } else {
        match tranche_pos(project.tranches@, (proposal.tranche_id % 256) as u8, 0) {
            None => Some(ErrorCode::TrancheNotFound),
            Some(k) => if project.tranches@[k].released {
                Some(ErrorCode::TrancheAlreadyReleased)
            } else {
                None
            },
        }
    }
}

/// Release idempotence: a proposal already executed can never pass the
/// release gate again, whatever the project or tally looks like; once its
/// deadline has passed (as it had when it executed) the rejection is the
/// already-released state conflict. Together with
/// `execute_tranche_release`'s own contract (a rejected execution leaves
/// project and proposal exactly as they were, and a released tranche never
/// reverts) funds move at most once per proposal.
pub proof fn lemma_release_idempotent(
    project: TranhumanProject,
    proposal: TrancheReleaseProposal,
    now: u64,
)
    requires
        proposal.status == TrancheVoteStatus::Executed,
    ensures
        execute_release_err(project, proposal, now) is Some,
        now >= proposal.voting_deadline ==> execute_release_err(project, proposal, now) == Some(
            ErrorCode::TrancheAlreadyReleased,
        ),
{
}

/// Execute a tranche release once its vote has closed and passed the
/// supermajority gate (approval rate at the threshold and yes strictly above
/// no, independently). Marks the tranche released with a timestamp, writes
/// the immutable release record whose `amount` and `recipient` the caller
/// owes as a transfer out of the project treasury, marks the proposal
/// executed, and completes the project when this was the last unreleased
/// tranche. Re-execution is rejected with a state conflict and moves
/// nothing.
pub fn execute_tranche_release(
    project: &mut TranhumanProject,
    proposal: &mut TrancheReleaseProposal,
    milestone: &Milestone,
    now: u64,
) -> (r: Result<TrancheReleaseRecord, ErrorCode>)
    requires
        project_funding_fits(*old(project)),
    ensures
        match execute_release_err(*old(project), *old(proposal), now) {
            Some(e) => r == Err::<TrancheReleaseRecord, ErrorCode>(e) && *final(project) == *old(
                project,
            ) && *final(proposal) == *old(proposal),
            None => {
                let k = tranche_pos(old(project).tranches@, (old(proposal).tranche_id % 256) as u8, 0)
                    .unwrap();
                let t = old(project).tranches@[k];
                let released_tranche = Tranche { released: true, released_at: Some(now), ..t };
                let completed = sum_released(old(project).tranches@) + t.funding_amount == old(
                    project,
                ).total_funding_needed;
                &&& final(project).tranches@ == old(project).tranches@.update(k, released_tranche)
                &&& *final(project) == (TranhumanProject {
                    tranches: final(project).tranches,
                    status: if completed {
                        ProjectStatus::Completed
                    } else {
                        old(project).status
                    },
                    completed_at: if completed {
                        Some(now)
                    } else {
                        old(project).completed_at
                    },
                    ..*old(project)
                })
                &&& *final(proposal) == (TrancheReleaseProposal {
                    status: TrancheVoteStatus::Executed,
                    ..*old(proposal)
                })
                &&& r matches Ok(rec)
                &&& rec.project_id == old(project).id
                &&& rec.project_name@ == old(project).name@
                &&& rec.tranche_id == old(proposal).tranche_id
                &&& rec.tranche_sequence == t.sequence
                &&& rec.milestone_description@ == milestone.description@
                &&& rec.amount == t.funding_amount
                &&& rec.recipient == t.recipient
                &&& rec.released_at == now
                &&& rec.oracle_attestations_count as int == milestone.attestations@.len() % 256
                &&& rec.vote_approval_rate as int == approval_rate_of(
                    old(proposal).votes_yes,
                    old(proposal).votes_no,
                    old(proposal).votes_abstain,
                )
                &&& rec.arweave_hash is None
            },
        },
        // A released tranche never reverts.
        forall|i: int|
            0 <= i < old(project).tranches@.len() && (#[trigger] old(
                project,
            ).tranches@[i]).released ==> final(project).tranches@[i].released,
        project_funding_fits(*final(project)),
{
    if now < proposal.voting_deadline {
        return Err(ErrorCode::VotingStillOpen);
    }
    if proposal.status == TrancheVoteStatus::Executed {
        return Err(ErrorCode::TrancheAlreadyReleased);
    }

    let total_votes: u128 = proposal.votes_yes as u128 + proposal.votes_no as u128
        + proposal.votes_abstain as u128;
    if total_votes == 0 {
        return Err(ErrorCode::InsufficientVotes);
    }

    let approval_rate = approval_rate_tally(
        proposal.votes_yes,
        proposal.votes_no,
        proposal.votes_abstain,
    );
    if (approval_rate as u64) < SUPERMAJORITY_THRESHOLD {
        return Err(ErrorCode::InsufficientVoteApproval);
    }
    if proposal.votes_yes <= proposal.votes_no {
        return Err(ErrorCode::InsufficientVoteApproval);
    }

    let seq_no = (proposal.tranche_id % 256) as u8;
    let idx = match find_tranche_index(&project.tranches, seq_no) {
        Some(i) => i,
        None => {
            return Err(ErrorCode::TrancheNotFound);
        },
    };
    proof {
        lemma_tranche_pos_sound(project.tranches@, seq_no, 0);
    }
    if project.tranches[idx].released {
        return Err(ErrorCode::TrancheAlreadyReleased);
    }

    let tranche_funding = project.tranches[idx].funding_amount;
    let tranche_recipient = project.tranches[idx].recipient;
    let tranche_sequence = project.tranches[idx].sequence;

    let record = TrancheReleaseRecord {
        project_id: project.id,
        project_name: crate::copy_bytes(&project.name),
        tranche_id: proposal.tranche_id,
        tranche_sequence,
        milestone_description: crate::copy_bytes(&milestone.description),
        amount: tranche_funding,
        recipient: tranche_recipient,
        released_at: now,
        oracle_attestations_count: (milestone.attestations.len() % 256) as u8,
        vote_approval_rate: approval_rate,
        arweave_hash: None,
    };

    let ghost old_tranches = project.tranches@;
    project.tranches[idx].released = true;
    project.tranches[idx].released_at = Some(now);
    proof {
        let released_tranche = Tranche {
            released: true,
            released_at: Some(now),
            ..old_tranches[idx as int]
        };
        assert(project.tranches@ =~= old_tranches.update(idx as int, released_tranche));
        lemma_sums_update(old_tranches, idx as int, released_tranche);
    }

    if project.is_fully_funded() {
        project.status = ProjectStatus::Completed;
        project.completed_at = Some(now);
    }

    proposal.status = TrancheVoteStatus::Executed;

    Ok(record)
}

/// Attach the permanent-archive reference to a release record. The
/// reference must have the expected length; otherwise nothing changes.
pub fn archive_to_arweave(record: &mut TrancheReleaseRecord, arweave_tx_hash: Vec<u8>) -> (r:
    Result<(), ErrorCode>)
    ensures
        40 <= arweave_tx_hash@.len() <= 50 ==> r is Ok && *final(record)
            == (TrancheReleaseRecord { arweave_hash: Some(arweave_tx_hash), ..*old(record) }),
        !(40 <= arweave_tx_hash@.len() <= 50) ==> r == Err::<(), ErrorCode>(
            ErrorCode::InvalidPoWContent,
        ) && *final(record) == *old(record),
{
    if arweave_tx_hash.len() < 40 || arweave_tx_hash.len() > 50 {
        return Err(ErrorCode::InvalidPoWContent);
    }
    record.arweave_hash = Some(arweave_tx_hash);
    Ok(())
}

/// Record the permanent archival of a completed milestone: validates the
/// archive reference and marks the release triggered. The verification
/// timestamp is never touched here: it is set only when the attestation
/// quorum is met, and at most once.
pub fn archive_project_milestone(
    milestone: &mut Milestone,
    milestone_data: Vec<u8>,
    arweave_tx_hash: Vec<u8>,
    _now: u64,
) -> (r: Result<(), ErrorCode>)
    ensures
        milestone_data@.len() > 1000 ==> r == Err::<(), ErrorCode>(ErrorCode::DescriptionTooLong)
            && *final(milestone) == *old(milestone),
        milestone_data@.len() <= 1000 && !(40 <= arweave_tx_hash@.len() <= 50) ==> r == Err::<
            (),
            ErrorCode,
        >(ErrorCode::InvalidPoWContent) && *final(milestone) == *old(milestone),
        milestone_data@.len() <= 1000 && 40 <= arweave_tx_hash@.len() <= 50 ==> r is Ok
            && *final(milestone) == (Milestone { release_triggered: true, ..*old(milestone) }),
        final(milestone).verified_at == old(milestone).verified_at,
{
    if milestone_data.len() > 1000 {
        return Err(ErrorCode::DescriptionTooLong);
    }
    if arweave_tx_hash.len() < 40 || arweave_tx_hash.len() > 50 {
        return Err(ErrorCode::InvalidPoWContent);
    }
    milestone.release_triggered = true;
    Ok(())
}

} // verus!
