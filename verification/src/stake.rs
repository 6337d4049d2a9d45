//! Stake ledger: weighted balances with demurrage (time-proportional decay).
//!
//! Each participant owns one `Stake`. Deposits and withdrawals move the
//! balance; `apply_demurrage` decays it in proportion to the time elapsed
//! since the decay clock was last advanced, saturating at zero. Vote weight
//! is always read through the same decay rule so that voting reflects the
//! current, not a stale, balance.

use vstd::prelude::*;

use crate::errors::ErrorCode;

verus! {

/// Divisor of the demurrage formula: seconds per year times the rate
/// denominator, so a rate of `r` means `r / 10000` of the balance decays per
/// year of elapsed time.
pub const DEMURRAGE_DIVISOR: u64 = 365 * 24 * 3600 * 10000;

/// A participant's stake: the weighted balance that backs their votes.
#[derive(Clone, Debug, PartialEq, Eq)]
pub struct Stake {
    /// Identity of the owner.
    pub user: u64,
    /// Current weighted balance.
    pub amount: u64,
    /// When decay was last applied (the decay clock).
    pub last_demurrage: u64,
    /// One-time commitment to the owner's voting secret (all zero until
    /// registered).
    pub commitment: Vec<u8>,
}

/// The decay subtracted from `amount` after `elapsed` seconds at `rate`:
/// `amount * rate * elapsed / DEMURRAGE_DIVISOR`, truncating toward zero.
pub open spec fn decay_of(amount: int, rate: int, elapsed: int) -> int {
    (amount * rate * elapsed) / (DEMURRAGE_DIVISOR as int)
}

/// The balance left after decay, saturating at zero.
pub open spec fn decayed_balance(amount: int, rate: int, elapsed: int) -> int {
    if decay_of(amount, rate, elapsed) >= amount {
        0
    } else {
        amount - decay_of(amount, rate, elapsed)
    }
}

/// Demurrage monotonicity: for every balance and every non-negative rate and
/// elapsed time, the decayed balance stays between zero and the original
/// balance.
pub proof fn lemma_decay_monotone(amount: int, rate: int, elapsed: int)
    requires
        0 <= amount,
        0 <= rate,
        0 <= elapsed,
    ensures
        0 <= decayed_balance(amount, rate, elapsed) <= amount,
{
    assert(amount * rate * elapsed >= 0) by (nonlinear_arith)
        requires 0 <= amount && 0 <= rate && 0 <= elapsed;
    assert(decay_of(amount, rate, elapsed) >= 0) by (nonlinear_arith)
        requires amount * rate * elapsed >= 0;
}

/// Whether the decay computation fits in 64-bit arithmetic; when it does not,
/// the operation is rejected with an arithmetic error instead of wrapping.
pub open spec fn decay_fits(amount: int, rate: int, elapsed: int) -> bool {
    amount * rate * elapsed <= u64::MAX
}

/// The weight a stake carries at `now` under the canonical decay-then-read
/// rule: the balance decayed over the time since the decay clock, or the
/// balance unchanged when no time has passed.
pub open spec fn vote_weight_of(stake: Stake, rate: u64, now: u64) -> int {
    if now <= stake.last_demurrage {
        stake.amount as int
    } else {
        decayed_balance(stake.amount as int, rate as int, now - stake.last_demurrage)
    }
}

/// Whether reading the vote weight of `stake` at `now` fits in 64-bit
/// arithmetic.
pub open spec fn vote_weight_fits(stake: Stake, rate: u64, now: u64) -> bool {
    now <= stake.last_demurrage || decay_fits(
        stake.amount as int,
        rate as int,
        now - stake.last_demurrage,
    )
}

/// The current decayed weight of a balance, without mutating anything.
/// This single function is the canonical decay rule: every place that reads
/// vote weight or applies decay goes through it.
pub fn decayed_weight(amount: u64, rate: u64, last_demurrage: u64, now: u64) -> (r: Result<
    u64,
    ErrorCode,
>)
    ensures
        now <= last_demurrage ==> r == Ok::<u64, ErrorCode>(amount),
        now > last_demurrage && decay_fits(amount as int, rate as int, now - last_demurrage)
            ==> r == Ok::<u64, ErrorCode>(
            decayed_balance(amount as int, rate as int, now - last_demurrage) as u64,
        ),
        now > last_demurrage && !decay_fits(amount as int, rate as int, now - last_demurrage)
            ==> r == Err::<u64, ErrorCode>(ErrorCode::ArithmeticOverflow),
{
    if now <= last_demurrage {
        return Ok(amount);
    }
    let elapsed = now - last_demurrage;
    let step = match amount.checked_mul(rate) {
        Some(v) => v,
        None => {
            proof {
                assert(amount * rate * elapsed > u64::MAX) by (nonlinear_arith)
                    requires amount * rate > u64::MAX && elapsed >= 1;
            }
            return Err(ErrorCode::ArithmeticOverflow);
        },
    };
    let product = match step.checked_mul(elapsed) {
        Some(v) => v,
        None => {
            return Err(ErrorCode::ArithmeticOverflow);
        },
    };
    let decay = product / DEMURRAGE_DIVISOR;
    proof {
        lemma_decay_monotone(amount as int, rate as int, elapsed as int);
    }
    if decay >= amount {
        Ok(0)
    } else {
        Ok(amount - decay)
    }
}

/// Create a fresh stake for `user` with a zero balance, the decay clock set
/// to `now`, and no commitment registered yet.
pub fn initialize_stake(user: u64, now: u64) -> (r: Stake)
    ensures
        r.user == user,
        r.amount == 0,
        r.last_demurrage == now,
        r.commitment@.len() == 32,
        crate::groth16_verifier::all_zero(r.commitment@),
{
    Stake { user, amount: 0, last_demurrage: now, commitment: crate::zero_bytes(32) }
}

/// Bind a one-time voting commitment to the stake. Must happen before the
/// owner can cast an anonymous vote.
pub fn register_commitment(stake: &mut Stake, commitment: Vec<u8>)
    requires
        commitment@.len() == 32,
    ensures
        final(stake).commitment@ == commitment@,
        final(stake).user == old(stake).user,
        final(stake).amount == old(stake).amount,
        final(stake).last_demurrage == old(stake).last_demurrage,
{
    stake.commitment = commitment;
}

/// Deposit: add a positive `amount` to the stake's balance. A zero deposit
/// is rejected as invalid, and a deposit that would overflow the balance
/// fails as a whole; in both cases the stake is untouched. The caller is
/// responsible for having moved the deposited tokens into escrow first.
pub fn stake_tokens(stake: &mut Stake, amount: u64) -> (r: Result<(), ErrorCode>)
    ensures
        amount == 0 ==> r == Err::<(), ErrorCode>(ErrorCode::InvalidStakeAmount) && *final(stake)
            == *old(stake),
        amount > 0 && old(stake).amount + amount <= u64::MAX ==> r is Ok
            && final(stake).amount == old(stake).amount + amount,
        amount > 0 && old(stake).amount + amount > u64::MAX ==> r == Err::<(), ErrorCode>(
            ErrorCode::ArithmeticOverflow,
        ) && *final(stake) == *old(stake),
        final(stake).user == old(stake).user,
        final(stake).last_demurrage == old(stake).last_demurrage,
        final(stake).commitment == old(stake).commitment,
{
    if amount == 0 {
        return Err(ErrorCode::InvalidStakeAmount);
    }
    match stake.amount.checked_add(amount) {
        Some(v) => {
            stake.amount = v;
            Ok(())
        },
        None => Err(ErrorCode::ArithmeticOverflow),
    }
}

/// Withdrawal: remove `amount` from the stake's balance. Fails with no
/// change when the balance is insufficient. On success the caller owes the
/// owner a transfer of `amount` back out of escrow.
pub fn unstake_tokens(stake: &mut Stake, amount: u64) -> (r: Result<u64, ErrorCode>)
    ensures
        amount <= old(stake).amount ==> r == Ok::<u64, ErrorCode>(amount)
            && final(stake).amount == old(stake).amount - amount,
        amount > old(stake).amount ==> r == Err::<u64, ErrorCode>(ErrorCode::InsufficientStake)
            && *final(stake) == *old(stake),
        final(stake).user == old(stake).user,
        final(stake).last_demurrage == old(stake).last_demurrage,
        final(stake).commitment == old(stake).commitment,
{
    if stake.amount >= amount {
        stake.amount = stake.amount - amount;
        Ok(amount)
    } else {
        Err(ErrorCode::InsufficientStake)
    }
}

/// Apply demurrage to the stake: decay the balance over the time elapsed
/// since the decay clock, saturating at zero, and advance the clock to
/// `now`. Rejected as a whole when the clock would move backwards or the
/// decay computation would overflow.
pub fn apply_demurrage(stake: &mut Stake, demurrage_rate: u64, now: u64) -> (r: Result<
    (),
    ErrorCode,
>)
    ensures
        r is Ok <==> now >= old(stake).last_demurrage && vote_weight_fits(
            *old(stake),
            demurrage_rate,
            now,
        ),
        r is Ok ==> final(stake).amount == vote_weight_of(*old(stake), demurrage_rate, now)
            && final(stake).last_demurrage == now,
        r is Err ==> r == Err::<(), ErrorCode>(ErrorCode::ArithmeticOverflow) && *final(stake)
            == *old(stake),
        final(stake).user == old(stake).user,
        final(stake).commitment == old(stake).commitment,
{
    if now < stake.last_demurrage {
        return Err(ErrorCode::ArithmeticOverflow);
    }
    match decayed_weight(stake.amount, demurrage_rate, stake.last_demurrage, now) {
        Ok(w) => {
            stake.amount = w;
            stake.last_demurrage = now;
            Ok(())
        },
        Err(e) => Err(e),
    }
}

} // verus!
