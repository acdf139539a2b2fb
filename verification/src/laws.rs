use vstd::prelude::*;

use crate::address::Address;
use crate::entity::{spec_create_profile_decision, spec_create_round_decision};
use crate::error::ErrorCode;
use crate::state::CompanyProfile;
use crate::state::FundingRound;
use crate::treasury::{spec_repay_decision, spec_total_with_interest};

verus! {

/// Every valid pair of a non-empty name of at most 32 bytes and a bio of at
/// most 280 bytes is accepted by profile creation; the stored fields
/// round-trip exactly by the creation contract.
pub proof fn lemma_valid_profile_accepted(name: Seq<u8>, bio: Seq<u8>)
    requires
        1 <= name.len() <= 32,
        bio.len() <= 280,
    ensures
        spec_create_profile_decision(name, bio) is None,
{
}

/// Round creation is idempotent-rejecting: while a profile references an
/// active funding round, every further round creation by its owner fails
/// with `ActiveFundingRoundExists`, whatever the new round id, amounts,
/// deadline or allocated address.
pub proof fn lemma_second_round_rejected(
    caller: Address,
    profile: CompanyProfile,
    profile_addr: Address,
    round_addr: Address,
    round_id: Seq<u8>,
    target_amount: u64,
    interest_rate: u64,
    repayment_deadline: u64,
    now: u64,
    program: Address,
)
    requires
        caller == profile.owner,
        profile.active_funding_round is Some,
    ensures
        spec_create_round_decision(
            caller,
            profile,
            profile_addr,
            round_addr,
            round_id,
            target_amount,
            interest_rate,
            repayment_deadline,
            now,
            program,
        ) == Some(ErrorCode::ActiveFundingRoundExists),
{
}

/// Repayment exactness: wherever the owed total is defined, any amount
/// other than that total is rejected as `RepaymentAmountExceedsTargetAmount`.
pub proof fn lemma_repayment_exact(
    caller: Address,
    profile: CompanyProfile,
    profile_addr: Address,
    round: FundingRound,
    treasury: Address,
    treasury_balance: u64,
    amount: u64,
    program: Address,
    total: u64,
)
    requires
        spec_total_with_interest(round.target_amount, round.interest_rate) == Some(total),
        amount != total,
    ensures
        spec_repay_decision(
            caller,
            profile,
            profile_addr,
            round,
            treasury,
            treasury_balance,
            amount,
            program,
        ) == Some(ErrorCode::RepaymentAmountExceedsTargetAmount),
{
}

/// Overflow guard: with the largest possible target amount, any positive
/// interest rate overflows the owed-total computation, so repayment fails
/// with `MathOverflow` and never wraps.
pub proof fn lemma_overflow_guard(
    caller: Address,
    profile: CompanyProfile,
    profile_addr: Address,
    round: FundingRound,
    treasury: Address,
    treasury_balance: u64,
    amount: u64,
    program: Address,
)
    requires
        round.target_amount == u64::MAX,
        round.interest_rate > 0,
    ensures
        spec_total_with_interest(round.target_amount, round.interest_rate) is None,
        spec_repay_decision(
            caller,
            profile,
            profile_addr,
            round,
            treasury,
            treasury_balance,
            amount,
            program,
        ) == Some(ErrorCode::MathOverflow),
{
    if round.interest_rate <= u64::MAX - 100 {
        assert(u64::MAX * (100 + round.interest_rate) > u64::MAX) by (nonlinear_arith)
            requires
                round.interest_rate > 0,
                round.interest_rate <= u64::MAX - 100,
        ;
    }
}

/// The total of a sequence of contribution amounts.
pub open spec fn sum_of(amounts: Seq<u64>) -> int
    decreases amounts.len(),
{
    if amounts.len() == 0 {
        0
    } else {
        sum_of(amounts.drop_last()) + amounts.last()
    }
}

/// The vault balance left by a sequence of accepted contributions, each of
/// which credits the vault by its amount, as the contribution contract
/// states.
pub open spec fn vault_after_contributions(v0: int, amounts: Seq<u64>) -> int
    decreases amounts.len(),
{
    if amounts.len() == 0 {
        v0
    } else {
        vault_after_contributions(v0, amounts.drop_last()) + amounts.last()
    }
}

/// A sequence of accepted contributions raises the vault by exactly its sum.
pub proof fn lemma_contributions_sum(v0: int, amounts: Seq<u64>)
    ensures
        vault_after_contributions(v0, amounts) == v0 + sum_of(amounts),
    decreases amounts.len(),
{
    if amounts.len() > 0 {
        lemma_contributions_sum(v0, amounts.drop_last());
    }
}

/// Withdrawal conservation: after contributions summing to `S`, a
/// withdrawal of any `amount <= S`, which debits the vault and credits the
/// treasury by exactly `amount`, preserves the combined balance and never
/// drives the vault below where it began.
pub proof fn lemma_withdrawal_conservation(
    v0: u64,
    t0: u64,
    amounts: Seq<u64>,
    amount: u64,
    vault_after: int,
    treasury_after: int,
)
    requires
        amount <= sum_of(amounts),
        vault_after == vault_after_contributions(v0 as int, amounts) - amount,
        treasury_after == t0 + amount,
    ensures
        vault_after + treasury_after == vault_after_contributions(v0 as int, amounts) + t0,
        vault_after >= v0,
{
    lemma_contributions_sum(v0 as int, amounts);
}

} // verus!
