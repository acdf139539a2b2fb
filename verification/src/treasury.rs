use vstd::prelude::*;

use crate::address::{addr_eq, Address};
use crate::auth::{
    spec_treasury_access_ok, spec_vault_access_ok, validate_company_treasury_access,
    validate_vault_access,
};
use crate::error::ErrorCode;
use crate::resolver::{spec_vault_address, vault_address};
use crate::state::{CompanyProfile, FundingRound};

verus! {

/// The owed repayment: `floor(target_amount * (100 + interest_rate) / 100)`,
/// or `None` where the factor or the product leaves `u64`.
pub open spec fn spec_total_with_interest(target_amount: u64, interest_rate: u64) -> Option<u64> {
    if interest_rate > u64::MAX - 100 {
        None
    } else if target_amount * (100 + interest_rate) > u64::MAX {
        None
    } else {
        Some((target_amount * (100 + interest_rate) / 100) as u64)
    }
}

/// Computes the owed principal plus interest with overflow-checked
/// arithmetic; overflow is reported, never wrapped or clamped.
pub fn total_with_interest(target_amount: u64, interest_rate: u64) -> (r: Option<u64>)
    ensures
        r == spec_total_with_interest(target_amount, interest_rate),
{
    if interest_rate > u64::MAX - 100 {
        return None;
    }
    let factor: u64 = 100 + interest_rate;
    proof {
        assert(target_amount * factor <= u64::MAX * u64::MAX) by (nonlinear_arith)
            requires
                target_amount <= u64::MAX,
                factor <= u64::MAX,
        ;
    }
    let product: u128 = (target_amount as u128) * (factor as u128);
    if product > u64::MAX as u128 {
        return None;
    }
    proof {
        assert(product / 100 <= product) by (nonlinear_arith)
            requires
                product >= 0,
        ;
    }
    Some((product / 100) as u64)
}

/// The error, if any, with which a contribution is rejected; `None` means
/// the contribution is accepted.
pub open spec fn spec_fund_decision(
    round: FundingRound,
    profile_addr: Address,
    vault: Address,
    amount: u64,
    program: Address,
) -> Option<ErrorCode> {
    if round.company != profile_addr {
        Some(ErrorCode::FundingRoundCompanyMismatch)
    } else if amount == 0 {
        Some(ErrorCode::DepositAmountMustBeGreaterThanZero)
    } else if !round.is_active {
        Some(ErrorCode::FundingRoundNotActive)
    } else if spec_vault_address(profile_addr@, round.id@, program@) != Some(vault@) {
        Some(ErrorCode::FundingRoundCompanyMismatch)
    } else {
        None
    }
}

/// Accepts a contribution of `amount` into the round's escrow vault.  The
/// vault address is re-derived from the profile address and the hashed
/// round id before any credit, so a contribution can never land outside the
/// intended company/round scope.  The debit of the contributor is the
/// substrate's native transfer, outside this scope; a rejected call leaves
/// the vault unchanged.
pub fn fund_company(
    round: &FundingRound,
    profile_addr: &Address,
    vault_addr: &Address,
    vault_balance: &mut u64,
    amount: u64,
    program_id: &Address,
) -> (r: Result<(), ErrorCode>)
    requires
        *old(vault_balance) + amount <= u64::MAX,
    ensures
        r is Ok <==> spec_fund_decision(
            *round,
            *profile_addr,
            *vault_addr,
            amount,
            *program_id,
        ) is None,
        r matches Err(e) ==> {
            &&& spec_fund_decision(*round, *profile_addr, *vault_addr, amount, *program_id)
                == Some(e)
            &&& *final(vault_balance) == *old(vault_balance)
        },
        r is Ok ==> *final(vault_balance) == *old(vault_balance) + amount,
{
    if !addr_eq(&round.company, profile_addr) {
        return Err(ErrorCode::FundingRoundCompanyMismatch);
    }
    if amount == 0 {
        return Err(ErrorCode::DepositAmountMustBeGreaterThanZero);
    }
    if !round.is_active {
        return Err(ErrorCode::FundingRoundNotActive);
    }
    let matches_derivation = match vault_address(profile_addr, &round.id, program_id) {
        Some(expected) => addr_eq(&expected, vault_addr),
        None => false,
    };
    if !matches_derivation {
        return Err(ErrorCode::FundingRoundCompanyMismatch);
    }
    *vault_balance = *vault_balance + amount;
    Ok(())
}

/// The error, if any, with which a withdrawal is rejected; `None` means the
/// withdrawal proceeds.
pub open spec fn spec_withdraw_decision(
    caller: Address,
    profile: CompanyProfile,
    profile_addr: Address,
    round: FundingRound,
    vault: Address,
    vault_balance: u64,
    treasury: Address,
    amount: u64,
    program: Address,
) -> Option<ErrorCode> {
    if !spec_vault_access_ok(caller, profile, profile_addr, vault, round.id@, program) {
        Some(ErrorCode::UnauthorizedVaultAccess)
    } else if round.company != profile_addr {
        Some(ErrorCode::FundingRoundCompanyMismatch)
    } else if vault_balance < amount {
        Some(ErrorCode::InsufficientVaultFunds)
    } else if amount == 0 {
        Some(ErrorCode::WithdrawalAmountMustBeGreaterThanZero)
    } else if !spec_treasury_access_ok(caller, profile, profile_addr, treasury, program) {
        Some(ErrorCode::UnauthorizedVaultAccess)
    } else {
        None
    }
}

/// Moves `amount` from the round's escrow vault into the company treasury.
/// Both addresses are re-derived and both accesses revalidated before any
/// balance moves; on success the vault is debited and the treasury credited
/// by exactly `amount`, and in every outcome the two balances together are
/// conserved.
pub fn withdraw_funds(
    caller: &Address,
    profile: &CompanyProfile,
    profile_addr: &Address,
    round: &FundingRound,
    vault_addr: &Address,
    vault_balance: &mut u64,
    treasury_addr: &Address,
    treasury_balance: &mut u64,
    amount: u64,
    program_id: &Address,
) -> (r: Result<(), ErrorCode>)
    requires
        *old(treasury_balance) + amount <= u64::MAX,
    ensures
        r is Ok <==> spec_withdraw_decision(
            *caller,
            *profile,
            *profile_addr,
            *round,
            *vault_addr,
            *old(vault_balance),
            *treasury_addr,
            amount,
            *program_id,
        ) is None,
        r matches Err(e) ==> {
            &&& spec_withdraw_decision(
                *caller,
                *profile,
                *profile_addr,
                *round,
                *vault_addr,
                *old(vault_balance),
                *treasury_addr,
                amount,
                *program_id,
            ) == Some(e)
            &&& *final(vault_balance) == *old(vault_balance)
            &&& *final(treasury_balance) == *old(treasury_balance)
        },
        r is Ok ==> {
            &&& *final(vault_balance) == *old(vault_balance) - amount
            &&& *final(treasury_balance) == *old(treasury_balance) + amount
        },
        *final(vault_balance) + *final(treasury_balance) == *old(vault_balance) + *old(
            treasury_balance,
        ),
{
    if let Err(e) = validate_vault_access(
        caller,
        profile,
        profile_addr,
        vault_addr,
        &round.id,
        program_id,
    ) {
        return Err(e);
    }
    if !addr_eq(&round.company, profile_addr) {
        return Err(ErrorCode::FundingRoundCompanyMismatch);
    }
    if *vault_balance < amount {
        return Err(ErrorCode::InsufficientVaultFunds);
    }
    if amount == 0 {
        return Err(ErrorCode::WithdrawalAmountMustBeGreaterThanZero);
    }
    if let Err(e) = validate_company_treasury_access(
        caller,
        profile,
        profile_addr,
        treasury_addr,
        program_id,
    ) {
        return Err(e);
    }
    *vault_balance = *vault_balance - amount;
    *treasury_balance = *treasury_balance + amount;
    Ok(())
}

/// The error, if any, with which a repayment is rejected; `None` means the
/// repayment proceeds.  Only the exact owed amount is accepted: no partial
/// repayment exists.
pub open spec fn spec_repay_decision(
    caller: Address,
    profile: CompanyProfile,
    profile_addr: Address,
    round: FundingRound,
    treasury: Address,
    treasury_balance: u64,
    amount: u64,
    program: Address,
) -> Option<ErrorCode> {
    if spec_total_with_interest(round.target_amount, round.interest_rate) is None {
        Some(ErrorCode::MathOverflow)
    } else if amount != spec_total_with_interest(round.target_amount, round.interest_rate).unwrap() {
        Some(ErrorCode::RepaymentAmountExceedsTargetAmount)
    } else if !spec_treasury_access_ok(caller, profile, profile_addr, treasury, program) {
        Some(ErrorCode::UnauthorizedVaultAccess)
    } else if round.company != profile_addr {
        Some(ErrorCode::FundingRoundCompanyMismatch)
    } else if treasury_balance < amount {
        Some(ErrorCode::InsufficientVaultFunds)
    } else {
        None
    }
}

/// Repays the round's investors with interest from the company treasury.
/// The owed amount is `floor(target_amount * (100 + interest_rate) / 100)`,
/// computed with overflow-checked arithmetic, and only that exact amount is
/// accepted.  On success the treasury is debited and the repayment vault
/// credited by exactly `amount`, and in every outcome the two balances
/// together are conserved.
pub fn repay_funding_round(
    caller: &Address,
    profile: &CompanyProfile,
    profile_addr: &Address,
    round: &FundingRound,
    treasury_addr: &Address,
    treasury_balance: &mut u64,
    repayment_vault_balance: &mut u64,
    amount: u64,
    program_id: &Address,
) -> (r: Result<(), ErrorCode>)
    requires
        *old(repayment_vault_balance) + amount <= u64::MAX,
    ensures
        r is Ok <==> spec_repay_decision(
            *caller,
            *profile,
            *profile_addr,
            *round,
            *treasury_addr,
            *old(treasury_balance),
            amount,
            *program_id,
        ) is None,
        r matches Err(e) ==> {
            &&& spec_repay_decision(
                *caller,
                *profile,
                *profile_addr,
                *round,
                *treasury_addr,
                *old(treasury_balance),
                amount,
                *program_id,
            ) == Some(e)
            &&& *final(treasury_balance) == *old(treasury_balance)
            &&& *final(repayment_vault_balance) == *old(repayment_vault_balance)
        },
        r is Ok ==> {
            &&& *final(treasury_balance) == *old(treasury_balance) - amount
            &&& *final(repayment_vault_balance) == *old(repayment_vault_balance) + amount
        },
        *final(treasury_balance) + *final(repayment_vault_balance) == *old(treasury_balance)
            + *old(repayment_vault_balance),
{
    let total = match total_with_interest(round.target_amount, round.interest_rate) {
        Some(total) => total,
        None => {
            return Err(ErrorCode::MathOverflow);
        },
    };
    if amount != total {
        return Err(ErrorCode::RepaymentAmountExceedsTargetAmount);
    }
    if let Err(e) = validate_company_treasury_access(
        caller,
        profile,
        profile_addr,
        treasury_addr,
        program_id,
    ) {
        return Err(e);
    }
    if !addr_eq(&round.company, profile_addr) {
        return Err(ErrorCode::FundingRoundCompanyMismatch);
    }
    if *treasury_balance < amount {
        return Err(ErrorCode::InsufficientVaultFunds);
    }
    *treasury_balance = *treasury_balance - amount;
    *repayment_vault_balance = *repayment_vault_balance + amount;
    Ok(())
}

} // verus!
