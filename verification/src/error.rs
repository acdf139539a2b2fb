use vstd::prelude::*;

verus! {

/// Typed failure conditions surfaced to the caller.  Every operation either
/// completes in full or returns one of these with no state change.
#[derive(Clone, Copy, Debug, PartialEq, Eq, Structural)]
pub enum ErrorCode {
    /// The company name is empty.
    CompanyNameRequired,
    /// The company name is longer than 32 bytes.
    CompanyNameTooLong,
    /// The company bio is longer than 280 bytes.
    CompanyBioTooLong,
    /// The caller is not the owner recorded on the company profile.
    OwnerMustBeTheSameAsCompanyProfileOwner,
    /// The repayment deadline is not in the future.
    RepaymentDeadlineInThePast,
    /// The target amount is zero.
    TargetAmountMustBeGreaterThanZero,
    /// The interest rate is zero.
    InterestRateMustBeGreaterThanZero,
    /// The funding round id is empty.
    FundingRoundIdRequired,
    /// The funding round id is longer than 36 bytes.
    FundingRoundIdTooLong,
    /// The profile already references an active funding round.
    ActiveFundingRoundExists,
    /// The funding round does not accept contributions.
    FundingRoundNotActive,
    /// A supplied account does not belong to the given company or round.
    FundingRoundCompanyMismatch,
    /// The contribution amount is zero.
    DepositAmountMustBeGreaterThanZero,
    /// The caller is not the owner, or a vault address fails re-derivation.
    UnauthorizedVaultAccess,
    /// The withdrawal amount is zero.
    WithdrawalAmountMustBeGreaterThanZero,
    /// The debited account holds less than the requested amount.
    InsufficientVaultFunds,
    /// The repayment amount is zero.
    RepaymentAmountMustBeGreaterThanZero,
    /// The repayment amount differs from the owed principal plus interest.
    RepaymentAmountExceedsTargetAmount,
    /// Overflow in the interest computation.
    MathOverflow,
}

} // verus!
