use vstd::prelude::*;

use crate::address::{addr_eq, Address};
use crate::error::ErrorCode;
use crate::resolver::{round_address, spec_round_address};
use crate::state::{CompanyProfile, FundingRound};

verus! {

/// The error, if any, with which profile creation rejects the given name and
/// bio; `None` means the creation succeeds.
pub open spec fn spec_create_profile_decision(name: Seq<u8>, bio: Seq<u8>) -> Option<ErrorCode> {
    if name.len() == 0 {
        Some(ErrorCode::CompanyNameRequired)
    } else if name.len() > 32 {
        Some(ErrorCode::CompanyNameTooLong)
    } else if bio.len() > 280 {
        Some(ErrorCode::CompanyBioTooLong)
    } else {
        None
    }
}

/// Creates a company profile for `owner`.  Succeeds exactly when the name is
/// non-empty and at most 32 bytes and the bio is at most 280 bytes; the
/// stored name and bio round-trip unchanged, and no funding round is active
/// on a fresh profile.
pub fn create_company_profile(owner: &Address, name: Vec<u8>, bio: Vec<u8>) -> (r: Result<
    CompanyProfile,
    ErrorCode,
>)
    ensures
        r is Ok <==> spec_create_profile_decision(name@, bio@) is None,
        r matches Err(e) ==> spec_create_profile_decision(name@, bio@) == Some(e),
        r matches Ok(p) ==> {
            &&& p.owner == *owner
            &&& p.name@ == name@
            &&& p.bio@ == bio@
            &&& p.active_funding_round is None
            &&& p.wf()
        },
{
    if name.len() == 0 {
        return Err(ErrorCode::CompanyNameRequired);
    }
    if name.len() > 32 {
        return Err(ErrorCode::CompanyNameTooLong);
    }
    if bio.len() > 280 {
        return Err(ErrorCode::CompanyBioTooLong);
    }
    Ok(CompanyProfile { owner: *owner, name, bio, active_funding_round: None })
}

/// The error, if any, with which round creation rejects its inputs; `None`
/// means the creation succeeds.  `round_addr` is the address the new round
/// record stands at; it must re-derive from the profile address and the
/// hashed round id, which binds one round per (company, id).
pub open spec fn spec_create_round_decision(
    caller: Address,
    profile: CompanyProfile,
    profile_addr: Address,
    round_addr: Address,
    round_id: Seq<u8>,
    target_amount: u64,
    interest_rate: u64,
    repayment_deadline: u64,
    now: u64,
    program: Address,
) -> Option<ErrorCode> {
    if caller != profile.owner {
        Some(ErrorCode::OwnerMustBeTheSameAsCompanyProfileOwner)
    } else if profile.active_funding_round is Some {
        Some(ErrorCode::ActiveFundingRoundExists)
    } else if round_id.len() == 0 {
        Some(ErrorCode::FundingRoundIdRequired)
    } else if round_id.len() > 36 {
        Some(ErrorCode::FundingRoundIdTooLong)
    } else if target_amount == 0 {
        Some(ErrorCode::TargetAmountMustBeGreaterThanZero)
    } else if interest_rate == 0 {
        Some(ErrorCode::InterestRateMustBeGreaterThanZero)
    } else if repayment_deadline <= now {
        Some(ErrorCode::RepaymentDeadlineInThePast)
    } else if spec_round_address(profile_addr@, round_id, program@) != Some(round_addr@) {
        Some(ErrorCode::FundingRoundCompanyMismatch)
    } else {
        None
    }
}

/// Opens a funding round on `profile`.  `now` is the current time as the
/// substrate reports it; `round_addr` is the address the substrate allocated
/// for the round record, re-derived and compared here before it is trusted.
/// On success the profile's `active_funding_round` is set to `round_addr`
/// and the returned round is active; on failure the profile is unchanged.
pub fn create_funding_round(
    caller: &Address,
    profile: &mut CompanyProfile,
    profile_addr: &Address,
    round_addr: &Address,
    round_id: Vec<u8>,
    target_amount: u64,
    interest_rate: u64,
    repayment_deadline: u64,
    now: u64,
    program_id: &Address,
) -> (r: Result<FundingRound, ErrorCode>)
    ensures
        r is Ok <==> spec_create_round_decision(
            *caller,
            *old(profile),
            *profile_addr,
            *round_addr,
            round_id@,
            target_amount,
            interest_rate,
            repayment_deadline,
            now,
            *program_id,
        ) is None,
        r matches Err(e) ==> {
            &&& spec_create_round_decision(
                *caller,
                *old(profile),
                *profile_addr,
                *round_addr,
                round_id@,
                target_amount,
                interest_rate,
                repayment_deadline,
                now,
                *program_id,
            ) == Some(e)
            &&& *final(profile) == *old(profile)
        },
        r matches Ok(round) ==> {
            &&& round.id@ == round_id@
            &&& round.company == *profile_addr
            &&& round.target_amount == target_amount
            &&& round.interest_rate == interest_rate
            &&& round.repayment_deadline == repayment_deadline
            &&& round.is_active
            &&& round.wf()
            &&& final(profile).owner == old(profile).owner
            &&& final(profile).name == old(profile).name
            &&& final(profile).bio == old(profile).bio
            &&& final(profile).active_funding_round == Some(*round_addr)
        },
{
    if !addr_eq(caller, &profile.owner) {
        return Err(ErrorCode::OwnerMustBeTheSameAsCompanyProfileOwner);
    }
    if profile.active_funding_round.is_some() {
        return Err(ErrorCode::ActiveFundingRoundExists);
    }
    if round_id.len() == 0 {
        return Err(ErrorCode::FundingRoundIdRequired);
    }
    if round_id.len() > 36 {
        return Err(ErrorCode::FundingRoundIdTooLong);
    }
    if target_amount == 0 {
        return Err(ErrorCode::TargetAmountMustBeGreaterThanZero);
    }
    if interest_rate == 0 {
        return Err(ErrorCode::InterestRateMustBeGreaterThanZero);
    }
    if repayment_deadline <= now {
        return Err(ErrorCode::RepaymentDeadlineInThePast);
    }
    let matches_derivation = match round_address(profile_addr, &round_id, program_id) {
        Some(expected) => addr_eq(&expected, round_addr),
        None => false,
    };
    if !matches_derivation {
        return Err(ErrorCode::FundingRoundCompanyMismatch);
    }
    profile.active_funding_round = Some(*round_addr);
    Ok(
        FundingRound {
            id: round_id,
            company: *profile_addr,
            target_amount,
            interest_rate,
            repayment_deadline,
            is_active: true,
        },
    )
}

} // verus!
