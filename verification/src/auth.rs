use vstd::prelude::*;

use crate::address::{addr_eq, Address};
use crate::error::ErrorCode;
use crate::resolver::{
    spec_treasury_address, spec_vault_address, treasury_address, vault_address,
};
use crate::state::CompanyProfile;

verus! {

/// Access to a funding round vault is granted exactly when the caller is the
/// recorded profile owner and the supplied vault address re-derives from the
/// profile address and the hashed round id.  Ownership is checked against
/// the stored profile record: the vault itself carries no owner field.
pub open spec fn spec_vault_access_ok(
    caller: Address,
    profile: CompanyProfile,
    profile_addr: Address,
    vault: Address,
    round_id: Seq<u8>,
    program: Address,
) -> bool {
    &&& caller == profile.owner
    &&& spec_vault_address(profile_addr@, round_id, program@) == Some(vault@)
}

/// Access to a company treasury is granted exactly when the caller is the
/// recorded profile owner and the supplied treasury address re-derives from
/// the caller and profile addresses.
pub open spec fn spec_treasury_access_ok(
    caller: Address,
    profile: CompanyProfile,
    profile_addr: Address,
    treasury: Address,
    program: Address,
) -> bool {
    &&& caller == profile.owner
    &&& spec_treasury_address(caller@, profile_addr@, program@) == Some(treasury@)
}

/// Validates that only the company owner, naming the one vault bound to
/// (company, round id), can move funding round vault funds.
pub fn validate_vault_access(
    caller: &Address,
    profile: &CompanyProfile,
    profile_addr: &Address,
    vault: &Address,
    round_id: &Vec<u8>,
    program_id: &Address,
) -> (r: Result<(), ErrorCode>)
    ensures
        r is Ok <==> spec_vault_access_ok(
            *caller,
            *profile,
            *profile_addr,
            *vault,
            round_id@,
            *program_id,
        ),
        r matches Err(e) ==> e == ErrorCode::UnauthorizedVaultAccess,
{
    if !addr_eq(caller, &profile.owner) {
        return Err(ErrorCode::UnauthorizedVaultAccess);
    }
    let matches_derivation = match vault_address(profile_addr, round_id, program_id) {
        Some(expected) => addr_eq(&expected, vault),
        None => false,
    };
    if !matches_derivation {
        return Err(ErrorCode::UnauthorizedVaultAccess);
    }
    Ok(())
}

/// Validates that only the company owner, naming the one treasury bound to
/// (owner, company), can move company treasury funds.
pub fn validate_company_treasury_access(
    caller: &Address,
    profile: &CompanyProfile,
    profile_addr: &Address,
    treasury: &Address,
    program_id: &Address,
) -> (r: Result<(), ErrorCode>)
    ensures
        r is Ok <==> spec_treasury_access_ok(
            *caller,
            *profile,
            *profile_addr,
            *treasury,
            *program_id,
        ),
        r matches Err(e) ==> e == ErrorCode::UnauthorizedVaultAccess,
{
    if !addr_eq(caller, &profile.owner) {
        return Err(ErrorCode::UnauthorizedVaultAccess);
    }
    let matches_derivation = match treasury_address(caller, profile_addr, program_id) {
        Some(expected) => addr_eq(&expected, treasury),
        None => false,
    };
    if !matches_derivation {
        return Err(ErrorCode::UnauthorizedVaultAccess);
    }
    Ok(())
}

} // verus!
