use open_venture::address::{addr_eq, Address};
use open_venture::entity::{create_company_profile, create_funding_round};
use open_venture::error::ErrorCode;
use open_venture::resolver::{profile_address, round_address, treasury_address, vault_address};

fn addr(n: u8) -> Address {
    Address::new([n; 32])
}

fn program() -> Address {
    addr(9)
}

#[test]
fn profile_roundtrip() {
    let owner = addr(1);
    let profile = create_company_profile(&owner, b"Acme".to_vec(), b"We build things".to_vec())
        .unwrap();
    assert_eq!(profile.owner, owner);
    assert_eq!(profile.name, b"Acme".to_vec());
    assert_eq!(profile.bio, b"We build things".to_vec());
    assert!(profile.active_funding_round.is_none());
}

#[test]
fn profile_accepts_boundary_lengths() {
    let owner = addr(1);
    let name = vec![b'n'; 32];
    let bio = vec![b'b'; 280];
    let profile = create_company_profile(&owner, name.clone(), bio.clone()).unwrap();
    assert_eq!(profile.name, name);
    assert_eq!(profile.bio, bio);
}

#[test]
fn profile_rejects_empty_name() {
    let r = create_company_profile(&addr(1), Vec::new(), b"bio".to_vec());
    assert_eq!(r.err().unwrap(), ErrorCode::CompanyNameRequired);
}

#[test]
fn profile_rejects_long_name() {
    let r = create_company_profile(&addr(1), vec![b'n'; 33], Vec::new());
    assert_eq!(r.err().unwrap(), ErrorCode::CompanyNameTooLong);
}

#[test]
fn profile_rejects_long_bio() {
    let r = create_company_profile(&addr(1), b"Acme".to_vec(), vec![b'b'; 281]);
    assert_eq!(r.err().unwrap(), ErrorCode::CompanyBioTooLong);
}

#[test]
fn round_creation_succeeds() {
    let owner = addr(1);
    let mut profile = create_company_profile(&owner, b"Acme".to_vec(), Vec::new()).unwrap();
    let profile_addr = profile_address(&owner, &b"Acme".to_vec(), &program()).unwrap();
    let round_addr = round_address(&profile_addr, &b"r1".to_vec(), &program()).unwrap();
    let round = create_funding_round(
        &owner,
        &mut profile,
        &profile_addr,
        &round_addr,
        b"r1".to_vec(),
        1000,
        10,
        2000,
        1000,
        &program(),
    )
    .unwrap();
    assert_eq!(round.id, b"r1".to_vec());
    assert_eq!(round.company, profile_addr);
    assert_eq!(round.target_amount, 1000);
    assert_eq!(round.interest_rate, 10);
    assert_eq!(round.repayment_deadline, 2000);
    assert!(round.is_active);
    assert_eq!(profile.active_funding_round, Some(round_addr));
}

#[test]
fn second_round_rejected_while_one_is_active() {
    let owner = addr(1);
    let mut profile = create_company_profile(&owner, b"Acme".to_vec(), Vec::new()).unwrap();
    let profile_addr = profile_address(&owner, &b"Acme".to_vec(), &program()).unwrap();
    let round_addr = round_address(&profile_addr, &b"r1".to_vec(), &program()).unwrap();
    create_funding_round(
        &owner,
        &mut profile,
        &profile_addr,
        &round_addr,
        b"r1".to_vec(),
        1000,
        10,
        2000,
        1000,
        &program(),
    )
    .unwrap();
    let second_addr = round_address(&profile_addr, &b"r2".to_vec(), &program()).unwrap();
    let r = create_funding_round(
        &owner,
        &mut profile,
        &profile_addr,
        &second_addr,
        b"r2".to_vec(),
        500,
        5,
        3000,
        1000,
        &program(),
    );
    assert_eq!(r.err().unwrap(), ErrorCode::ActiveFundingRoundExists);
    assert_eq!(profile.active_funding_round, Some(round_addr));
}

#[test]
fn round_rejects_foreign_caller() {
    let owner = addr(1);
    let stranger = addr(2);
    let mut profile = create_company_profile(&owner, b"Acme".to_vec(), Vec::new()).unwrap();
    let profile_addr = profile_address(&owner, &b"Acme".to_vec(), &program()).unwrap();
    let round_addr = round_address(&profile_addr, &b"r1".to_vec(), &program()).unwrap();
    let r = create_funding_round(
        &stranger,
        &mut profile,
        &profile_addr,
        &round_addr,
        b"r1".to_vec(),
        1000,
        10,
        2000,
        1000,
        &program(),
    );
    assert_eq!(
        r.err().unwrap(),
        ErrorCode::OwnerMustBeTheSameAsCompanyProfileOwner
    );
    assert!(profile.active_funding_round.is_none());
}

#[test]
fn round_rejects_empty_id() {
    let owner = addr(1);
    let mut profile = create_company_profile(&owner, b"Acme".to_vec(), Vec::new()).unwrap();
    let profile_addr = profile_address(&owner, &b"Acme".to_vec(), &program()).unwrap();
    let r = create_funding_round(
        &owner,
        &mut profile,
        &profile_addr,
        &addr(7),
        Vec::new(),
        1000,
        10,
        2000,
        1000,
        &program(),
    );
    assert_eq!(r.err().unwrap(), ErrorCode::FundingRoundIdRequired);
}

#[test]
fn round_rejects_long_id() {
    let owner = addr(1);
    let mut profile = create_company_profile(&owner, b"Acme".to_vec(), Vec::new()).unwrap();
    let profile_addr = profile_address(&owner, &b"Acme".to_vec(), &program()).unwrap();
    let r = create_funding_round(
        &owner,
        &mut profile,
        &profile_addr,
        &addr(7),
        vec![b'r'; 37],
        1000,
        10,
        2000,
        1000,
        &program(),
    );
    assert_eq!(r.err().unwrap(), ErrorCode::FundingRoundIdTooLong);
}

#[test]
fn round_rejects_zero_target() {
    let owner = addr(1);
    let mut profile = create_company_profile(&owner, b"Acme".to_vec(), Vec::new()).unwrap();
    let profile_addr = profile_address(&owner, &b"Acme".to_vec(), &program()).unwrap();
    let r = create_funding_round(
        &owner,
        &mut profile,
        &profile_addr,
        &addr(7),
        b"r1".to_vec(),
        0,
        10,
        2000,
        1000,
        &program(),
    );
    assert_eq!(r.err().unwrap(), ErrorCode::TargetAmountMustBeGreaterThanZero);
}

#[test]
fn round_rejects_zero_interest() {
    let owner = addr(1);
    let mut profile = create_company_profile(&owner, b"Acme".to_vec(), Vec::new()).unwrap();
    let profile_addr = profile_address(&owner, &b"Acme".to_vec(), &program()).unwrap();
    let r = create_funding_round(
        &owner,
        &mut profile,
        &profile_addr,
        &addr(7),
        b"r1".to_vec(),
        1000,
        0,
        2000,
        1000,
        &program(),
    );
    assert_eq!(r.err().unwrap(), ErrorCode::InterestRateMustBeGreaterThanZero);
}

#[test]
fn round_rejects_past_deadline() {
    let owner = addr(1);
    let mut profile = create_company_profile(&owner, b"Acme".to_vec(), Vec::new()).unwrap();
    let profile_addr = profile_address(&owner, &b"Acme".to_vec(), &program()).unwrap();
    let r = create_funding_round(
        &owner,
        &mut profile,
        &profile_addr,
        &addr(7),
        b"r1".to_vec(),
        1000,
        10,
        1000,
        1000,
        &program(),
    );
    assert_eq!(r.err().unwrap(), ErrorCode::RepaymentDeadlineInThePast);
}

#[test]
fn round_rejects_misderived_address() {
    let owner = addr(1);
    let mut profile = create_company_profile(&owner, b"Acme".to_vec(), Vec::new()).unwrap();
    let profile_addr = profile_address(&owner, &b"Acme".to_vec(), &program()).unwrap();
    let r = create_funding_round(
        &owner,
        &mut profile,
        &profile_addr,
        &addr(42),
        b"r1".to_vec(),
        1000,
        10,
        2000,
        1000,
        &program(),
    );
    assert_eq!(r.err().unwrap(), ErrorCode::FundingRoundCompanyMismatch);
    assert!(profile.active_funding_round.is_none());
}

#[test]
fn resolver_is_deterministic() {
    let profile_addr = addr(3);
    let once = vault_address(&profile_addr, &b"r1".to_vec(), &program()).unwrap();
    let again = vault_address(&profile_addr, &b"r1".to_vec(), &program()).unwrap();
    assert!(addr_eq(&once, &again));
    let owner = addr(1);
    let p_once = profile_address(&owner, &b"Acme".to_vec(), &program()).unwrap();
    let p_again = profile_address(&owner, &b"Acme".to_vec(), &program()).unwrap();
    assert_eq!(p_once, p_again);
    let t_once = treasury_address(&owner, &profile_addr, &program()).unwrap();
    let t_again = treasury_address(&owner, &profile_addr, &program()).unwrap();
    assert_eq!(t_once, t_again);
}

#[test]
fn resolver_separates_components() {
    let profile_addr = addr(3);
    let base = vault_address(&profile_addr, &b"r1".to_vec(), &program()).unwrap();
    let other_id = vault_address(&profile_addr, &b"r2".to_vec(), &program()).unwrap();
    assert_ne!(base, other_id);
    let other_profile = vault_address(&addr(4), &b"r1".to_vec(), &program()).unwrap();
    assert_ne!(base, other_profile);
    let other_program = vault_address(&profile_addr, &b"r1".to_vec(), &addr(8)).unwrap();
    assert_ne!(base, other_program);
}

#[test]
fn resolver_hashes_string_components() {
    // A raw seed longer than 32 bytes admits no derivation, so a 36-byte
    // round id can only resolve because the id is hashed down to a
    // fixed-size seed first; likewise a 33-byte company name.
    let profile_addr = addr(3);
    let long_id = vec![b'r'; 36];
    assert!(vault_address(&profile_addr, &long_id, &program()).is_some());
    assert!(round_address(&profile_addr, &long_id, &program()).is_some());
    let long_name = vec![b'n'; 33];
    assert!(profile_address(&addr(1), &long_name, &program()).is_some());
}

#[test]
fn resolver_separates_domains() {
    let profile_addr = addr(3);
    let round = round_address(&profile_addr, &b"r1".to_vec(), &program()).unwrap();
    let vault = vault_address(&profile_addr, &b"r1".to_vec(), &program()).unwrap();
    assert_ne!(round, vault);
    let owner = addr(1);
    let treasury = treasury_address(&owner, &profile_addr, &program()).unwrap();
    assert_ne!(treasury, vault);
}
