use vstd::prelude::*;

use crate::address::{addr_to_vec, Address};

verus! {

/// The four derivation domains.  Namespacing every derivation by an explicit
/// domain tag keeps addresses from distinct roles apart even when the
/// remaining components coincide.
#[derive(Clone, Copy, Debug, PartialEq, Eq, Structural)]
pub enum DomainTag {
    /// One profile per (owner, name).
    CompanyProfile,
    /// One treasury per company.
    CompanyTreasury,
    /// One round per (company, round id).
    FundingRound,
    /// One escrow vault per (company, round id).
    FundingRoundVault,
}

/// The seed bytes that name a derivation domain.
pub open spec fn tag_seq(d: DomainTag) -> Seq<u8> {
    match d {
        DomainTag::CompanyProfile => seq![
            99u8, 111u8, 109u8, 112u8, 97u8, 110u8, 121u8, 95u8, 112u8, 114u8, 111u8, 102u8, 105u8, 108u8, 101u8,
        ],
        DomainTag::CompanyTreasury => seq![
            99u8, 111u8, 109u8, 112u8, 97u8, 110u8, 121u8, 95u8, 116u8, 114u8, 101u8, 97u8, 115u8, 117u8, 114u8, 121u8,
        ],
        DomainTag::FundingRound => seq![
            102u8, 117u8, 110u8, 100u8, 105u8, 110u8, 103u8, 95u8, 114u8, 111u8, 117u8, 110u8, 100u8,
        ],
        DomainTag::FundingRoundVault => seq![
            102u8, 117u8, 110u8, 100u8, 105u8, 110u8, 103u8, 95u8, 114u8, 111u8, 117u8, 110u8, 100u8,
            95u8, 118u8, 97u8, 117u8, 108u8, 116u8,
        ],
    }
}

/// Distinct domains have distinct tag bytes, so no derivation in one domain
/// can collide with a derivation in another by tag reuse.
pub proof fn lemma_tag_seq_injective(d1: DomainTag, d2: DomainTag)
    ensures
        d1 != d2 ==> tag_seq(d1) != tag_seq(d2),
{
    if d1 != d2 {
        assert(tag_seq(d1).len() != tag_seq(d2).len());
    }
}

/// The seed bytes of a domain tag, as executable data.
pub fn tag_vec(d: &DomainTag) -> (r: Vec<u8>)
    ensures
        r@ == tag_seq(*d),
{
    let v: Vec<u8> = match d {
        DomainTag::CompanyProfile => vec![
            99u8, 111u8, 109u8, 112u8, 97u8, 110u8, 121u8, 95u8, 112u8, 114u8, 111u8, 102u8, 105u8, 108u8, 101u8,
        ],
        DomainTag::CompanyTreasury => vec![
            99u8, 111u8, 109u8, 112u8, 97u8, 110u8, 121u8, 95u8, 116u8, 114u8, 101u8, 97u8, 115u8, 117u8, 114u8, 121u8,
        ],
        DomainTag::FundingRound => vec![
            102u8, 117u8, 110u8, 100u8, 105u8, 110u8, 103u8, 95u8, 114u8, 111u8, 117u8, 110u8, 100u8,
        ],
        DomainTag::FundingRoundVault => vec![
            102u8, 117u8, 110u8, 100u8, 105u8, 110u8, 103u8, 95u8, 114u8, 111u8, 117u8, 110u8, 100u8,
            95u8, 118u8, 97u8, 117u8, 108u8, 116u8,
        ],
    };
    proof {
        assert(v@ =~= tag_seq(*d));
    }
    v
}

/// The SHA-256 digest of a byte string.  The digest depends on the input
/// bytes alone.
pub uninterp spec fn sha256_of(data: Seq<u8>) -> Seq<u8>;

/// The derived address, if any, for three seeds and a deriving program.  The
/// result depends on the seeds and the program identity alone; it is `None`
/// exactly when no usable derivation exists for these inputs.
pub uninterp spec fn pda_of(tag: Seq<u8>, sa: Seq<u8>, sb: Seq<u8>, program: Seq<u8>) -> Option<
    Seq<u8>,
>;

/// Relies on `anchor_lang::solana_program::hash::hash` (SHA-256): the digest
/// is 32 bytes and is a function of the input bytes alone.
#[verifier::external_body]
fn sha256(data: &Vec<u8>) -> (r: Vec<u8>)
    ensures
        r@ == sha256_of(data@),
        r@.len() == 32,
{
    let digest = anchor_lang::solana_program::hash::hash(data.as_slice());
    digest.to_bytes().to_vec()
}

/// Relies on `Pubkey::try_find_program_address`: the derived address is a
/// function of the seed bytes and the program identity alone, and `None`
/// comes back exactly when no derivation exists for them.
#[verifier::external_body]
fn find_pda(tag: &Vec<u8>, sa: &Vec<u8>, sb: &Vec<u8>, program_id: &Address) -> (r: Option<
    Address,
>)
    ensures
        match r {
            Some(a) => pda_of(tag@, sa@, sb@, program_id@) == Some(a@),
            None => pda_of(tag@, sa@, sb@, program_id@) is None,
        },
{
    let program = anchor_lang::solana_program::pubkey::Pubkey::new_from_array(program_id.bytes);
    let seeds: [&[u8]; 3] = [tag.as_slice(), sa.as_slice(), sb.as_slice()];
    match anchor_lang::solana_program::pubkey::Pubkey::try_find_program_address(&seeds, &program) {
        Some((key, _bump)) => Some(Address { bytes: key.to_bytes() }),
        None => None,
    }
}

/// The address derived for a domain from two 32-byte components, under the
/// given program identity.
pub open spec fn spec_derive_address(
    d: DomainTag,
    sa: Seq<u8>,
    sb: Seq<u8>,
    program: Seq<u8>,
) -> Option<Seq<u8>> {
    pda_of(tag_seq(d), sa, sb, program)
}

/// Derives the address for a domain from two seed components.  Pure in its
/// arguments: no secret material and no state takes part.
pub fn derive_address(d: &DomainTag, sa: &Vec<u8>, sb: &Vec<u8>, program_id: &Address) -> (r:
    Option<Address>)
    ensures
        match r {
            Some(a) => spec_derive_address(*d, sa@, sb@, program_id@) == Some(a@),
            None => spec_derive_address(*d, sa@, sb@, program_id@) is None,
        },
{
    let tag = tag_vec(d);
    find_pda(&tag, sa, sb, program_id)
}

/// The expected address of a company profile: bound to (owner, name).
pub open spec fn spec_profile_address(owner: Seq<u8>, name: Seq<u8>, program: Seq<u8>) -> Option<
    Seq<u8>,
> {
    spec_derive_address(DomainTag::CompanyProfile, owner, sha256_of(name), program)
}

/// The expected address of a company treasury: bound to (owner, profile).
pub open spec fn spec_treasury_address(
    owner: Seq<u8>,
    profile_addr: Seq<u8>,
    program: Seq<u8>,
) -> Option<Seq<u8>> {
    spec_derive_address(DomainTag::CompanyTreasury, owner, profile_addr, program)
}

/// The expected address of a funding round record: bound to (company, id).
pub open spec fn spec_round_address(
    profile_addr: Seq<u8>,
    round_id: Seq<u8>,
    program: Seq<u8>,
) -> Option<Seq<u8>> {
    spec_derive_address(DomainTag::FundingRound, profile_addr, sha256_of(round_id), program)
}

/// The expected address of a funding round escrow vault: bound to
/// (company, id).
pub open spec fn spec_vault_address(
    profile_addr: Seq<u8>,
    round_id: Seq<u8>,
    program: Seq<u8>,
) -> Option<Seq<u8>> {
    spec_derive_address(DomainTag::FundingRoundVault, profile_addr, sha256_of(round_id), program)
}

/// The address a company profile is expected to stand at.
pub fn profile_address(owner: &Address, name: &Vec<u8>, program_id: &Address) -> (r: Option<
    Address,
>)
    ensures
        match r {
            Some(a) => spec_profile_address(owner@, name@, program_id@) == Some(a@),
            None => spec_profile_address(owner@, name@, program_id@) is None,
        },
{
    let owner_seed = addr_to_vec(owner);
    let name_hash = sha256(name);
    derive_address(&DomainTag::CompanyProfile, &owner_seed, &name_hash, program_id)
}

/// The address a company treasury is expected to stand at.
pub fn treasury_address(owner: &Address, profile_addr: &Address, program_id: &Address) -> (r:
    Option<Address>)
    ensures
        match r {
            Some(a) => spec_treasury_address(owner@, profile_addr@, program_id@) == Some(a@),
            None => spec_treasury_address(owner@, profile_addr@, program_id@) is None,
        },
{
    let owner_seed = addr_to_vec(owner);
    let profile_seed = addr_to_vec(profile_addr);
    derive_address(&DomainTag::CompanyTreasury, &owner_seed, &profile_seed, program_id)
}

/// The address a funding round record is expected to stand at.
pub fn round_address(profile_addr: &Address, round_id: &Vec<u8>, program_id: &Address) -> (r:
    Option<Address>)
    ensures
        match r {
            Some(a) => spec_round_address(profile_addr@, round_id@, program_id@) == Some(a@),
            None => spec_round_address(profile_addr@, round_id@, program_id@) is None,
        },
{
    let profile_seed = addr_to_vec(profile_addr);
    let id_hash = sha256(round_id);
    derive_address(&DomainTag::FundingRound, &profile_seed, &id_hash, program_id)
}

/// The address a funding round escrow vault is expected to stand at.
pub fn vault_address(profile_addr: &Address, round_id: &Vec<u8>, program_id: &Address) -> (r:
    Option<Address>)
    ensures
        match r {
            Some(a) => spec_vault_address(profile_addr@, round_id@, program_id@) == Some(a@),
            None => spec_vault_address(profile_addr@, round_id@, program_id@) is None,
        },
{
    let profile_seed = addr_to_vec(profile_addr);
    let id_hash = sha256(round_id);
    derive_address(&DomainTag::FundingRoundVault, &profile_seed, &id_hash, program_id)
}

/// Derived-address determinism: two resolutions of the same domain,
/// components and program identity agree, whether or not a derivation
/// exists.
pub proof fn lemma_resolver_deterministic(
    d: DomainTag,
    sa: Seq<u8>,
    sb: Seq<u8>,
    program: Seq<u8>,
    r1: Option<Seq<u8>>,
    r2: Option<Seq<u8>>,
)
    requires
        r1 == spec_derive_address(d, sa, sb, program),
        r2 == spec_derive_address(d, sa, sb, program),
    ensures
        r1 == r2,
{
}

} // verus!
