use vstd::prelude::*;

use crate::address::Address;

verus! {

/// A fundraising entity and its owner.  Created once by the owner; the owner
/// and name never change; `active_funding_round` references at most one open
/// round at any time.
pub struct CompanyProfile {
    /// Identity of the creator; immutable after creation.
    pub owner: Address,
    /// UTF-8 name, non-empty and at most 32 bytes; immutable.
    pub name: Vec<u8>,
    /// UTF-8 bio, at most 280 bytes; may be empty.
    pub bio: Vec<u8>,
    /// Address of the one open funding round, or `None`.
    pub active_funding_round: Option<Address>,
}

impl CompanyProfile {
    /// Field-level invariant established at creation and preserved by every
    /// operation.
    pub open spec fn wf(&self) -> bool {
        &&& 0 < self.name@.len() <= 32
        &&& self.bio@.len() <= 280
    }
}

/// A fundraising campaign with a target amount and a fixed interest rate.
pub struct FundingRound {
    /// UTF-8 round id, non-empty and at most 36 bytes, unique within its
    /// company through the derived-address scheme.
    pub id: Vec<u8>,
    /// Address of the owning company profile; never changes after creation.
    pub company: Address,
    /// Amount sought; positive.
    pub target_amount: u64,
    /// Percentage points added to the principal at repayment; positive.
    pub interest_rate: u64,
    /// Point in time the repayment is due; in the future at creation.
    pub repayment_deadline: u64,
    /// Gate for contribution acceptance.
    pub is_active: bool,
}

impl FundingRound {
    /// Field-level invariant established at creation and preserved by every
    /// operation.
    pub open spec fn wf(&self) -> bool {
        &&& 0 < self.id@.len() <= 36
        &&& self.target_amount > 0
        &&& self.interest_rate > 0
    }
}

} // verus!
