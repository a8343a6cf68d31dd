//! The structured events that every mutating operation returns on success.
//! They are the system's durable audit log; field names and order are kept
//! stable for downstream consumers.

use vstd::prelude::*;
use crate::ledger::MintAuthority;
use crate::redemption::RedemptionStatus;
use crate::roles::Role;

verus! {

broadcast use vstd::string::to_string_from_display_ensures_for_str;

impl Role {
    /// The audit-log name of the role.
    pub open spec fn spec_name(self) -> Seq<char> {
        match self {
            Role::SupplyController => "SupplyController"@,
            Role::AssetProtector => "AssetProtector"@,
            Role::FeeController => "FeeController"@,
            Role::DefaultAdmin => "DefaultAdmin"@,
        }
    }

    /// The audit-log name of the role, as carried in role events.
    pub fn name(&self) -> (r: String)
        ensures
            r@ == self.spec_name(),
    {
        match self {
            Role::SupplyController => "SupplyController".to_string(),
            Role::AssetProtector => "AssetProtector".to_string(),
            Role::FeeController => "FeeController".to_string(),
            Role::DefaultAdmin => "DefaultAdmin".to_string(),
        }
    }
}

#[derive(Clone, PartialEq, Eq, Debug)]
pub struct TokenInitialized {
    pub mint: u64,
    pub admin: u64,
    pub gatekeeper_program: u64,
    pub name: String,
    pub symbol: String,
    pub uri: String,
}

#[derive(Clone, PartialEq, Eq, Debug)]
pub struct RoleUpdated {
    pub role: String,
    pub old_authority: u64,
    pub new_authority: u64,
}

#[derive(Clone, Copy, PartialEq, Eq, Structural, Debug)]
pub struct PauseToggled {
    pub is_paused: bool,
    pub authority: u64,
}

#[derive(Clone, Copy, PartialEq, Eq, Structural, Debug)]
pub struct TokensMinted {
    pub mint: u64,
    pub to: u64,
    pub amount: u64,
    pub authority: MintAuthority,
    pub recipient: u64,
}

#[derive(Clone, Copy, PartialEq, Eq, Structural, Debug)]
pub struct RedemptionRequested {
    pub user: u64,
    pub request_id: u64,
    pub amount: u64,
    pub timestamp: i64,
}

#[derive(Clone, Copy, PartialEq, Eq, Structural, Debug)]
pub struct RedemptionFulfilled {
    pub user: u64,
    pub request_id: u64,
    pub amount: u64,
    pub timestamp: i64,
}

#[derive(Clone, Copy, PartialEq, Eq, Structural, Debug)]
pub struct RedemptionCancelled {
    pub user: u64,
    pub request_id: u64,
    pub amount: u64,
    pub timestamp: i64,
    pub cancelled_by: u64,
}

#[derive(Clone, Copy, PartialEq, Eq, Structural, Debug)]
pub struct RedemptionStatusUpdated {
    pub user: u64,
    pub request_id: u64,
    pub old_status: RedemptionStatus,
    pub new_status: RedemptionStatus,
}

#[derive(Clone, Copy, PartialEq, Eq, Structural, Debug)]
pub struct TokensWiped {
    pub target_user: u64,
    pub amount: u64,
    pub authority: u64,
}

/// Withdrawal of protocol-withheld transfer fees is a declared future
/// capability; no operation emits this event yet.
#[derive(Clone, Copy, PartialEq, Eq, Structural, Debug)]
pub struct WithheldTokensWithdrawn {
    pub mint: u64,
    pub destination: u64,
    pub authority: u64,
}

#[derive(Clone, PartialEq, Eq, Debug)]
pub struct RoleAssigned {
    pub user: u64,
    pub role: String,
    pub authority: u64,
}

#[derive(Clone, PartialEq, Eq, Debug)]
pub struct RoleRemoved {
    pub user: u64,
    pub role: String,
    pub authority: u64,
}

#[derive(Clone, Copy, PartialEq, Eq, Structural, Debug)]
pub struct AdminSet {
    pub admin: u64,
}

#[derive(Clone, PartialEq, Eq, Debug)]
pub struct AuthorityTransferred {
    pub authority_type: String,
    pub old_authority: MintAuthority,
    pub new_authority: u64,
    pub transferred_by: u64,
}

} // verus!
