//! Error taxonomy. Every operation is fail-fast: the first violated
//! precondition aborts the whole invocation with no partial effect.

use vstd::prelude::*;

verus! {

/// Errors of the custody and redemption surface.
#[derive(Clone, Copy, PartialEq, Eq, Structural, Debug)]
pub enum SilverTokenError {
    /// Zero or otherwise invalid quantity.
    InvalidAmount,
    /// The pause flag is set and the operation is rejected while paused.
    ContractPaused,
    /// A redemption-request state-machine precondition was violated.
    InvalidRequestStatus,
    /// The target address has no blacklist entry.
    AddressNotBlacklisted,
    /// The redemption-id counter is exhausted.
    CounterOverflow,
    /// The holder's balance does not cover the requested amount.
    InsufficientBalance,
    /// A role or identity check failed.
    Unauthorized,
    /// The holder's balance minus the escrow-delegated amount does not cover
    /// the requested amount.
    InsufficientAvailableTokens,
    /// A registry record to be created is already present.
    AlreadyExists,
    /// A registry record to be read or destroyed is absent.
    NotFound,
}

/// Errors of the transfer gatekeeper surface.
#[derive(Clone, Copy, PartialEq, Eq, Structural, Debug)]
pub enum GatekeeperError {
    /// One side of the transfer has a blacklist entry.
    AddressBlacklisted,
    /// The declared source owner does not match the owner recorded on the
    /// source balance, or a privileged check failed.
    Unauthorized,
    /// The transfer amount exceeds the non-escrowed portion of the source
    /// balance.
    InsufficientAvailableTokens,
    /// The address to be blacklisted already has an entry.
    AlreadyExists,
    /// The address to be removed has no entry.
    NotFound,
}

/// Errors of the platform transfer primitive itself, which runs the gatekeeper on
/// every holder-to-holder transfer before committing it.
#[derive(Clone, Copy, PartialEq, Eq, Structural, Debug)]
pub enum TransferError {
    /// The source balance does not cover the transfer amount.
    InsufficientFunds,
    /// The gatekeeper rejected the transfer; the whole transfer aborts.
    Rejected(GatekeeperError),
}

} // verus!
