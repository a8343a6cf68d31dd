//! An access-controlled digital-asset custody and redemption engine with a
//! transfer-time policy gate.
//!
//! A small set of privileged roles may mint a fungible asset; holders may
//! request conversion of their holdings into an off-system redemption; and a
//! mandatory gate enforces a blacklist plus a committed-for-redemption check
//! on every transfer of the asset. Addresses are modelled as plain `u64`
//! identities, the asset ledger as an explicit collection of holder accounts,
//! and the escrow authority as a record derived from (requester, request id).

pub mod errors;
pub mod events;
pub mod roles;
pub mod ledger;
pub mod gate;
pub mod redemption;
pub mod custody;
pub mod laws;
