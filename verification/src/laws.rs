//! System-wide laws, proved once and for all against the operation
//! contracts: the role registry's grant/revoke inversion, the strictness of
//! the redemption status machine, the escrow round trip, and the transfer
//! gate's verdicts.

use vstd::prelude::*;
use crate::custody::SilverToken;
use crate::errors::{GatekeeperError, SilverTokenError, TransferError};
use crate::ledger::{EscrowAuthority, HolderAccount, Ledger};
use crate::redemption::{is_status_trace, status_transition_allowed, RedemptionStatus};
use crate::roles::{Role, RoleRegistry};

verus! {

/// Grant and revoke are exact inverses. Take any registry without a grant
/// for (user, role); grant it (as a successful `grant` leaves the
/// registry), then revoke it (as a successful `revoke` leaves it): every
/// subject then holds exactly the roles it held at the start. Together with
/// the operations' own contracts, a role is held iff a grant was created
/// and not yet revoked.
pub proof fn lemma_grant_revoke_inverse(
    pre: RoleRegistry,
    mid: RoleRegistry,
    post: RoleRegistry,
    user: u64,
    role: Role,
)
    requires
        !pre.spec_has_role(user, role),
        mid.spec_has_role(user, role),
        forall|u: u64, ro: Role|
            !(u == user && ro == role) ==> mid.spec_has_role(u, ro) == pre.spec_has_role(u, ro),
        !post.spec_has_role(user, role),
        forall|u: u64, ro: Role|
            !(u == user && ro == role) ==> post.spec_has_role(u, ro) == mid.spec_has_role(u, ro),
    ensures
        forall|u: u64, ro: Role| post.spec_has_role(u, ro) == pre.spec_has_role(u, ro),
{
    assert forall|u: u64, ro: Role| post.spec_has_role(u, ro) == pre.spec_has_role(u, ro) by {
        if u == user && ro == role {
        } else {
            assert(post.spec_has_role(u, ro) == mid.spec_has_role(u, ro));
            assert(mid.spec_has_role(u, ro) == pre.spec_has_role(u, ro));
        }
    }
}

/// The status machine is strict: the terminal statuses have no successor,
/// no backward transition exists, and `Processing -> Cancelled` is
/// unreachable by design.
pub proof fn lemma_status_machine_strict()
    ensures
        forall|to: RedemptionStatus| !status_transition_allowed(RedemptionStatus::Fulfilled, to),
        forall|to: RedemptionStatus| !status_transition_allowed(RedemptionStatus::Cancelled, to),
        !status_transition_allowed(RedemptionStatus::Processing, RedemptionStatus::Cancelled),
        !status_transition_allowed(RedemptionStatus::Processing, RedemptionStatus::Pending),
        forall|from: RedemptionStatus| !status_transition_allowed(from, RedemptionStatus::Pending),
{
}

/// Every status history a request can exhibit — starting at Pending, each
/// step an allowed transition — is a prefix of `Pending, Processing,
/// Fulfilled` or of `Pending, Cancelled`.
pub proof fn lemma_status_trace_is_prefix(t: Seq<RedemptionStatus>)
    requires
        is_status_trace(t),
    ensures
        t.is_prefix_of(
            seq![
                RedemptionStatus::Pending,
                RedemptionStatus::Processing,
                RedemptionStatus::Fulfilled,
            ],
        ) || t.is_prefix_of(seq![RedemptionStatus::Pending, RedemptionStatus::Cancelled]),
{
    let full = seq![
        RedemptionStatus::Pending,
        RedemptionStatus::Processing,
        RedemptionStatus::Fulfilled,
    ];
    let alt = seq![RedemptionStatus::Pending, RedemptionStatus::Cancelled];
    if t.len() == 1 {
        assert(t =~= full.subrange(0, 1));
        assert(t.is_prefix_of(full));
    } else {
        assert(status_transition_allowed(t[0], t[1]));
        if t[1] == RedemptionStatus::Cancelled {
            if t.len() > 2 {
                assert(status_transition_allowed(t[1], t[2]));
                assert(false);
            }
            assert(t =~= alt.subrange(0, 2));
            assert(t.is_prefix_of(alt));
        } else {
            assert(t[1] == RedemptionStatus::Processing);
            if t.len() == 2 {
                assert(t =~= full.subrange(0, 2));
                assert(t.is_prefix_of(full));
            } else {
                assert(status_transition_allowed(t[1], t[2]));
                assert(t[2] == RedemptionStatus::Fulfilled);
                if t.len() > 3 {
                    assert(status_transition_allowed(t[2], t[3]));
                    assert(false);
                }
                assert(t =~= full.subrange(0, 3));
                assert(t.is_prefix_of(full));
            }
        }
    }
}

/// Fulfilment strictly requires Processing: with the role held and the
/// request present in any other status, the outcome is
/// InvalidRequestStatus — and the operation's contract then guarantees
/// that no state changes.
pub proof fn lemma_fulfill_requires_processing(s: SilverToken, caller: u64, request_id: u64)
    requires
        s.registry.spec_has_role(caller, Role::SupplyController),
        s.spec_request(request_id) is Some,
        s.spec_request(request_id).unwrap().status != RedemptionStatus::Processing,
    ensures
        s.fulfill_check(caller, request_id) == Some(SilverTokenError::InvalidRequestStatus),
{
}

/// Round trip: a redemption request immediately followed by its
/// cancellation restores the holder's free (non-escrowed) balance to its
/// pre-request value, provided no earlier delegation was outstanding. (The
/// proviso is necessary: the balance holds a single delegation, so a
/// request issued over an outstanding one overwrites it, and the later
/// cancellation then frees more than the second request had committed.)
pub proof fn lemma_request_cancel_round_trip(
    pre: Ledger,
    mid: Ledger,
    post: Ledger,
    user: u64,
    escrow: EscrowAuthority,
    amount: u64,
)
    requires
        pre.spec_has_account(user),
        pre.spec_delegated(user) == 0,
        mid.account_state(user) == Some(
            HolderAccount {
                owner: user,
                amount: pre.spec_balance(user),
                delegate: Some(escrow),
                delegated_amount: amount,
            },
        ),
        post.account_state(user) == Some(
            HolderAccount {
                owner: user,
                amount: mid.spec_balance(user),
                delegate: None,
                delegated_amount: 0,
            },
        ),
    ensures
        post.spec_balance(user) == pre.spec_balance(user),
        post.spec_free(user) == pre.spec_free(user),
{
}

/// The transfer gate's verdicts, for a transfer the source balance covers:
/// a blacklisted source is rejected regardless of amount; so is a
/// blacklisted destination; between clean addresses, a transfer of no more
/// than the free (non-escrowed) balance is admitted, and one of more is
/// rejected as InsufficientAvailableTokens — escrow-committed funds can
/// never be moved by an ordinary transfer.
pub proof fn lemma_transfer_gate_verdicts(
    s: SilverToken,
    source_owner: u64,
    dest_owner: u64,
    amount: u64,
)
    requires
        s.wf(),
        s.ledger.spec_has_account(source_owner),
        amount <= s.ledger.spec_balance(source_owner),
    ensures
        s.gate.spec_blacklisted(source_owner) ==> s.transfer_check(source_owner, dest_owner, amount)
            == Some(TransferError::Rejected(GatekeeperError::AddressBlacklisted)),
        !s.gate.spec_blacklisted(source_owner) && s.gate.spec_blacklisted(dest_owner) ==> s.transfer_check(
            source_owner,
            dest_owner,
            amount,
        ) == Some(TransferError::Rejected(GatekeeperError::AddressBlacklisted)),
        !s.gate.spec_blacklisted(source_owner) && !s.gate.spec_blacklisted(dest_owner) && amount
            <= s.ledger.spec_free(source_owner) ==> s.transfer_check(source_owner, dest_owner, amount)
            is None,
        !s.gate.spec_blacklisted(source_owner) && !s.gate.spec_blacklisted(dest_owner) && amount
            > s.ledger.spec_free(source_owner) ==> s.transfer_check(source_owner, dest_owner, amount)
            == Some(TransferError::Rejected(GatekeeperError::InsufficientAvailableTokens)),
{
    let source = s.ledger.account_state(source_owner).unwrap();
    assert(source.owner == source_owner);
    let deducted = HolderAccount { amount: (source.amount - amount) as u64, ..source };
    assert(deducted.amount + amount == source.amount);
}

} // verus!
