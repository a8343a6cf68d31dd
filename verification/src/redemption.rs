//! The redemption workflow's state: one request record per redemption, with
//! a strict status machine. `Pending -> Processing -> Fulfilled` is the only
//! complete path; `Pending -> Cancelled` is the only other transition.

use vstd::prelude::*;
use crate::custody::{Config, SilverToken};
use crate::errors::SilverTokenError;
use crate::events::{
    RedemptionCancelled, RedemptionFulfilled, RedemptionRequested, RedemptionStatusUpdated,
};
use crate::ledger::{EscrowAuthority, HolderAccount};
use crate::roles::Role;

verus! {

/// The status of a redemption request. `Fulfilled` and `Cancelled` are
/// terminal.
#[derive(Clone, Copy, PartialEq, Eq, Structural, Debug)]
pub enum RedemptionStatus {
    Pending,
    Processing,
    Fulfilled,
    Cancelled,
}

/// A redemption request: a holder's committed conversion of `amount` of its
/// balance into an off-system redemption. The id is the counter value at
/// creation and is never reused.
#[derive(Clone, Copy, PartialEq, Eq, Structural, Debug)]
pub struct RedemptionRequest {
    pub user: u64,
    pub amount: u64,
    pub status: RedemptionStatus,
    pub requested_at: i64,
    pub completed_at: i64,
    pub request_id: u64,
}

/// The transition relation of the status machine. Every other pair —
/// `Processing -> Cancelled`, any backward step, any step out of a terminal
/// status — is rejected by design.
pub open spec fn status_transition_allowed(from: RedemptionStatus, to: RedemptionStatus) -> bool {
    ||| (from == RedemptionStatus::Pending && to == RedemptionStatus::Processing)
    ||| (from == RedemptionStatus::Processing && to == RedemptionStatus::Fulfilled)
    ||| (from == RedemptionStatus::Pending && to == RedemptionStatus::Cancelled)
}

/// A status history as observed over a request's lifetime: it starts at
/// `Pending` and every consecutive pair is an allowed transition.
pub open spec fn is_status_trace(t: Seq<RedemptionStatus>) -> bool {
    &&& t.len() >= 1
    &&& t[0] == RedemptionStatus::Pending
    &&& forall|i: int| 0 <= i < t.len() - 1 ==> status_transition_allowed(#[trigger] t[i], t[i + 1])
}

/// Request ids are unique, positive, never above the counter that issued
/// them, and every request is for a positive amount.
pub open spec fn requests_wf(rs: Seq<RedemptionRequest>, counter: u64) -> bool {
    &&& forall|i: int, j: int|
        0 <= i < j < rs.len() ==> rs[i].request_id != rs[j].request_id
    &&& forall|i: int|
        0 <= i < rs.len() ==> 1 <= #[trigger] rs[i].request_id <= counter && rs[i].amount > 0
}

pub open spec fn spec_has_request(rs: Seq<RedemptionRequest>, request_id: u64) -> bool {
    exists|i: int| 0 <= i < rs.len() && rs[i].request_id == request_id
}

/// The index of the request with this id; meaningful only when one exists
/// (under `requests_wf` it is then unique).
pub open spec fn request_index(rs: Seq<RedemptionRequest>, request_id: u64) -> int {
    choose|i: int| 0 <= i < rs.len() && rs[i].request_id == request_id
}

/// The request with this id, or None.
pub open spec fn request_state(rs: Seq<RedemptionRequest>, request_id: u64) -> Option<
    RedemptionRequest,
> {
    if spec_has_request(rs, request_id) {
        Some(rs[request_index(rs, request_id)])
    } else {
        None
    }
}

/// Replacing one request by another with the same id changes exactly that
/// id's observation of the workflow state.
pub proof fn lemma_request_update(
    pre: Seq<RedemptionRequest>,
    post: Seq<RedemptionRequest>,
    counter: u64,
    i: int,
    r: RedemptionRequest,
)
    requires
        requests_wf(pre, counter),
        0 <= i < pre.len(),
        r.request_id == pre[i].request_id,
        r.amount > 0,
        post == pre.update(i, r),
    ensures
        requests_wf(post, counter),
        request_state(post, r.request_id) == Some(r),
        forall|id: u64| id != r.request_id ==> request_state(post, id) == request_state(pre, id),
{
    assert(post[i] == r);
    assert forall|x: int, y: int| 0 <= x < y < post.len() implies post[x].request_id
        != post[y].request_id by {
        assert(pre[x].request_id != pre[y].request_id);
    }
    let c = request_index(post, r.request_id);
    assert(post[c].request_id == r.request_id);
    if c != i {
        let x = if c < i { c } else { i };
        let y = if c < i { i } else { c };
        assert(post[x].request_id == post[y].request_id);
        assert(false);
    }
    assert forall|id: u64| id != r.request_id implies request_state(post, id) == request_state(
        pre,
        id,
    ) by {
        if spec_has_request(pre, id) {
            let k = request_index(pre, id);
            assert(pre[k].request_id == id);
            assert(k != i);
            assert(post[k].request_id == id);
            let k2 = request_index(post, id);
            assert(post[k2].request_id == id);
            assert(k2 != i);
            assert(pre[k2].request_id == id);
            if k2 != k {
                let x = if k2 < k { k2 } else { k };
                let y = if k2 < k { k } else { k2 };
                assert(pre[x].request_id == pre[y].request_id);
                assert(false);
            }
        } else {
            if spec_has_request(post, id) {
                let k2 = request_index(post, id);
                assert(post[k2].request_id == id);
                assert(k2 != i);
                assert(pre[k2].request_id == id);
                assert(false);
            }
        }
    }
}

/// Appending a request under a freshly issued id changes exactly that id's
/// observation of the workflow state; the counter that issued the id keeps
/// every older id valid.
pub proof fn lemma_request_push(
    pre: Seq<RedemptionRequest>,
    post: Seq<RedemptionRequest>,
    counter: u64,
    new_counter: u64,
    r: RedemptionRequest,
)
    requires
        requests_wf(pre, counter),
        counter < new_counter <= counter + 1,
        r.request_id == new_counter,
        r.amount > 0,
        post == pre.push(r),
    ensures
        requests_wf(post, new_counter),
        request_state(post, r.request_id) == Some(r),
        forall|id: u64| id != r.request_id ==> request_state(post, id) == request_state(pre, id),
{
    let n = pre.len() as int;
    assert(post[n] == r);
    assert forall|x: int, y: int| 0 <= x < y < post.len() implies post[x].request_id
        != post[y].request_id by {
        if y < n {
            assert(pre[x].request_id != pre[y].request_id);
        } else {
            assert(post[x] == pre[x]);
            assert(pre[x].request_id <= counter);
        }
    }
    assert(spec_has_request(post, r.request_id));
    let c = request_index(post, r.request_id);
    assert(post[c].request_id == r.request_id);
    if c != n {
        assert(pre[c].request_id == r.request_id);
        assert(false);
    }
    assert forall|id: u64| id != r.request_id implies request_state(post, id) == request_state(
        pre,
        id,
    ) by {
        if spec_has_request(pre, id) {
            let k = request_index(pre, id);
            assert(pre[k].request_id == id);
            assert(post[k].request_id == id);
            let k2 = request_index(post, id);
            assert(post[k2].request_id == id);
            assert(k2 != n);
            assert(pre[k2].request_id == id);
            if k2 != k {
                let x = if k2 < k { k2 } else { k };
                let y = if k2 < k { k } else { k2 };
                assert(pre[x].request_id == pre[y].request_id);
                assert(false);
            }
        } else {
            if spec_has_request(post, id) {
                let k2 = request_index(post, id);
                assert(post[k2].request_id == id);
                assert(k2 != n);
                assert(pre[k2].request_id == id);
                assert(false);
            }
        }
    }
}

impl SilverToken {
    /// The index of the request with this id in the backing store.
    pub(crate) fn find_request(&self, request_id: u64) -> (r: Option<usize>)
        requires
            self.wf(),
        ensures
            match r {
                Some(i) => i < self.requests@.len() && self.requests@[i as int].request_id
                    == request_id && i as int == request_index(self.requests@, request_id)
                    && self.spec_request(request_id) == Some(self.requests@[i as int]),
                None => self.spec_request(request_id) is None,
            },
    {
        let mut i: usize = 0;
        while i < self.requests.len()
            invariant
                self.wf(),
                i <= self.requests@.len(),
                forall|k: int| 0 <= k < i ==> self.requests@[k].request_id != request_id,
            decreases self.requests@.len() - i,
        {
            if self.requests[i].request_id == request_id {
                proof {
                    let c = request_index(self.requests@, request_id);
                    if c != i as int {
                        let x = if c < i as int { c } else { i as int };
                        let y = if c < i as int { i as int } else { c };
                        assert(self.requests@[x].request_id == self.requests@[y].request_id);
                        assert(false);
                    }
                }
                return Some(i);
            }
            i += 1;
        }
        None
    }

    /// The outcome of a redemption request: a positive amount, an unpaused
    /// system, a balance that covers the amount, a free (non-escrowed)
    /// balance that covers it too, and an unexhausted id counter.
    pub open spec fn request_check(self, user: u64, amount: u64) -> Option<SilverTokenError> {
        if amount == 0 {
            Some(SilverTokenError::InvalidAmount)
        } else if self.config.is_paused {
            Some(SilverTokenError::ContractPaused)
        } else if self.ledger.spec_balance(user) < amount {
            Some(SilverTokenError::InsufficientBalance)
        } else if self.ledger.spec_balance(user) - self.ledger.spec_delegated(user) < amount {
            Some(SilverTokenError::InsufficientAvailableTokens)
        } else if self.config.redemption_request_counter == u64::MAX {
            Some(SilverTokenError::CounterOverflow)
        } else {
            None
        }
    }

    /// A holder commits `amount` of its balance for redemption: the next id
    /// is allocated from the counter, a Pending request is recorded, and a
    /// delegation of `amount` to the request's escrow authority is created —
    /// overwriting any delegation already on the balance.
    pub fn request_redemption(&mut self, user: u64, amount: u64, now: i64) -> (r: Result<
        RedemptionRequested,
        SilverTokenError,
    >)
        requires
            old(self).wf(),
        ensures
            final(self).wf(),
            match r {
                Ok(ev) => ({
                    let request_id = (old(self).config.redemption_request_counter + 1) as u64;
                    let req = RedemptionRequest {
                        user,
                        amount,
                        status: RedemptionStatus::Pending,
                        requested_at: now,
                        completed_at: 0,
                        request_id,
                    };
                    &&& old(self).request_check(user, amount) is None
                    &&& final(self).config == (Config {
                        redemption_request_counter: request_id,
                        ..old(self).config
                    })
                    &&& final(self).requests@ == old(self).requests@.push(req)
                    &&& final(self).spec_request(request_id) == Some(req)
                    &&& forall|id: u64|
                        id != request_id ==> final(self).spec_request(id) == old(self).spec_request(
                            id,
                        )
                    &&& final(self).ledger.account_state(user) == Some(
                        HolderAccount {
                            owner: user,
                            amount: old(self).ledger.spec_balance(user),
                            delegate: Some(EscrowAuthority { requester: user, request_id }),
                            delegated_amount: amount,
                        },
                    )
                    &&& forall|o: u64|
                        o != user ==> final(self).ledger.account_state(o) == old(self).ledger.account_state(o)
                    &&& final(self).ledger.mint_authority == old(self).ledger.mint_authority
                    &&& final(self).registry == old(self).registry
                    &&& final(self).gate == old(self).gate
                    &&& ev == (RedemptionRequested { user, request_id, amount, timestamp: now })
                }),
                Err(e) => old(self).request_check(user, amount) == Some(e) && *final(self) == *old(self),
            },
    {
        if amount == 0 {
            return Err(SilverTokenError::InvalidAmount);
        }
        if self.config.is_paused {
            return Err(SilverTokenError::ContractPaused);
        }
        let account = match self.ledger.find_account(user) {
            Some(i) => self.ledger.accounts[i],
            None => {
                return Err(SilverTokenError::InsufficientBalance);
            },
        };
        if account.amount < amount {
            return Err(SilverTokenError::InsufficientBalance);
        }
        let available_tokens = if account.delegated_amount <= account.amount {
            account.amount - account.delegated_amount
        } else {
            0
        };
        if available_tokens < amount {
            return Err(SilverTokenError::InsufficientAvailableTokens);
        }
        if self.config.redemption_request_counter == u64::MAX {
            return Err(SilverTokenError::CounterOverflow);
        }
        let request_id = self.config.redemption_request_counter + 1;
        let req = RedemptionRequest {
            user,
            amount,
            status: RedemptionStatus::Pending,
            requested_at: now,
            completed_at: 0,
            request_id,
        };
        let ghost pre_requests = self.requests@;
        let ghost pre_counter = self.config.redemption_request_counter;
        self.requests.push(req);
        self.ledger.approve_escrow(user, EscrowAuthority { requester: user, request_id }, amount);
        self.config.redemption_request_counter = request_id;
        proof {
            lemma_request_push(pre_requests, self.requests@, pre_counter, request_id, req);
        }
        Ok(RedemptionRequested { user, request_id, amount, timestamp: now })
    }

    /// The outcome of moving a request to Processing: the SupplyController
    /// role, an existing request, an unpaused system and a Pending status.
    pub open spec fn set_processing_check(self, caller: u64, request_id: u64) -> Option<
        SilverTokenError,
    > {
        if !self.registry.spec_has_role(caller, Role::SupplyController) {
            Some(SilverTokenError::Unauthorized)
        } else if self.spec_request(request_id) is None {
            Some(SilverTokenError::NotFound)
        } else if self.config.is_paused {
            Some(SilverTokenError::ContractPaused)
        } else if self.spec_request(request_id).unwrap().status != RedemptionStatus::Pending {
            Some(SilverTokenError::InvalidRequestStatus)
        } else {
            None
        }
    }

    /// A purely administrative checkpoint: Pending -> Processing. No funds
    /// move. Once a request is Processing, cancellation is blocked; only
    /// fulfilment completes it.
    pub fn set_redemption_processing(&mut self, caller: u64, request_id: u64) -> (r: Result<
        RedemptionStatusUpdated,
        SilverTokenError,
    >)
        requires
            old(self).wf(),
        ensures
            final(self).wf(),
            match r {
                Ok(ev) => ({
                    let req = old(self).spec_request(request_id).unwrap();
                    &&& old(self).set_processing_check(caller, request_id) is None
                    &&& final(self).spec_request(request_id) == Some(
                        RedemptionRequest { status: RedemptionStatus::Processing, ..req },
                    )
                    &&& forall|id: u64|
                        id != request_id ==> final(self).spec_request(id) == old(self).spec_request(
                            id,
                        )
                    &&& final(self).config == old(self).config
                    &&& final(self).registry == old(self).registry
                    &&& final(self).ledger == old(self).ledger
                    &&& final(self).gate == old(self).gate
                    &&& ev == (RedemptionStatusUpdated {
                        user: req.user,
                        request_id,
                        old_status: RedemptionStatus::Pending,
                        new_status: RedemptionStatus::Processing,
                    })
                }),
                Err(e) => old(self).set_processing_check(caller, request_id) == Some(e) && *final(self) == *old(self),
            },
    {
        if !self.registry.has_role(caller, Role::SupplyController) {
            return Err(SilverTokenError::Unauthorized);
        }
        let i = match self.find_request(request_id) {
            Some(i) => i,
            None => {
                return Err(SilverTokenError::NotFound);
            },
        };
        if self.config.is_paused {
            return Err(SilverTokenError::ContractPaused);
        }
        let req = self.requests[i];
        if req.status != RedemptionStatus::Pending {
            return Err(SilverTokenError::InvalidRequestStatus);
        }
        let updated = RedemptionRequest { status: RedemptionStatus::Processing, ..req };
        let ghost pre_requests = self.requests@;
        self.requests.set(i, updated);
        proof {
            lemma_request_update(
                pre_requests,
                self.requests@,
                self.config.redemption_request_counter,
                i as int,
                updated,
            );
        }
        Ok(
            RedemptionStatusUpdated {
                user: req.user,
                request_id,
                old_status: RedemptionStatus::Pending,
                new_status: RedemptionStatus::Processing,
            },
        )
    }

    /// The outcome of a fulfilment attempt: the SupplyController role, an
    /// existing request, an unpaused system with the request in Processing,
    /// and an escrow delegation that still names this request and covers
    /// its amount.
    pub open spec fn fulfill_check(self, caller: u64, request_id: u64) -> Option<
        SilverTokenError,
    > {
        if !self.registry.spec_has_role(caller, Role::SupplyController) {
            Some(SilverTokenError::Unauthorized)
        } else if self.spec_request(request_id) is None {
            Some(SilverTokenError::NotFound)
        } else if self.config.is_paused || self.spec_request(request_id).unwrap().status
            != RedemptionStatus::Processing {
            Some(SilverTokenError::InvalidRequestStatus)
        } else {
            let req = self.spec_request(request_id).unwrap();
            self.ledger.burn_escrowed_check(
                EscrowAuthority { requester: req.user, request_id },
                req.amount,
            )
        }
    }

    /// Burns the request's amount from the holder's balance using the escrow
    /// authority's delegated rights — no holder signature is required; that
    /// is the point of the escrow. Processing -> Fulfilled, and the
    /// completion timestamp is set.
    pub fn fulfill_redemption(&mut self, caller: u64, request_id: u64, now: i64) -> (r: Result<
        RedemptionFulfilled,
        SilverTokenError,
    >)
        requires
            old(self).wf(),
        ensures
            final(self).wf(),
            match r {
                Ok(ev) => ({
                    let req = old(self).spec_request(request_id).unwrap();
                    &&& old(self).fulfill_check(caller, request_id) is None
                    &&& final(self).spec_request(request_id) == Some(
                        RedemptionRequest {
                            status: RedemptionStatus::Fulfilled,
                            completed_at: now,
                            ..req
                        },
                    )
                    &&& forall|id: u64|
                        id != request_id ==> final(self).spec_request(id) == old(self).spec_request(
                            id,
                        )
                    &&& final(self).ledger.account_state(req.user) == Some(
                        HolderAccount {
                            owner: req.user,
                            amount: (old(self).ledger.spec_balance(req.user) - req.amount) as u64,
                            delegate: if old(self).ledger.spec_delegated(req.user) == req.amount {
                                None
                            } else {
                                Some(EscrowAuthority { requester: req.user, request_id })
                            },
                            delegated_amount: (old(self).ledger.spec_delegated(req.user)
                                - req.amount) as u64,
                        },
                    )
                    &&& forall|o: u64|
                        o != req.user ==> final(self).ledger.account_state(o) == old(self).ledger.account_state(o)
                    &&& final(self).ledger.mint_authority == old(self).ledger.mint_authority
                    &&& final(self).config == old(self).config
                    &&& final(self).registry == old(self).registry
                    &&& final(self).gate == old(self).gate
                    &&& ev == (RedemptionFulfilled {
                        user: req.user,
                        request_id,
                        amount: req.amount,
                        timestamp: now,
                    })
                }),
                Err(e) => old(self).fulfill_check(caller, request_id) == Some(e) && *final(self)
                    == *old(self),
            },
    {
        if !self.registry.has_role(caller, Role::SupplyController) {
            return Err(SilverTokenError::Unauthorized);
        }
        let i = match self.find_request(request_id) {
            Some(i) => i,
            None => {
                return Err(SilverTokenError::NotFound);
            },
        };
        let req = self.requests[i];
        if self.config.is_paused || req.status != RedemptionStatus::Processing {
            return Err(SilverTokenError::InvalidRequestStatus);
        }
        let escrow = EscrowAuthority { requester: req.user, request_id };
        match self.ledger.burn_escrowed(escrow, req.amount) {
            Ok(()) => {},
            Err(e) => {
                return Err(e);
            },
        }
        let updated = RedemptionRequest {
            status: RedemptionStatus::Fulfilled,
            completed_at: now,
            ..req
        };
        let ghost pre_requests = self.requests@;
        self.requests.set(i, updated);
        proof {
            lemma_request_update(
                pre_requests,
                self.requests@,
                self.config.redemption_request_counter,
                i as int,
                updated,
            );
        }
        Ok(RedemptionFulfilled { user: req.user, request_id, amount: req.amount, timestamp: now })
    }

    /// The outcome of a cancellation attempt: an existing request, still
    /// Pending — Processing is excluded by design — and a caller who is the
    /// original requester or holds SupplyController.
    pub open spec fn cancel_check(self, caller: u64, request_id: u64) -> Option<
        SilverTokenError,
    > {
        if self.spec_request(request_id) is None {
            Some(SilverTokenError::NotFound)
        } else if self.spec_request(request_id).unwrap().status != RedemptionStatus::Pending {
            Some(SilverTokenError::InvalidRequestStatus)
        } else if !(caller == self.spec_request(request_id).unwrap().user
            || self.registry.spec_has_role(caller, Role::SupplyController)) {
            Some(SilverTokenError::Unauthorized)
        } else {
            None
        }
    }

    /// Revokes the escrow delegation, releasing the holder's funds back to
    /// free balance, and moves Pending -> Cancelled. Cancellation remains
    /// allowed while the system is paused: holders must always be able to
    /// exit an escrow.
    pub fn cancel_redemption(&mut self, caller: u64, request_id: u64, now: i64) -> (r: Result<
        RedemptionCancelled,
        SilverTokenError,
    >)
        requires
            old(self).wf(),
        ensures
            final(self).wf(),
            match r {
                Ok(ev) => ({
                    let req = old(self).spec_request(request_id).unwrap();
                    &&& old(self).cancel_check(caller, request_id) is None
                    &&& final(self).spec_request(request_id) == Some(
                        RedemptionRequest {
                            status: RedemptionStatus::Cancelled,
                            completed_at: now,
                            ..req
                        },
                    )
                    &&& forall|id: u64|
                        id != request_id ==> final(self).spec_request(id) == old(self).spec_request(
                            id,
                        )
                    &&& (old(self).ledger.spec_has_account(req.user) ==> final(self).ledger.account_state(req.user) == Some(
                        HolderAccount {
                            owner: req.user,
                            amount: old(self).ledger.spec_balance(req.user),
                            delegate: None,
                            delegated_amount: 0,
                        },
                    ))
                    &&& (!old(self).ledger.spec_has_account(req.user) ==> final(self).ledger == old(self).ledger)
                    &&& forall|o: u64|
                        o != req.user ==> final(self).ledger.account_state(o) == old(self).ledger.account_state(o)
                    &&& final(self).ledger.mint_authority == old(self).ledger.mint_authority
                    &&& final(self).config == old(self).config
                    &&& final(self).registry == old(self).registry
                    &&& final(self).gate == old(self).gate
                    &&& ev == (RedemptionCancelled {
                        user: req.user,
                        request_id,
                        amount: req.amount,
                        timestamp: now,
                        cancelled_by: caller,
                    })
                }),
                Err(e) => old(self).cancel_check(caller, request_id) == Some(e) && *final(self)
                    == *old(self),
            },
    {
        let i = match self.find_request(request_id) {
            Some(i) => i,
            None => {
                return Err(SilverTokenError::NotFound);
            },
        };
        let req = self.requests[i];
        if req.status != RedemptionStatus::Pending {
            return Err(SilverTokenError::InvalidRequestStatus);
        }
        let is_own_request = caller == req.user;
        let has_supply_role = self.registry.has_role(caller, Role::SupplyController);
        if !(is_own_request || has_supply_role) {
            return Err(SilverTokenError::Unauthorized);
        }
        self.ledger.revoke_escrow(req.user);
        let updated = RedemptionRequest {
            status: RedemptionStatus::Cancelled,
            completed_at: now,
            ..req
        };
        let ghost pre_requests = self.requests@;
        self.requests.set(i, updated);
        proof {
            lemma_request_update(
                pre_requests,
                self.requests@,
                self.config.redemption_request_counter,
                i as int,
                updated,
            );
        }
        Ok(
            RedemptionCancelled {
                user: req.user,
                request_id,
                amount: req.amount,
                timestamp: now,
                cancelled_by: caller,
            },
        )
    }
}

} // verus!
