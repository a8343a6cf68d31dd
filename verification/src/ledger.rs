//! The asset ledger: one balance-holding account per holder, each with at
//! most one active escrow delegation. The ledger is the single store that
//! minting, burning, escrow and transfers act on.

use vstd::prelude::*;
use crate::errors::SilverTokenError;

verus! {

/// The escrow authority of a redemption request: a keyless identity
/// reconstructible only from (requester, request id). No holder key can
/// collide with it, so only the redemption workflow can exercise a
/// delegation granted to it.
#[derive(Clone, Copy, PartialEq, Eq, Structural, Debug)]
pub struct EscrowAuthority {
    pub requester: u64,
    pub request_id: u64,
}

/// Who may mint the asset: the system's own derived authority, or an
/// external identity after the capability has been rotated away.
#[derive(Clone, Copy, PartialEq, Eq, Structural, Debug)]
pub enum MintAuthority {
    ProgramHeld,
    External(u64),
}

/// A holder's balance-holding storage cell, with its single optional escrow
/// delegation.
#[derive(Clone, Copy, PartialEq, Eq, Debug)]
pub struct HolderAccount {
    pub owner: u64,
    pub amount: u64,
    pub delegate: Option<EscrowAuthority>,
    pub delegated_amount: u64,
}

impl HolderAccount {
    /// The non-escrowed portion of the balance, saturating at zero.
    pub open spec fn free(self) -> int {
        if self.delegated_amount <= self.amount {
            self.amount - self.delegated_amount
        } else {
            0
        }
    }
}

/// The asset ledger: the mint capability holder and every holder account.
#[derive(Clone, PartialEq, Eq, Debug)]
pub struct Ledger {
    pub mint_authority: MintAuthority,
    pub accounts: Vec<HolderAccount>,
}

impl Ledger {
    /// One account per owner, and no delegated amount without a delegate.
    pub open spec fn wf(self) -> bool {
        (forall|i: int, j: int|
            0 <= i < j < self.accounts@.len() ==> self.accounts@[i].owner
                != self.accounts@[j].owner) && (forall|i: int|
            0 <= i < self.accounts@.len() ==> (self.accounts@[i].delegate is None
                ==> self.accounts@[i].delegated_amount == 0))
    }

    pub open spec fn spec_has_account(self, owner: u64) -> bool {
        exists|i: int| 0 <= i < self.accounts@.len() && self.accounts@[i].owner == owner
    }

    /// The index of the owner's account; meaningful only when one exists
    /// (under `wf` it is then unique).
    pub open spec fn account_index(self, owner: u64) -> int {
        choose|i: int| 0 <= i < self.accounts@.len() && self.accounts@[i].owner == owner
    }

    /// The owner's account, or None: the canonical observation of the ledger
    /// for one owner.
    pub open spec fn account_state(self, owner: u64) -> Option<HolderAccount> {
        if self.spec_has_account(owner) {
            Some(self.accounts@[self.account_index(owner)])
        } else {
            None
        }
    }

    /// The owner's balance; an owner without an account holds nothing.
    pub open spec fn spec_balance(self, owner: u64) -> u64 {
        match self.account_state(owner) {
            Some(a) => a.amount,
            None => 0,
        }
    }

    /// The owner's escrow-delegated amount.
    pub open spec fn spec_delegated(self, owner: u64) -> u64 {
        match self.account_state(owner) {
            Some(a) => a.delegated_amount,
            None => 0,
        }
    }

    /// The owner's active escrow delegation, if any.
    pub open spec fn spec_delegate(self, owner: u64) -> Option<EscrowAuthority> {
        match self.account_state(owner) {
            Some(a) => a.delegate,
            None => None,
        }
    }

    /// The owner's free (non-escrowed) balance.
    pub open spec fn spec_free(self, owner: u64) -> int {
        match self.account_state(owner) {
            Some(a) => a.free(),
            None => 0,
        }
    }

    /// An empty ledger; the mint capability starts with the system itself.
    pub fn new() -> (r: Ledger)
        ensures
            r.wf(),
            r.mint_authority == MintAuthority::ProgramHeld,
            forall|o: u64| r.account_state(o) is None,
    {
        Ledger { mint_authority: MintAuthority::ProgramHeld, accounts: Vec::new() }
    }

    /// The index of the owner's account in the backing store.
    pub(crate) fn find_account(&self, owner: u64) -> (r: Option<usize>)
        requires
            self.wf(),
        ensures
            match r {
                Some(i) => i < self.accounts@.len() && self.accounts@[i as int].owner == owner
                    && i as int == self.account_index(owner) && self.spec_has_account(owner),
                None => !self.spec_has_account(owner),
            },
    {
        let mut i: usize = 0;
        while i < self.accounts.len()
            invariant
                self.wf(),
                i <= self.accounts@.len(),
                forall|k: int| 0 <= k < i ==> self.accounts@[k].owner != owner,
            decreases self.accounts@.len() - i,
        {
            if self.accounts[i].owner == owner {
                proof {
                    let c = self.account_index(owner);
                    if c != i as int {
                        let a = if c < i as int { c } else { i as int };
                        let b = if c < i as int { i as int } else { c };
                        assert(self.accounts@[a].owner == self.accounts@[b].owner);
                        assert(false);
                    }
                }
                return Some(i);
            }
            i += 1;
        }
        None
    }
}

/// Replacing one account by another of the same owner changes exactly that
/// owner's observation of the ledger and keeps the ledger well-formed.
pub proof fn lemma_account_update(pre: Ledger, post: Ledger, i: int, a: HolderAccount)
    requires
        pre.wf(),
        0 <= i < pre.accounts@.len(),
        a.owner == pre.accounts@[i].owner,
        a.delegate is None ==> a.delegated_amount == 0,
        post.accounts@ == pre.accounts@.update(i, a),
    ensures
        post.wf(),
        post.spec_has_account(a.owner),
        post.account_state(a.owner) == Some(a),
        forall|o: u64| o != a.owner ==> post.account_state(o) == pre.account_state(o),
{
    assert(post.accounts@[i] == a);
    assert forall|x: int, y: int| 0 <= x < y < post.accounts@.len() implies post.accounts@[x].owner
        != post.accounts@[y].owner by {
        assert(pre.accounts@[x].owner != pre.accounts@[y].owner);
        assert(post.accounts@[x].owner == pre.accounts@[x].owner || x == i);
        assert(post.accounts@[y].owner == pre.accounts@[y].owner || y == i);
    }
    let c = post.account_index(a.owner);
    assert(0 <= c < post.accounts@.len() && post.accounts@[c].owner == a.owner);
    if c != i {
        let x = if c < i { c } else { i };
        let y = if c < i { i } else { c };
        assert(post.accounts@[x].owner == post.accounts@[y].owner);
        assert(false);
    }
    assert forall|o: u64| o != a.owner implies post.account_state(o) == pre.account_state(o) by {
        assert forall|k: int| 0 <= k < pre.accounts@.len() && k != i implies post.accounts@[k]
            == pre.accounts@[k] by {}
        if pre.spec_has_account(o) {
            let k = pre.account_index(o);
            assert(0 <= k < pre.accounts@.len() && pre.accounts@[k].owner == o);
            assert(k != i);
            assert(post.accounts@[k].owner == o);
            assert(post.spec_has_account(o));
            let k2 = post.account_index(o);
            assert(post.accounts@[k2].owner == o);
            assert(k2 != i);
            assert(pre.accounts@[k2].owner == o);
            if k2 != k {
                let x = if k2 < k { k2 } else { k };
                let y = if k2 < k { k } else { k2 };
                assert(pre.accounts@[x].owner == pre.accounts@[y].owner);
                assert(false);
            }
        } else {
            if post.spec_has_account(o) {
                let k2 = post.account_index(o);
                assert(post.accounts@[k2].owner == o);
                assert(k2 != i);
                assert(pre.accounts@[k2].owner == o);
                assert(false);
            }
        }
    }
}

/// Appending an account for a fresh owner changes exactly that owner's
/// observation of the ledger and keeps the ledger well-formed.
pub proof fn lemma_account_push(pre: Ledger, post: Ledger, a: HolderAccount)
    requires
        pre.wf(),
        !pre.spec_has_account(a.owner),
        a.delegate is None ==> a.delegated_amount == 0,
        post.accounts@ == pre.accounts@.push(a),
    ensures
        post.wf(),
        post.account_state(a.owner) == Some(a),
        forall|o: u64| o != a.owner ==> post.account_state(o) == pre.account_state(o),
{
    let n = pre.accounts@.len() as int;
    assert(post.accounts@[n] == a);
    assert forall|x: int, y: int| 0 <= x < y < post.accounts@.len() implies post.accounts@[x].owner
        != post.accounts@[y].owner by {
        if y < n {
            assert(pre.accounts@[x].owner != pre.accounts@[y].owner);
        } else {
            assert(post.accounts@[x] == pre.accounts@[x]);
            assert(pre.accounts@[x].owner != a.owner);
        }
    }
    assert(post.spec_has_account(a.owner));
    let c = post.account_index(a.owner);
    assert(post.accounts@[c].owner == a.owner);
    if c != n {
        assert(pre.accounts@[c].owner == a.owner);
        assert(false);
    }
    assert forall|o: u64| o != a.owner implies post.account_state(o) == pre.account_state(o) by {
        if pre.spec_has_account(o) {
            let k = pre.account_index(o);
            assert(pre.accounts@[k].owner == o);
            assert(post.accounts@[k].owner == o);
            let k2 = post.account_index(o);
            assert(post.accounts@[k2].owner == o);
            assert(k2 != n);
            assert(pre.accounts@[k2].owner == o);
            if k2 != k {
                let x = if k2 < k { k2 } else { k };
                let y = if k2 < k { k } else { k2 };
                assert(pre.accounts@[x].owner == pre.accounts@[y].owner);
                assert(false);
            }
        } else {
            if post.spec_has_account(o) {
                let k2 = post.account_index(o);
                assert(post.accounts@[k2].owner == o);
                assert(k2 != n);
                assert(pre.accounts@[k2].owner == o);
                assert(false);
            }
        }
    }
}

impl Ledger {
    /// Adds `amount` to the owner's balance, creating the account when
    /// absent. The delegation state of the account is untouched.
    pub(crate) fn credit(&mut self, owner: u64, amount: u64)
        requires
            old(self).wf(),
            old(self).spec_balance(owner) + amount <= u64::MAX,
        ensures
            final(self).wf(),
            final(self).mint_authority == old(self).mint_authority,
            final(self).account_state(owner) == Some(
                HolderAccount {
                    owner,
                    amount: (old(self).spec_balance(owner) + amount) as u64,
                    delegate: old(self).spec_delegate(owner),
                    delegated_amount: old(self).spec_delegated(owner),
                },
            ),
            forall|o: u64| o != owner ==> final(self).account_state(o) == old(self).account_state(o),
    {
        let ghost pre = *self;
        match self.find_account(owner) {
            Some(i) => {
                let mut a = self.accounts[i];
                a.amount = a.amount + amount;
                self.accounts.set(i, a);
                proof {
                    lemma_account_update(pre, *self, i as int, a);
                }
            },
            None => {
                let a = HolderAccount { owner, amount, delegate: None, delegated_amount: 0 };
                self.accounts.push(a);
                proof {
                    lemma_account_push(pre, *self, a);
                }
            },
        }
    }

    /// Removes `amount` from the owner's balance; the delegation state is
    /// untouched. The caller establishes that the balance covers it.
    pub(crate) fn withdraw(&mut self, owner: u64, amount: u64)
        requires
            old(self).wf(),
            old(self).spec_has_account(owner),
            amount <= old(self).spec_balance(owner),
        ensures
            final(self).wf(),
            final(self).mint_authority == old(self).mint_authority,
            final(self).account_state(owner) == Some(
                HolderAccount {
                    owner,
                    amount: (old(self).spec_balance(owner) - amount) as u64,
                    delegate: old(self).spec_delegate(owner),
                    delegated_amount: old(self).spec_delegated(owner),
                },
            ),
            forall|o: u64| o != owner ==> final(self).account_state(o) == old(self).account_state(o),
    {
        let ghost pre = *self;
        let i = self.find_account(owner).unwrap();
        let mut a = self.accounts[i];
        a.amount = a.amount - amount;
        self.accounts.set(i, a);
        proof {
            lemma_account_update(pre, *self, i as int, a);
        }
    }

    /// Creates (or overwrites) the owner's single escrow delegation: the
    /// escrow authority may thereafter spend up to `amount` of the balance.
    pub(crate) fn approve_escrow(&mut self, owner: u64, escrow: EscrowAuthority, amount: u64)
        requires
            old(self).wf(),
            old(self).spec_has_account(owner),
        ensures
            final(self).wf(),
            final(self).mint_authority == old(self).mint_authority,
            final(self).account_state(owner) == Some(
                HolderAccount {
                    owner,
                    amount: old(self).spec_balance(owner),
                    delegate: Some(escrow),
                    delegated_amount: amount,
                },
            ),
            forall|o: u64| o != owner ==> final(self).account_state(o) == old(self).account_state(o),
    {
        let ghost pre = *self;
        let i = self.find_account(owner).unwrap();
        let mut a = self.accounts[i];
        a.delegate = Some(escrow);
        a.delegated_amount = amount;
        self.accounts.set(i, a);
        proof {
            lemma_account_update(pre, *self, i as int, a);
        }
    }

    /// Revokes the owner's escrow delegation, releasing the whole balance
    /// back to free funds. Without an account there is nothing to revoke.
    pub(crate) fn revoke_escrow(&mut self, owner: u64)
        requires
            old(self).wf(),
        ensures
            final(self).wf(),
            final(self).mint_authority == old(self).mint_authority,
            old(self).spec_has_account(owner) ==> final(self).account_state(owner) == Some(
                HolderAccount {
                    owner,
                    amount: old(self).spec_balance(owner),
                    delegate: None,
                    delegated_amount: 0,
                },
            ),
            !old(self).spec_has_account(owner) ==> *final(self) == *old(self),
            forall|o: u64| o != owner ==> final(self).account_state(o) == old(self).account_state(o),
    {
        let ghost pre = *self;
        match self.find_account(owner) {
            Some(i) => {
                let mut a = self.accounts[i];
                a.delegate = None;
                a.delegated_amount = 0;
                self.accounts.set(i, a);
                proof {
                    lemma_account_update(pre, *self, i as int, a);
                }
            },
            None => {},
        }
    }

    /// The outcome of a burn exercised through an escrow delegation: the
    /// delegation must name this exact escrow authority and cover the
    /// amount, and the balance must hold it.
    pub open spec fn burn_escrowed_check(self, escrow: EscrowAuthority, amount: u64) -> Option<
        SilverTokenError,
    > {
        if self.spec_delegate(escrow.requester) != Some(escrow) {
            Some(SilverTokenError::Unauthorized)
        } else if self.spec_delegated(escrow.requester) < amount {
            Some(SilverTokenError::InsufficientBalance)
        } else if self.spec_balance(escrow.requester) < amount {
            Some(SilverTokenError::InsufficientBalance)
        } else {
            None
        }
    }

    /// Destroys `amount` of the requester's balance using the escrow
    /// authority's delegated spending rights — no holder signature involved.
    /// The delegation is consumed by the burnt amount and cleared when spent.
    pub(crate) fn burn_escrowed(&mut self, escrow: EscrowAuthority, amount: u64) -> (r: Result<
        (),
        SilverTokenError,
    >)
        requires
            old(self).wf(),
        ensures
            final(self).wf(),
            final(self).mint_authority == old(self).mint_authority,
            match r {
                Ok(()) => old(self).burn_escrowed_check(escrow, amount) is None
                    && final(self).account_state(escrow.requester) == Some(
                    HolderAccount {
                        owner: escrow.requester,
                        amount: (old(self).spec_balance(escrow.requester) - amount) as u64,
                        delegate: if old(self).spec_delegated(escrow.requester) == amount {
                            None
                        } else {
                            Some(escrow)
                        },
                        delegated_amount: (old(self).spec_delegated(escrow.requester)
                            - amount) as u64,
                    },
                ) && (forall|o: u64|
                    o != escrow.requester ==> final(self).account_state(o) == old(self).account_state(o)),
                Err(e) => old(self).burn_escrowed_check(escrow, amount) == Some(e) && *final(self)
                    == *old(self),
            },
    {
        let ghost pre = *self;
        let found = self.find_account(escrow.requester);
        let i = match found {
            Some(i) => i,
            None => {
                return Err(SilverTokenError::Unauthorized);
            },
        };
        let mut a = self.accounts[i];
        let matches_escrow = match a.delegate {
            Some(d) => d.requester == escrow.requester && d.request_id == escrow.request_id,
            None => false,
        };
        if !matches_escrow {
            return Err(SilverTokenError::Unauthorized);
        }
        if a.delegated_amount < amount || a.amount < amount {
            return Err(SilverTokenError::InsufficientBalance);
        }
        a.amount = a.amount - amount;
        a.delegated_amount = a.delegated_amount - amount;
        if a.delegated_amount == 0 {
            a.delegate = None;
        }
        self.accounts.set(i, a);
        proof {
            lemma_account_update(pre, *self, i as int, a);
        }
        Ok(())
    }
}

} // verus!
