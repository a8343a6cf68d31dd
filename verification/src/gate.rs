//! The transfer gatekeeper: a per-asset blacklist plus the mandatory
//! admission check run on every holder-to-holder transfer before it commits.
//! The hook performs no writes; rejection aborts the enclosing transfer.

use vstd::prelude::*;
use crate::errors::GatekeeperError;
use crate::ledger::HolderAccount;
use crate::roles::{Role, RoleRegistry};

verus! {

/// A marker record whose mere existence denies the address both sending and
/// receiving rights.
#[derive(Clone, Copy, PartialEq, Eq, Structural, Debug)]
pub struct BlacklistEntry {
    pub address: u64,
}

/// The gatekeeper's own configuration and store: its administrator and the
/// set of flagged addresses.
#[derive(Clone, PartialEq, Eq, Debug)]
pub struct Gatekeeper {
    pub admin: u64,
    pub blacklist: Vec<BlacklistEntry>,
}

impl Gatekeeper {
    /// At most one entry per address.
    pub open spec fn wf(self) -> bool {
        forall|i: int, j: int|
            0 <= i < j < self.blacklist@.len() ==> self.blacklist@[i].address
                != self.blacklist@[j].address
    }

    /// The address has a blacklist entry.
    pub open spec fn spec_blacklisted(self, address: u64) -> bool {
        exists|i: int| 0 <= i < self.blacklist@.len() && self.blacklist@[i].address == address
    }

    /// The index of the address's entry; meaningful only when one exists.
    pub open spec fn entry_index(self, address: u64) -> int {
        choose|i: int| 0 <= i < self.blacklist@.len() && self.blacklist@[i].address == address
    }

    /// Whether the caller may mutate the blacklist: the AssetProtector role
    /// or the gatekeeper's own administrator.
    pub open spec fn spec_may_mutate_blacklist(self, registry: RoleRegistry, caller: u64) -> bool {
        registry.spec_has_role(caller, Role::AssetProtector) || caller == self.admin
    }

    /// Provisions the gatekeeper with its administrator and an empty blacklist.
    pub fn initialize(admin: u64) -> (r: Gatekeeper)
        ensures
            r.wf(),
            r.admin == admin,
            forall|a: u64| !r.spec_blacklisted(a),
    {
        Gatekeeper { admin, blacklist: Vec::new() }
    }

    /// Hands the gatekeeper's administrator identity to a new one. Only the
    /// current administrator may do so.
    pub fn set_admin(&mut self, caller: u64, admin: u64) -> (r: Result<(), GatekeeperError>)
        requires
            old(self).wf(),
        ensures
            final(self).wf(),
            caller == old(self).admin ==> r is Ok && *final(self) == (Gatekeeper {
                admin,
                ..*old(self)
            }),
            caller != old(self).admin ==> r == Err::<(), GatekeeperError>(
                GatekeeperError::Unauthorized,
            ) && *final(self) == *old(self),
    {
        if caller != self.admin {
            return Err(GatekeeperError::Unauthorized);
        }
        self.admin = admin;
        Ok(())
    }

    /// Pure lookup of the blacklist.
    pub fn is_blacklisted(&self, address: u64) -> (r: bool)
        ensures
            r == self.spec_blacklisted(address),
    {
        let mut i: usize = 0;
        while i < self.blacklist.len()
            invariant
                i <= self.blacklist@.len(),
                forall|k: int| 0 <= k < i ==> self.blacklist@[k].address != address,
            decreases self.blacklist@.len() - i,
        {
            if self.blacklist[i].address == address {
                return true;
            }
            i += 1;
        }
        false
    }

    /// The outcome of an attempt to add `target` to the blacklist.
    pub open spec fn add_check(self, registry: RoleRegistry, caller: u64, target: u64) -> Option<
        GatekeeperError,
    > {
        if !self.spec_may_mutate_blacklist(registry, caller) {
            Some(GatekeeperError::Unauthorized)
        } else if self.spec_blacklisted(target) {
            Some(GatekeeperError::AlreadyExists)
        } else {
            None
        }
    }

    /// Creates the blacklist entry for `target`. The caller must hold the
    /// AssetProtector role or be the gatekeeper's administrator.
    pub fn add_to_blacklist(&mut self, registry: &RoleRegistry, caller: u64, target: u64) -> (r:
        Result<(), GatekeeperError>)
        requires
            old(self).wf(),
        ensures
            final(self).wf(),
            match r {
                Ok(()) => old(self).add_check(*registry, caller, target) is None && final(self).admin == old(self).admin && final(self).blacklist@ == old(self).blacklist@.push(
                    BlacklistEntry { address: target },
                ) && final(self).spec_blacklisted(target),
                Err(e) => old(self).add_check(*registry, caller, target) == Some(e) && *final(self)
                    == *old(self),
            },
            forall|a: u64|
                a != target ==> final(self).spec_blacklisted(a) == old(self).spec_blacklisted(a),
    {
        let ghost pre = *self;
        if !(registry.has_role(caller, Role::AssetProtector) || caller == self.admin) {
            return Err(GatekeeperError::Unauthorized);
        }
        if self.is_blacklisted(target) {
            return Err(GatekeeperError::AlreadyExists);
        }
        self.blacklist.push(BlacklistEntry { address: target });
        proof {
            assert forall|a: u64| a != target implies self.spec_blacklisted(a)
                == pre.spec_blacklisted(a) by {
                if pre.spec_blacklisted(a) {
                    let i = pre.entry_index(a);
                    assert(self.blacklist@[i].address == a);
                }
                if self.spec_blacklisted(a) {
                    let i = choose|i: int|
                        0 <= i < self.blacklist@.len() && self.blacklist@[i].address == a;
                    assert(i < pre.blacklist@.len());
                    assert(pre.blacklist@[i].address == a);
                }
            }
            assert(self.blacklist@[self.blacklist@.len() - 1].address == target);
        }
        Ok(())
    }

    /// The outcome of an attempt to remove `target` from the blacklist.
    pub open spec fn remove_check(self, registry: RoleRegistry, caller: u64, target: u64) -> Option<
        GatekeeperError,
    > {
        if !self.spec_may_mutate_blacklist(registry, caller) {
            Some(GatekeeperError::Unauthorized)
        } else if !self.spec_blacklisted(target) {
            Some(GatekeeperError::NotFound)
        } else {
            None
        }
    }

    /// Destroys the blacklist entry for `target`. Removal is unconditional
    /// once authorized.
    pub fn remove_from_blacklist(&mut self, registry: &RoleRegistry, caller: u64, target: u64) -> (
        r: Result<(), GatekeeperError>)
        requires
            old(self).wf(),
        ensures
            final(self).wf(),
            match r {
                Ok(()) => old(self).remove_check(*registry, caller, target) is None && final(self).admin == old(self).admin && !final(self).spec_blacklisted(target),
                Err(e) => old(self).remove_check(*registry, caller, target) == Some(e) && *final(self) == *old(self),
            },
            forall|a: u64|
                a != target ==> final(self).spec_blacklisted(a) == old(self).spec_blacklisted(a),
    {
        let ghost pre = *self;
        if !(registry.has_role(caller, Role::AssetProtector) || caller == self.admin) {
            return Err(GatekeeperError::Unauthorized);
        }
        let mut i: usize = 0;
        while i < self.blacklist.len()
            invariant
                *self == pre,
                pre == *old(self),
                pre.wf(),
                pre.spec_may_mutate_blacklist(*registry, caller),
                i <= self.blacklist@.len(),
                forall|k: int| 0 <= k < i ==> self.blacklist@[k].address != target,
            decreases self.blacklist@.len() - i,
        {
            if self.blacklist[i].address == target {
                proof {
                    assert(pre.spec_blacklisted(target));
                    let c = pre.entry_index(target);
                    if c != i as int {
                        let a = if c < i as int { c } else { i as int };
                        let b = if c < i as int { i as int } else { c };
                        assert(pre.blacklist@[a].address == pre.blacklist@[b].address);
                        assert(false);
                    }
                }
                self.blacklist.remove(i);
                proof {
                    let s = pre.blacklist@;
                    let t = self.blacklist@;
                    assert forall|a: u64| self.spec_blacklisted(a) implies (pre.spec_blacklisted(a)
                        && a != target) by {
                        let k = choose|k: int| 0 <= k < t.len() && t[k].address == a;
                        let k0 = if k < i as int { k } else { k + 1 };
                        assert(s[k0].address == a);
                        if a == target {
                            let x = if k0 < i as int { k0 } else { i as int };
                            let y = if k0 < i as int { i as int } else { k0 };
                            assert(s[x].address == s[y].address);
                            assert(false);
                        }
                    }
                    assert forall|a: u64| pre.spec_blacklisted(a) && a != target implies
                        self.spec_blacklisted(a) by {
                        let k = choose|k: int| 0 <= k < s.len() && s[k].address == a;
                        if k < i as int {
                            assert(t[k].address == a);
                        } else {
                            assert(k != i as int);
                            assert(t[k - 1].address == a);
                        }
                    }
                    assert forall|x: int, y: int| 0 <= x < y < t.len() implies t[x].address
                        != t[y].address by {
                        let x0 = if x < i as int { x } else { x + 1 };
                        let y0 = if y < i as int { y } else { y + 1 };
                        assert(t[x] == s[x0] && t[y] == s[y0]);
                    }
                }
                return Ok(());
            }
            i += 1;
        }
        Err(GatekeeperError::NotFound)
    }

    /// The gatekeeper's admission verdict on a transfer. `source` is the source
    /// balance as the hook observes it: the transfer amount has already been
    /// provisionally deducted by the platform, so the pre-transfer balance is
    /// reconstructed by adding `amount` back.
    pub open spec fn transfer_hook_check(
        self,
        source: HolderAccount,
        declared_owner: u64,
        dest_owner: u64,
        amount: u64,
    ) -> Option<GatekeeperError> {
        if declared_owner != source.owner {
            Some(GatekeeperError::Unauthorized)
        } else if self.spec_blacklisted(source.owner) {
            Some(GatekeeperError::AddressBlacklisted)
        } else if self.spec_blacklisted(dest_owner) {
            Some(GatekeeperError::AddressBlacklisted)
        } else if amount > Self::spec_available_for_transfer(source, amount) {
            Some(GatekeeperError::InsufficientAvailableTokens)
        } else {
            None
        }
    }

    /// The portion of the reconstructed pre-transfer balance that is not
    /// committed to an escrow delegation.
    pub open spec fn spec_available_for_transfer(source: HolderAccount, amount: u64) -> int {
        let actual: int = if source.amount + amount <= u64::MAX {
            source.amount + amount
        } else {
            source.amount as int
        };
        if source.delegated_amount <= actual {
            actual - source.delegated_amount
        } else {
            0
        }
    }

    /// The mandatory pre-commit admission check on a transfer: identity
    /// binding, blacklist on both sides, and the available-balance rule that
    /// escrow-committed funds can never be moved by an ordinary transfer.
    /// Performs no writes.
    pub fn transfer_hook(
        &self,
        source: &HolderAccount,
        declared_owner: u64,
        dest_owner: u64,
        amount: u64,
    ) -> (r: Result<(), GatekeeperError>)
        ensures
            match r {
                Ok(()) => self.transfer_hook_check(*source, declared_owner, dest_owner, amount)
                    is None,
                Err(e) => self.transfer_hook_check(*source, declared_owner, dest_owner, amount)
                    == Some(e),
            },
    {
        if declared_owner != source.owner {
            return Err(GatekeeperError::Unauthorized);
        }
        if self.is_blacklisted(source.owner) {
            return Err(GatekeeperError::AddressBlacklisted);
        }
        if self.is_blacklisted(dest_owner) {
            return Err(GatekeeperError::AddressBlacklisted);
        }
        let actual_balance = match source.amount.checked_add(amount) {
            Some(v) => v,
            None => source.amount,
        };
        let available_for_transfer = if source.delegated_amount <= actual_balance {
            actual_balance - source.delegated_amount
        } else {
            0
        };
        if amount > available_for_transfer {
            return Err(GatekeeperError::InsufficientAvailableTokens);
        }
        Ok(())
    }
}

} // verus!
