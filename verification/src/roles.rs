//! Role registry: a capability-shaped map from (subject, role) to a grant
//! record. Existence of the record is the authorization; revocation destroys
//! the record, so no cached grant can outlive it.

use vstd::prelude::*;

verus! {

/// The named privileges of the system.
#[derive(Clone, Copy, PartialEq, Eq, Structural, Debug)]
pub enum Role {
    SupplyController,
    AssetProtector,
    FeeController,
    DefaultAdmin,
}

/// A grant record binding a subject to a role. Its presence in the registry
/// is the capability.
#[derive(Clone, Copy, PartialEq, Eq, Structural, Debug)]
pub struct UserRole {
    pub user: u64,
    pub role: Role,
}

/// The registry of role grants: at most one grant per (subject, role) pair.
#[derive(Clone, PartialEq, Eq, Debug)]
pub struct RoleRegistry {
    pub grants: Vec<UserRole>,
}

impl RoleRegistry {
    /// At most one grant per (subject, role) pair.
    pub open spec fn wf(self) -> bool {
        forall|i: int, j: int|
            0 <= i < j < self.grants@.len() ==> !(self.grants@[i].user == self.grants@[j].user
                && self.grants@[i].role == self.grants@[j].role)
    }

    /// The authorization predicate: a grant for (user, role) is present.
    pub open spec fn spec_has_role(self, user: u64, role: Role) -> bool {
        exists|i: int|
            0 <= i < self.grants@.len() && self.grants@[i].user == user
                && self.grants@[i].role == role
    }

    /// The grant records after a grant of (user, role) is created.
    pub open spec fn spec_grant(self, user: u64, role: Role) -> Seq<UserRole> {
        self.grants@.push(UserRole { user, role })
    }

    /// The grant records after the grant of (user, role) is destroyed.
    pub open spec fn spec_revoke(self, user: u64, role: Role) -> Seq<UserRole> {
        self.grants@.remove(self.grant_index(user, role))
    }

    /// The index of the grant for (user, role); meaningful only when one is
    /// present (under `wf` it is then unique).
    pub open spec fn grant_index(self, user: u64, role: Role) -> int {
        choose|i: int|
            0 <= i < self.grants@.len() && self.grants@[i].user == user
                && self.grants@[i].role == role
    }

    /// An empty registry: nobody holds any role.
    pub fn new() -> (r: RoleRegistry)
        ensures
            r.wf(),
            forall|u: u64, ro: Role| !r.spec_has_role(u, ro),
    {
        RoleRegistry { grants: Vec::new() }
    }

    /// Pure lookup, never fails; the authorization predicate used by every
    /// privileged operation.
    pub fn has_role(&self, user: u64, role: Role) -> (r: bool)
        ensures
            r == self.spec_has_role(user, role),
    {
        let mut i: usize = 0;
        while i < self.grants.len()
            invariant
                i <= self.grants@.len(),
                forall|k: int|
                    0 <= k < i ==> !(self.grants@[k].user == user && self.grants@[k].role
                        == role),
            decreases self.grants@.len() - i,
        {
            if self.grants[i].user == user && self.grants[i].role == role {
                return true;
            }
            i += 1;
        }
        false
    }

    /// Creates the grant for (user, role). Returns false (and changes
    /// nothing) when one is already present.
    pub fn grant(&mut self, user: u64, role: Role) -> (r: bool)
        requires
            old(self).wf(),
        ensures
            final(self).wf(),
            r == !old(self).spec_has_role(user, role),
            r ==> final(self).grants@ == old(self).spec_grant(user, role),
            !r ==> *final(self) == *old(self),
            r ==> final(self).spec_has_role(user, role),
            forall|u: u64, ro: Role|
                !(u == user && ro == role) ==> final(self).spec_has_role(u, ro) == old(self).spec_has_role(u, ro),
    {
        if self.has_role(user, role) {
            return false;
        }
        let ghost pre = *self;
        self.grants.push(UserRole { user, role });
        proof {
            assert forall|u: u64, ro: Role| !(u == user && ro == role) implies self.spec_has_role(
                u,
                ro,
            ) == pre.spec_has_role(u, ro) by {
                if pre.spec_has_role(u, ro) {
                    let i = choose|i: int|
                        0 <= i < pre.grants@.len() && pre.grants@[i].user == u
                            && pre.grants@[i].role == ro;
                    assert(self.grants@[i].user == u && self.grants@[i].role == ro);
                }
                if self.spec_has_role(u, ro) {
                    let i = choose|i: int|
                        0 <= i < self.grants@.len() && self.grants@[i].user == u
                            && self.grants@[i].role == ro;
                    assert(i < pre.grants@.len());
                    assert(pre.grants@[i].user == u && pre.grants@[i].role == ro);
                }
            }
            assert(self.grants@[self.grants@.len() - 1].user == user);
        }
        true
    }

    /// Destroys the grant for (user, role). Returns false (and changes
    /// nothing) when none is present.
    pub fn revoke(&mut self, user: u64, role: Role) -> (r: bool)
        requires
            old(self).wf(),
        ensures
            final(self).wf(),
            r == old(self).spec_has_role(user, role),
            r ==> final(self).grants@ == old(self).spec_revoke(user, role),
            !r ==> *final(self) == *old(self),
            !final(self).spec_has_role(user, role),
            forall|u: u64, ro: Role|
                !(u == user && ro == role) ==> final(self).spec_has_role(u, ro) == old(self).spec_has_role(u, ro),
    {
        let ghost pre = *self;
        let mut i: usize = 0;
        while i < self.grants.len()
            invariant
                *self == pre,
                pre == *old(self),
                pre.wf(),
                i <= self.grants@.len(),
                forall|k: int|
                    0 <= k < i ==> !(self.grants@[k].user == user && self.grants@[k].role
                        == role),
            decreases self.grants@.len() - i,
        {
            if self.grants[i].user == user && self.grants[i].role == role {
                proof {
                    assert(pre.spec_has_role(user, role));
                    let c = pre.grant_index(user, role);
                    assert(0 <= c < pre.grants@.len() && pre.grants@[c].user == user
                        && pre.grants@[c].role == role);
                    if c != i as int {
                        let a = if c < i as int { c } else { i as int };
                        let b = if c < i as int { i as int } else { c };
                        assert(pre.grants@[a].user == pre.grants@[b].user && pre.grants@[a].role
                            == pre.grants@[b].role);
                        assert(false);
                    }
                }
                self.grants.remove(i);
                proof {
                    let s = pre.grants@;
                    let t = self.grants@;
                    assert(t == s.remove(i as int));
                    assert forall|u: u64, ro: Role| self.spec_has_role(u, ro) implies (
                    pre.spec_has_role(u, ro) && !(u == user && ro == role)) by {
                        let k = choose|k: int|
                            0 <= k < t.len() && t[k].user == u && t[k].role == ro;
                        let k0 = if k < i as int { k } else { k + 1 };
                        assert(s[k0].user == u && s[k0].role == ro);
                        if u == user && ro == role {
                            let a = if k0 < i as int { k0 } else { i as int };
                            let b = if k0 < i as int { i as int } else { k0 };
                            assert(s[a].user == s[b].user && s[a].role == s[b].role);
                            assert(false);
                        }
                    }
                    assert forall|u: u64, ro: Role|
                        pre.spec_has_role(u, ro) && !(u == user && ro == role)
                            implies self.spec_has_role(u, ro) by {
                        let k = choose|k: int|
                            0 <= k < s.len() && s[k].user == u && s[k].role == ro;
                        if k < i as int {
                            assert(t[k].user == u && t[k].role == ro);
                        } else {
                            assert(k != i as int);
                            assert(t[k - 1].user == u && t[k - 1].role == ro);
                        }
                    }
                    assert(!self.spec_has_role(user, role));
                    assert forall|a: int, b: int| 0 <= a < b < t.len() implies !(t[a].user
                        == t[b].user && t[a].role == t[b].role) by {
                        let a0 = if a < i as int { a } else { a + 1 };
                        let b0 = if b < i as int { b } else { b + 1 };
                        assert(t[a] == s[a0] && t[b] == s[b0]);
                    }
                }
                return true;
            }
            i += 1;
        }
        false
    }
}

} // verus!
