//! The custody ledger: the per-asset configuration singleton, the role
//! registry, the redemption requests, the asset ledger and the transfer
//! gatekeeper, with the privileged operation surface. Every privileged
//! transition re-derives the caller's role from the registry.

use vstd::prelude::*;
use crate::errors::{SilverTokenError, TransferError};
use crate::events::{
    AdminSet, AuthorityTransferred, PauseToggled, RoleAssigned, RoleRemoved, TokenInitialized,
    TokensMinted, TokensWiped,
};
use crate::gate::Gatekeeper;
use crate::ledger::{HolderAccount, Ledger, MintAuthority};
use crate::redemption::{
    request_state, requests_wf, RedemptionRequest,
};
use crate::roles::{Role, RoleRegistry};

verus! {

broadcast use vstd::string::to_string_from_display_ensures_for_str;

/// The per-asset configuration singleton. The redemption counter is the
/// single source of truth for request ids and strictly increases.
#[derive(Clone, Copy, PartialEq, Eq, Structural, Debug)]
pub struct Config {
    pub admin: u64,
    pub mint: u64,
    pub gatekeeper_program: u64,
    pub redemption_request_counter: u64,
    pub is_paused: bool,
}

/// The whole custody system for one asset: configuration, role registry,
/// redemption requests, asset ledger and transfer gatekeeper.
#[derive(Clone, PartialEq, Eq, Debug)]
pub struct SilverToken {
    pub config: Config,
    pub registry: RoleRegistry,
    pub requests: Vec<RedemptionRequest>,
    pub ledger: Ledger,
    pub gate: Gatekeeper,
}

impl SilverToken {
    pub open spec fn wf(self) -> bool {
        &&& self.registry.wf()
        &&& self.ledger.wf()
        &&& self.gate.wf()
        &&& requests_wf(self.requests@, self.config.redemption_request_counter)
    }

    /// The request with the given id, or None: the canonical observation of
    /// the workflow state for one request.
    pub open spec fn spec_request(self, request_id: u64) -> Option<RedemptionRequest> {
        request_state(self.requests@, request_id)
    }

    /// One-time genesis of the asset: creates the configuration, an empty
    /// role registry and ledger, and provisions the transfer gatekeeper for
    /// this asset under the same administrator.
    pub fn initialize(admin: u64, mint: u64, gatekeeper_program: u64, name: String, symbol: String, uri: String) -> (r: (
        SilverToken,
        TokenInitialized,
    ))
        ensures
            r.0.wf(),
            r.0.config == (Config {
                admin,
                mint,
                gatekeeper_program,
                redemption_request_counter: 0,
                is_paused: false,
            }),
            forall|u: u64, ro: Role| !r.0.registry.spec_has_role(u, ro),
            r.0.requests@.len() == 0,
            forall|o: u64| r.0.ledger.account_state(o) is None,
            r.0.ledger.mint_authority == MintAuthority::ProgramHeld,
            r.0.gate.admin == admin,
            forall|a: u64| !r.0.gate.spec_blacklisted(a),
            r.1.mint == mint && r.1.admin == admin && r.1.gatekeeper_program == gatekeeper_program,
            r.1.name@ == name@ && r.1.symbol@ == symbol@ && r.1.uri@ == uri@,
    {
        let token = SilverToken {
            config: Config {
                admin,
                mint,
                gatekeeper_program,
                redemption_request_counter: 0,
                is_paused: false,
            },
            registry: RoleRegistry::new(),
            requests: Vec::new(),
            ledger: Ledger::new(),
            gate: Gatekeeper::initialize(admin),
        };
        let event = TokenInitialized { mint, admin, gatekeeper_program, name, symbol, uri };
        (token, event)
    }

    /// Flips the pause flag. Only the administrator may do so. While paused,
    /// minting, new redemption requests and fulfilment are rejected;
    /// cancellation remains allowed.
    pub fn toggle_pause(&mut self, caller: u64) -> (r: Result<PauseToggled, SilverTokenError>)
        requires
            old(self).wf(),
        ensures
            final(self).wf(),
            match r {
                Ok(ev) => caller == old(self).config.admin && *final(self) == (SilverToken {
                    config: Config {
                        is_paused: !old(self).config.is_paused,
                        ..old(self).config
                    },
                    ..*old(self)
                }) && ev == (PauseToggled {
                    is_paused: !old(self).config.is_paused,
                    authority: caller,
                }),
                Err(e) => caller != old(self).config.admin && e == SilverTokenError::Unauthorized
                    && *final(self) == *old(self),
            },
    {
        if caller != self.config.admin {
            return Err(SilverTokenError::Unauthorized);
        }
        self.config.is_paused = !self.config.is_paused;
        Ok(PauseToggled { is_paused: self.config.is_paused, authority: caller })
    }

    /// The outcome of an attempt by `caller` to grant (user, role): the
    /// caller must be the administrator or hold DefaultAdmin, and the grant
    /// must not already exist.
    pub open spec fn add_role_check(self, caller: u64, user: u64, role: Role) -> Option<
        SilverTokenError,
    > {
        if !(caller == self.config.admin || self.registry.spec_has_role(
            caller,
            Role::DefaultAdmin,
        )) {
            Some(SilverTokenError::Unauthorized)
        } else if self.registry.spec_has_role(user, role) {
            Some(SilverTokenError::AlreadyExists)
        } else {
            None
        }
    }

    /// Creates exactly one role grant for (user, role).
    pub fn add_role(&mut self, caller: u64, user: u64, role: Role) -> (r: Result<
        RoleAssigned,
        SilverTokenError,
    >)
        requires
            old(self).wf(),
        ensures
            final(self).wf(),
            match r {
                Ok(ev) => old(self).add_role_check(caller, user, role) is None && final(self).registry.grants@ == old(self).registry.spec_grant(user, role) && final(self).registry.spec_has_role(user, role) && final(self).config == old(self).config
                    && final(self).requests == old(self).requests && final(self).ledger == old(self).ledger && final(self).gate == old(self).gate && ev.user == user && ev.role@
                    == role.spec_name() && ev.authority == caller,
                Err(e) => old(self).add_role_check(caller, user, role) == Some(e) && *final(self)
                    == *old(self),
            },
            forall|u: u64, ro: Role|
                !(u == user && ro == role) ==> final(self).registry.spec_has_role(u, ro) == old(self).registry.spec_has_role(u, ro),
    {
        let authorized = caller == self.config.admin || self.registry.has_role(
            caller,
            Role::DefaultAdmin,
        );
        if !authorized {
            return Err(SilverTokenError::Unauthorized);
        }
        if !self.registry.grant(user, role) {
            return Err(SilverTokenError::AlreadyExists);
        }
        Ok(RoleAssigned { user, role: role.name(), authority: caller })
    }

    /// The outcome of an attempt by `caller` to revoke (user, role): only a
    /// DefaultAdmin holder may revoke, and the grant must exist.
    pub open spec fn remove_role_check(self, caller: u64, user: u64, role: Role) -> Option<
        SilverTokenError,
    > {
        if !self.registry.spec_has_role(caller, Role::DefaultAdmin) {
            Some(SilverTokenError::Unauthorized)
        } else if !self.registry.spec_has_role(user, role) {
            Some(SilverTokenError::NotFound)
        } else {
            None
        }
    }

    /// Destroys the role grant for (user, role); revocation is destructive
    /// and immediate.
    pub fn remove_role(&mut self, caller: u64, user: u64, role: Role) -> (r: Result<
        RoleRemoved,
        SilverTokenError,
    >)
        requires
            old(self).wf(),
        ensures
            final(self).wf(),
            match r {
                Ok(ev) => old(self).remove_role_check(caller, user, role) is None && final(self).registry.grants@ == old(self).registry.spec_revoke(user, role) && !final(self).registry.spec_has_role(user, role) && final(self).config == old(self).config
                    && final(self).requests == old(self).requests && final(self).ledger == old(self).ledger && final(self).gate == old(self).gate && ev.user == user && ev.role@
                    == role.spec_name() && ev.authority == caller,
                Err(e) => old(self).remove_role_check(caller, user, role) == Some(e) && *final(self)
                    == *old(self),
            },
            forall|u: u64, ro: Role|
                !(u == user && ro == role) ==> final(self).registry.spec_has_role(u, ro) == old(self).registry.spec_has_role(u, ro),
    {
        if !self.registry.has_role(caller, Role::DefaultAdmin) {
            return Err(SilverTokenError::Unauthorized);
        }
        if !self.registry.revoke(user, role) {
            return Err(SilverTokenError::NotFound);
        }
        Ok(RoleRemoved { user, role: role.name(), authority: caller })
    }

    /// Single-step transfer of the administrator identity. Only the current
    /// administrator may do so.
    pub fn set_admin(&mut self, caller: u64, admin: u64) -> (r: Result<AdminSet, SilverTokenError>)
        requires
            old(self).wf(),
        ensures
            final(self).wf(),
            match r {
                Ok(ev) => caller == old(self).config.admin && *final(self) == (SilverToken {
                    config: Config { admin, ..old(self).config },
                    ..*old(self)
                }) && ev == (AdminSet { admin }),
                Err(e) => caller != old(self).config.admin && e == SilverTokenError::Unauthorized
                    && *final(self) == *old(self),
            },
    {
        if caller != self.config.admin {
            return Err(SilverTokenError::Unauthorized);
        }
        self.config.admin = admin;
        Ok(AdminSet { admin })
    }

    /// The outcome of a mint attempt: a positive amount, an unpaused system,
    /// the SupplyController role, and the mint capability still held by the
    /// system itself.
    pub open spec fn mint_check(self, caller: u64, amount: u64) -> Option<SilverTokenError> {
        if amount == 0 {
            Some(SilverTokenError::InvalidAmount)
        } else if self.config.is_paused {
            Some(SilverTokenError::ContractPaused)
        } else if !self.registry.spec_has_role(caller, Role::SupplyController) {
            Some(SilverTokenError::Unauthorized)
        } else if self.ledger.mint_authority != MintAuthority::ProgramHeld {
            Some(SilverTokenError::Unauthorized)
        } else {
            None
        }
    }

    /// Mints `amount` to the recipient's balance. The caller must hold
    /// SupplyController; minting is rejected while paused.
    pub fn mint_tokens(&mut self, caller: u64, amount: u64, recipient: u64) -> (r: Result<
        TokensMinted,
        SilverTokenError,
    >)
        requires
            old(self).wf(),
            old(self).ledger.spec_balance(recipient) + amount <= u64::MAX,
        ensures
            final(self).wf(),
            match r {
                Ok(ev) => old(self).mint_check(caller, amount) is None && final(self).ledger.account_state(recipient) == Some(
                    HolderAccount {
                        owner: recipient,
                        amount: (old(self).ledger.spec_balance(recipient) + amount) as u64,
                        delegate: old(self).ledger.spec_delegate(recipient),
                        delegated_amount: old(self).ledger.spec_delegated(recipient),
                    },
                ) && (forall|o: u64|
                    o != recipient ==> final(self).ledger.account_state(o) == old(self).ledger.account_state(o)) && final(self).ledger.mint_authority == old(self).ledger.mint_authority && final(self).config == old(self).config && final(self).registry == old(self).registry && final(self).requests == old(self).requests
                    && final(self).gate == old(self).gate && ev == (TokensMinted {
                    mint: old(self).config.mint,
                    to: recipient,
                    amount,
                    authority: MintAuthority::ProgramHeld,
                    recipient,
                }),
                Err(e) => old(self).mint_check(caller, amount) == Some(e) && *final(self) == *old(self),
            },
    {
        if amount == 0 {
            return Err(SilverTokenError::InvalidAmount);
        }
        if self.config.is_paused {
            return Err(SilverTokenError::ContractPaused);
        }
        if !self.registry.has_role(caller, Role::SupplyController) {
            return Err(SilverTokenError::Unauthorized);
        }
        match self.ledger.mint_authority {
            MintAuthority::ProgramHeld => {},
            MintAuthority::External(_) => {
                return Err(SilverTokenError::Unauthorized);
            },
        }
        self.ledger.credit(recipient, amount);
        Ok(
            TokensMinted {
                mint: self.config.mint,
                to: recipient,
                amount,
                authority: MintAuthority::ProgramHeld,
                recipient,
            },
        )
    }

    /// The outcome of a wipe attempt: a positive amount, the AssetProtector
    /// role, a blacklisted target, and a balance that covers the amount.
    pub open spec fn wipe_check(self, caller: u64, target_user: u64, amount: u64) -> Option<
        SilverTokenError,
    > {
        if amount == 0 {
            Some(SilverTokenError::InvalidAmount)
        } else if !self.registry.spec_has_role(caller, Role::AssetProtector) {
            Some(SilverTokenError::Unauthorized)
        } else if !self.gate.spec_blacklisted(target_user) {
            Some(SilverTokenError::AddressNotBlacklisted)
        } else if self.ledger.spec_balance(target_user) < amount {
            Some(SilverTokenError::InsufficientBalance)
        } else {
            None
        }
    }

    /// Destroys `amount` of a blacklisted address's balance. This is not a
    /// transfer between two holders, so the gatekeeper is not consulted; the
    /// delegation state of the account is untouched.
    pub fn wipe_blacklisted_address(&mut self, caller: u64, target_user: u64, amount: u64) -> (r:
        Result<TokensWiped, SilverTokenError>)
        requires
            old(self).wf(),
        ensures
            final(self).wf(),
            match r {
                Ok(ev) => old(self).wipe_check(caller, target_user, amount) is None && final(self).ledger.account_state(target_user) == Some(
                    HolderAccount {
                        owner: target_user,
                        amount: (old(self).ledger.spec_balance(target_user) - amount) as u64,
                        delegate: old(self).ledger.spec_delegate(target_user),
                        delegated_amount: old(self).ledger.spec_delegated(target_user),
                    },
                ) && (forall|o: u64|
                    o != target_user ==> final(self).ledger.account_state(o) == old(self).ledger.account_state(o)) && final(self).ledger.mint_authority == old(self).ledger.mint_authority && final(self).config == old(self).config && final(self).registry == old(self).registry && final(self).requests == old(self).requests
                    && final(self).gate == old(self).gate && ev == (TokensWiped {
                    target_user,
                    amount,
                    authority: caller,
                }),
                Err(e) => old(self).wipe_check(caller, target_user, amount) == Some(e) && *final(self) == *old(self),
            },
    {
        if amount == 0 {
            return Err(SilverTokenError::InvalidAmount);
        }
        if !self.registry.has_role(caller, Role::AssetProtector) {
            return Err(SilverTokenError::Unauthorized);
        }
        if !self.gate.is_blacklisted(target_user) {
            return Err(SilverTokenError::AddressNotBlacklisted);
        }
        let balance = match self.ledger.find_account(target_user) {
            Some(i) => self.ledger.accounts[i].amount,
            None => 0,
        };
        if balance < amount {
            return Err(SilverTokenError::InsufficientBalance);
        }
        self.ledger.withdraw(target_user, amount);
        Ok(TokensWiped { target_user, amount, authority: caller })
    }

    /// The outcome of a mint-authority rotation attempt: only the
    /// administrator, and only while the system itself still holds the
    /// capability.
    pub open spec fn transfer_mint_authority_check(self, caller: u64) -> Option<SilverTokenError> {
        if caller != self.config.admin {
            Some(SilverTokenError::Unauthorized)
        } else if self.ledger.mint_authority != MintAuthority::ProgramHeld {
            Some(SilverTokenError::Unauthorized)
        } else {
            None
        }
    }

    /// Moves the minting capability from the system's own derived authority
    /// to an external identity — irreversible without that identity's
    /// cooperation; subsequent mints through this surface are rejected.
    pub fn transfer_mint_authority(&mut self, caller: u64, new_authority: u64) -> (r: Result<
        AuthorityTransferred,
        SilverTokenError,
    >)
        requires
            old(self).wf(),
        ensures
            final(self).wf(),
            match r {
                Ok(ev) => old(self).transfer_mint_authority_check(caller) is None && *final(self)
                    == (SilverToken {
                    ledger: Ledger {
                        mint_authority: MintAuthority::External(new_authority),
                        ..old(self).ledger
                    },
                    ..*old(self)
                }) && ev.authority_type@ == "MintTokens"@ && ev.old_authority
                    == MintAuthority::ProgramHeld && ev.new_authority == new_authority
                    && ev.transferred_by == caller,
                Err(e) => old(self).transfer_mint_authority_check(caller) == Some(e) && *final(self)
                    == *old(self),
            },
    {
        if caller != self.config.admin {
            return Err(SilverTokenError::Unauthorized);
        }
        match self.ledger.mint_authority {
            MintAuthority::ProgramHeld => {},
            MintAuthority::External(_) => {
                return Err(SilverTokenError::Unauthorized);
            },
        }
        self.ledger.mint_authority = MintAuthority::External(new_authority);
        Ok(
            AuthorityTransferred {
                authority_type: "MintTokens".to_string(),
                old_authority: MintAuthority::ProgramHeld,
                new_authority,
                transferred_by: caller,
            },
        )
    }

    /// The owner's balance as recorded on the ledger.
    pub fn balance_of(&self, owner: u64) -> (r: u64)
        requires
            self.wf(),
        ensures
            r == self.ledger.spec_balance(owner),
    {
        match self.ledger.find_account(owner) {
            Some(i) => self.ledger.accounts[i].amount,
            None => 0,
        }
    }

    /// The owner's escrow-delegated amount.
    pub fn delegated_of(&self, owner: u64) -> (r: u64)
        requires
            self.wf(),
        ensures
            r == self.ledger.spec_delegated(owner),
    {
        match self.ledger.find_account(owner) {
            Some(i) => self.ledger.accounts[i].delegated_amount,
            None => 0,
        }
    }

    /// The owner's free (non-escrowed) balance, saturating at zero.
    pub fn free_balance_of(&self, owner: u64) -> (r: u64)
        requires
            self.wf(),
        ensures
            r == self.ledger.spec_free(owner),
    {
        match self.ledger.find_account(owner) {
            Some(i) => {
                let a = self.ledger.accounts[i];
                if a.delegated_amount <= a.amount {
                    a.amount - a.delegated_amount
                } else {
                    0
                }
            },
            None => 0,
        }
    }

    /// The request with this id as the workflow records it, or None.
    pub fn request_info(&self, request_id: u64) -> (r: Option<RedemptionRequest>)
        requires
            self.wf(),
        ensures
            r == self.spec_request(request_id),
    {
        match self.find_request(request_id) {
            Some(i) => Some(self.requests[i]),
            None => None,
        }
    }

    /// The verdict on a holder-to-holder transfer: the platform fails a
    /// transfer the source balance cannot cover, and otherwise lets the gatekeeper
    /// see the source balance with the amount already deducted.
    pub open spec fn transfer_check(self, source_owner: u64, dest_owner: u64, amount: u64) -> Option<
        TransferError,
    > {
        if !self.ledger.spec_has_account(source_owner) || self.ledger.spec_balance(source_owner)
            < amount {
            Some(TransferError::InsufficientFunds)
        } else {
            let source = self.ledger.account_state(source_owner).unwrap();
            let deducted = HolderAccount {
                amount: (source.amount - amount) as u64,
                ..source
            };
            match self.gate.transfer_hook_check(deducted, source_owner, dest_owner, amount) {
                Some(g) => Some(TransferError::Rejected(g)),
                None => None,
            }
        }
    }

    /// An ordinary transfer between two holder balances. The gatekeeper is invoked
    /// by this primitive itself before anything commits — holders cannot
    /// bypass it — and a rejection aborts the whole transfer atomically.
    pub fn transfer(&mut self, source_owner: u64, dest_owner: u64, amount: u64) -> (r: Result<
        (),
        TransferError,
    >)
        requires
            old(self).wf(),
            source_owner != dest_owner ==> old(self).ledger.spec_balance(dest_owner) + amount
                <= u64::MAX,
        ensures
            final(self).wf(),
            match r {
                Ok(()) => old(self).transfer_check(source_owner, dest_owner, amount) is None && (
                if source_owner == dest_owner {
                    *final(self) == *old(self)
                } else {
                    final(self).ledger.account_state(source_owner) == Some(
                        HolderAccount {
                            owner: source_owner,
                            amount: (old(self).ledger.spec_balance(source_owner) - amount) as u64,
                            delegate: old(self).ledger.spec_delegate(source_owner),
                            delegated_amount: old(self).ledger.spec_delegated(source_owner),
                        },
                    ) && final(self).ledger.account_state(dest_owner) == Some(
                        HolderAccount {
                            owner: dest_owner,
                            amount: (old(self).ledger.spec_balance(dest_owner) + amount) as u64,
                            delegate: old(self).ledger.spec_delegate(dest_owner),
                            delegated_amount: old(self).ledger.spec_delegated(dest_owner),
                        },
                    ) && (forall|o: u64|
                        o != source_owner && o != dest_owner ==> final(self).ledger.account_state(o)
                            == old(self).ledger.account_state(o)) && final(self).ledger.mint_authority == old(self).ledger.mint_authority && final(self).config
                        == old(self).config && final(self).registry == old(self).registry && final(self).requests == old(self).requests && final(self).gate == old(self).gate
                }),
                Err(e) => old(self).transfer_check(source_owner, dest_owner, amount) == Some(e)
                    && *final(self) == *old(self),
            },
    {
        let i = match self.ledger.find_account(source_owner) {
            Some(i) => i,
            None => {
                return Err(TransferError::InsufficientFunds);
            },
        };
        let source = self.ledger.accounts[i];
        if source.amount < amount {
            return Err(TransferError::InsufficientFunds);
        }
        let deducted = HolderAccount { amount: source.amount - amount, ..source };
        match self.gate.transfer_hook(&deducted, source_owner, dest_owner, amount) {
            Ok(()) => {},
            Err(g) => {
                return Err(TransferError::Rejected(g));
            },
        }
        if source_owner == dest_owner {
            return Ok(());
        }
        self.ledger.withdraw(source_owner, amount);
        self.ledger.credit(dest_owner, amount);
        Ok(())
    }
}

} // verus!
