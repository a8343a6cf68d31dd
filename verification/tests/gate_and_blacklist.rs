use silver_token::custody::SilverToken;
use silver_token::errors::{GatekeeperError, SilverTokenError, TransferError};
use silver_token::events::TokensWiped;
use silver_token::gate::Gatekeeper;
use silver_token::ledger::HolderAccount;
use silver_token::redemption::RedemptionStatus;
use silver_token::roles::Role;

const ADMIN: u64 = 1;
const SUPPLY: u64 = 2;
const PROTECTOR: u64 = 3;
const ALICE: u64 = 10;
const BOB: u64 = 11;
const STRANGER: u64 = 99;

fn setup() -> SilverToken {
    let (mut sys, _) = SilverToken::initialize(
        ADMIN,
        100,
        200,
        String::from("Silver"),
        String::from("SLV"),
        String::from("https://example.invalid/silver.json"),
    );
    sys.add_role(ADMIN, SUPPLY, Role::SupplyController).unwrap();
    sys.add_role(ADMIN, PROTECTOR, Role::AssetProtector).unwrap();
    sys
}

#[test]
fn transfer_moves_free_funds() {
    let mut sys = setup();
    sys.mint_tokens(SUPPLY, 1000, ALICE).unwrap();
    sys.request_redemption(ALICE, 400, 1).unwrap();

    // a transfer within the free balance is admitted
    sys.transfer(ALICE, BOB, 600).unwrap();
    assert_eq!(sys.balance_of(ALICE), 400);
    assert_eq!(sys.balance_of(BOB), 600);
    // the escrow delegation survives the transfer untouched
    assert_eq!(sys.delegated_of(ALICE), 400);
}

#[test]
fn transfer_cannot_touch_escrowed_funds() {
    let mut sys = setup();
    sys.mint_tokens(SUPPLY, 1000, ALICE).unwrap();
    sys.request_redemption(ALICE, 400, 1).unwrap();

    assert_eq!(
        sys.transfer(ALICE, BOB, 601).unwrap_err(),
        TransferError::Rejected(GatekeeperError::InsufficientAvailableTokens)
    );
    assert_eq!(sys.balance_of(ALICE), 1000);
    assert_eq!(sys.balance_of(BOB), 0);
}

#[test]
fn transfer_from_blacklisted_source_is_rejected_regardless_of_amount() {
    let mut sys = setup();
    sys.mint_tokens(SUPPLY, 1000, ALICE).unwrap();
    sys.gate.add_to_blacklist(&sys.registry, PROTECTOR, ALICE).unwrap();

    assert_eq!(
        sys.transfer(ALICE, BOB, 1).unwrap_err(),
        TransferError::Rejected(GatekeeperError::AddressBlacklisted)
    );
    assert_eq!(
        sys.transfer(ALICE, BOB, 1000).unwrap_err(),
        TransferError::Rejected(GatekeeperError::AddressBlacklisted)
    );
    assert_eq!(sys.balance_of(ALICE), 1000);
}

#[test]
fn transfer_to_blacklisted_destination_is_rejected() {
    let mut sys = setup();
    sys.mint_tokens(SUPPLY, 1000, ALICE).unwrap();
    sys.gate.add_to_blacklist(&sys.registry, PROTECTOR, BOB).unwrap();

    assert_eq!(
        sys.transfer(ALICE, BOB, 10).unwrap_err(),
        TransferError::Rejected(GatekeeperError::AddressBlacklisted)
    );
    assert_eq!(sys.balance_of(ALICE), 1000);
    assert_eq!(sys.balance_of(BOB), 0);
}

#[test]
fn transfer_needs_funds() {
    let mut sys = setup();
    sys.mint_tokens(SUPPLY, 100, ALICE).unwrap();
    assert_eq!(
        sys.transfer(ALICE, BOB, 101).unwrap_err(),
        TransferError::InsufficientFunds
    );
    assert_eq!(
        sys.transfer(STRANGER, BOB, 1).unwrap_err(),
        TransferError::InsufficientFunds
    );
}

#[test]
fn transfer_hook_checks_identity_binding() {
    let gate = Gatekeeper::initialize(ADMIN);
    let source = HolderAccount { owner: ALICE, amount: 600, delegate: None, delegated_amount: 0 };
    // the declared owner must match the owner recorded on the source balance
    assert_eq!(
        gate.transfer_hook(&source, BOB, BOB, 100).unwrap_err(),
        GatekeeperError::Unauthorized
    );
    gate.transfer_hook(&source, ALICE, BOB, 100).unwrap();
}

#[test]
fn transfer_hook_reconstructs_the_pre_transfer_balance() {
    // the hook sees the source balance after the provisional deduction and
    // adds the amount back: balance 1000, escrow 400, post-deduction 600
    let gate = Gatekeeper::initialize(ADMIN);
    let source = HolderAccount { owner: ALICE, amount: 600, delegate: None, delegated_amount: 400 };
    gate.transfer_hook(&source, ALICE, BOB, 400).unwrap();

    // balance 1000, escrow 400, attempted 700: 700 > 1000 - 400
    let source = HolderAccount { owner: ALICE, amount: 300, delegate: None, delegated_amount: 400 };
    assert_eq!(
        gate.transfer_hook(&source, ALICE, BOB, 700).unwrap_err(),
        GatekeeperError::InsufficientAvailableTokens
    );
}

#[test]
fn blacklist_mutation_rules() {
    let mut sys = setup();

    // a stranger may not mutate the blacklist
    assert_eq!(
        sys.gate.add_to_blacklist(&sys.registry, STRANGER, BOB).unwrap_err(),
        GatekeeperError::Unauthorized
    );
    // the AssetProtector role may
    sys.gate.add_to_blacklist(&sys.registry, PROTECTOR, BOB).unwrap();
    assert!(sys.gate.is_blacklisted(BOB));
    // one entry per address
    assert_eq!(
        sys.gate.add_to_blacklist(&sys.registry, PROTECTOR, BOB).unwrap_err(),
        GatekeeperError::AlreadyExists
    );
    // the gatekeeper's administrator may mutate it without the role
    sys.gate.add_to_blacklist(&sys.registry, ADMIN, ALICE).unwrap();
    sys.gate.remove_from_blacklist(&sys.registry, ADMIN, ALICE).unwrap();
    assert!(!sys.gate.is_blacklisted(ALICE));
    // removing an absent entry finds nothing
    assert_eq!(
        sys.gate.remove_from_blacklist(&sys.registry, PROTECTOR, ALICE).unwrap_err(),
        GatekeeperError::NotFound
    );
    // removal restores transfer rights
    sys.gate.remove_from_blacklist(&sys.registry, PROTECTOR, BOB).unwrap();
    assert!(!sys.gate.is_blacklisted(BOB));
}

#[test]
fn gate_admin_rotation() {
    let mut sys = setup();
    assert_eq!(
        sys.gate.set_admin(STRANGER, STRANGER).unwrap_err(),
        GatekeeperError::Unauthorized
    );
    sys.gate.set_admin(ADMIN, BOB).unwrap();
    assert_eq!(sys.gate.admin, BOB);
    // the custody admin and the gatekeeper admin may now diverge
    assert_eq!(sys.config.admin, ADMIN);
}

#[test]
fn wipe_requires_blacklisted_target_with_funds() {
    // AssetProtector blacklists Bob, then attempts wipe(Bob, amount) with
    // Bob's balance below the amount: InsufficientBalance, no burn
    let mut sys = setup();
    sys.mint_tokens(SUPPLY, 100, BOB).unwrap();
    sys.gate.add_to_blacklist(&sys.registry, PROTECTOR, BOB).unwrap();

    assert_eq!(
        sys.wipe_blacklisted_address(PROTECTOR, BOB, 200).unwrap_err(),
        SilverTokenError::InsufficientBalance
    );
    assert_eq!(sys.balance_of(BOB), 100);

    let ev = sys.wipe_blacklisted_address(PROTECTOR, BOB, 60).unwrap();
    assert_eq!(ev, TokensWiped { target_user: BOB, amount: 60, authority: PROTECTOR });
    assert_eq!(sys.balance_of(BOB), 40);
}

#[test]
fn wipe_rejects_bad_inputs() {
    let mut sys = setup();
    sys.mint_tokens(SUPPLY, 100, BOB).unwrap();

    assert_eq!(
        sys.wipe_blacklisted_address(PROTECTOR, BOB, 0).unwrap_err(),
        SilverTokenError::InvalidAmount
    );
    // the target must currently be blacklisted
    assert_eq!(
        sys.wipe_blacklisted_address(PROTECTOR, BOB, 10).unwrap_err(),
        SilverTokenError::AddressNotBlacklisted
    );
    sys.gate.add_to_blacklist(&sys.registry, PROTECTOR, BOB).unwrap();
    // only the AssetProtector role may wipe; the admin identity alone may not
    assert_eq!(
        sys.wipe_blacklisted_address(ADMIN, BOB, 10).unwrap_err(),
        SilverTokenError::Unauthorized
    );
    assert_eq!(sys.balance_of(BOB), 100);
}

#[test]
fn second_request_overwrites_the_single_delegation() {
    // the balance primitive supports one active delegation: a second request
    // silently replaces the first escrow, and the first request's fulfilment
    // then fails against the replaced delegation
    let mut sys = setup();
    sys.mint_tokens(SUPPLY, 1000, ALICE).unwrap();
    sys.request_redemption(ALICE, 300, 1).unwrap();
    assert_eq!(sys.delegated_of(ALICE), 300);

    sys.request_redemption(ALICE, 200, 2).unwrap();
    assert_eq!(sys.delegated_of(ALICE), 200);

    sys.set_redemption_processing(SUPPLY, 1).unwrap();
    assert_eq!(
        sys.fulfill_redemption(SUPPLY, 1, 3).unwrap_err(),
        SilverTokenError::Unauthorized
    );
    // the second request still fulfils normally
    sys.set_redemption_processing(SUPPLY, 2).unwrap();
    sys.fulfill_redemption(SUPPLY, 2, 4).unwrap();
    assert_eq!(sys.balance_of(ALICE), 800);
    assert_eq!(sys.request_info(2).unwrap().status, RedemptionStatus::Fulfilled);
}

#[test]
fn self_transfer_leaves_the_ledger_unchanged() {
    let mut sys = setup();
    sys.mint_tokens(SUPPLY, 500, ALICE).unwrap();
    sys.transfer(ALICE, ALICE, 200).unwrap();
    assert_eq!(sys.balance_of(ALICE), 500);
}

#[test]
fn wipe_may_burn_escrowed_funds_outside_the_gate() {
    // wipe bypasses the gatekeeper entirely: it can destroy even escrow-committed
    // funds of a blacklisted address
    let mut sys = setup();
    sys.mint_tokens(SUPPLY, 500, ALICE).unwrap();
    sys.request_redemption(ALICE, 400, 1).unwrap();
    sys.gate.add_to_blacklist(&sys.registry, PROTECTOR, ALICE).unwrap();
    sys.wipe_blacklisted_address(PROTECTOR, ALICE, 450).unwrap();
    assert_eq!(sys.balance_of(ALICE), 50);
    // the stale delegation remains recorded
    assert_eq!(sys.delegated_of(ALICE), 400);
}
