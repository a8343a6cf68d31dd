use silver_token::custody::SilverToken;
use silver_token::errors::{GatekeeperError, SilverTokenError, TransferError};
use silver_token::events::{
    AdminSet, PauseToggled, RedemptionCancelled, RedemptionFulfilled, RedemptionRequested,
    RedemptionStatusUpdated, TokensMinted,
};
use silver_token::ledger::MintAuthority;
use silver_token::redemption::RedemptionStatus;
use silver_token::roles::Role;

const ADMIN: u64 = 1;
const SUPPLY: u64 = 2;
const ROOT_ADMIN: u64 = 4;
const ALICE: u64 = 10;
const BOB: u64 = 11;
const STRANGER: u64 = 99;

const MINT: u64 = 100;
const GATE_PROGRAM: u64 = 200;

fn setup() -> SilverToken {
    let (sys, event) = SilverToken::initialize(
        ADMIN,
        MINT,
        GATE_PROGRAM,
        String::from("Silver"),
        String::from("SLV"),
        String::from("https://example.invalid/silver.json"),
    );
    assert_eq!(event.mint, MINT);
    assert_eq!(event.admin, ADMIN);
    assert_eq!(event.gatekeeper_program, GATE_PROGRAM);
    assert_eq!(event.name, "Silver");
    sys
}

fn setup_with_supply_controller() -> SilverToken {
    let mut sys = setup();
    sys.add_role(ADMIN, SUPPLY, Role::SupplyController).unwrap();
    sys
}

#[test]
fn initialize_creates_clean_state() {
    let sys = setup();
    assert_eq!(sys.config.admin, ADMIN);
    assert_eq!(sys.config.mint, MINT);
    assert_eq!(sys.config.redemption_request_counter, 0);
    assert!(!sys.config.is_paused);
    assert_eq!(sys.balance_of(ALICE), 0);
    assert!(!sys.registry.has_role(ADMIN, Role::DefaultAdmin));
    assert_eq!(sys.gate.admin, ADMIN);
}

#[test]
fn grant_and_revoke_are_exact_inverses() {
    let mut sys = setup();
    assert!(!sys.registry.has_role(SUPPLY, Role::SupplyController));

    let ev = sys.add_role(ADMIN, SUPPLY, Role::SupplyController).unwrap();
    assert_eq!(ev.user, SUPPLY);
    assert_eq!(ev.role, "SupplyController");
    assert_eq!(ev.authority, ADMIN);
    assert!(sys.registry.has_role(SUPPLY, Role::SupplyController));
    assert!(!sys.registry.has_role(SUPPLY, Role::AssetProtector));

    // a second grant for the same (subject, role) pair is refused
    assert_eq!(
        sys.add_role(ADMIN, SUPPLY, Role::SupplyController).unwrap_err(),
        SilverTokenError::AlreadyExists
    );

    // revocation needs DefaultAdmin, not the configured admin identity
    assert_eq!(
        sys.remove_role(ADMIN, SUPPLY, Role::SupplyController).unwrap_err(),
        SilverTokenError::Unauthorized
    );
    sys.add_role(ADMIN, ROOT_ADMIN, Role::DefaultAdmin).unwrap();
    let ev = sys.remove_role(ROOT_ADMIN, SUPPLY, Role::SupplyController).unwrap();
    assert_eq!(ev.user, SUPPLY);
    assert_eq!(ev.role, "SupplyController");
    assert!(!sys.registry.has_role(SUPPLY, Role::SupplyController));

    // the revoked grant is gone: a second revocation finds nothing
    assert_eq!(
        sys.remove_role(ROOT_ADMIN, SUPPLY, Role::SupplyController).unwrap_err(),
        SilverTokenError::NotFound
    );
}

#[test]
fn default_admin_holder_may_grant() {
    let mut sys = setup();
    sys.add_role(ADMIN, ROOT_ADMIN, Role::DefaultAdmin).unwrap();
    sys.add_role(ROOT_ADMIN, SUPPLY, Role::FeeController).unwrap();
    assert!(sys.registry.has_role(SUPPLY, Role::FeeController));
}

#[test]
fn grant_by_stranger_is_unauthorized() {
    let mut sys = setup();
    assert_eq!(
        sys.add_role(STRANGER, SUPPLY, Role::SupplyController).unwrap_err(),
        SilverTokenError::Unauthorized
    );
    assert!(!sys.registry.has_role(SUPPLY, Role::SupplyController));
}

#[test]
fn role_names_match_the_audit_log_format() {
    assert_eq!(Role::SupplyController.name(), "SupplyController");
    assert_eq!(Role::AssetProtector.name(), "AssetProtector");
    assert_eq!(Role::FeeController.name(), "FeeController");
    assert_eq!(Role::DefaultAdmin.name(), "DefaultAdmin");
}

#[test]
fn mint_credits_the_recipient() {
    let mut sys = setup_with_supply_controller();
    let ev = sys.mint_tokens(SUPPLY, 1000, ALICE).unwrap();
    assert_eq!(
        ev,
        TokensMinted {
            mint: MINT,
            to: ALICE,
            amount: 1000,
            authority: MintAuthority::ProgramHeld,
            recipient: ALICE,
        }
    );
    assert_eq!(sys.balance_of(ALICE), 1000);
    sys.mint_tokens(SUPPLY, 500, ALICE).unwrap();
    assert_eq!(sys.balance_of(ALICE), 1500);
}

#[test]
fn mint_rejects_zero_amount_and_strangers() {
    let mut sys = setup_with_supply_controller();
    assert_eq!(
        sys.mint_tokens(SUPPLY, 0, ALICE).unwrap_err(),
        SilverTokenError::InvalidAmount
    );
    assert_eq!(
        sys.mint_tokens(ADMIN, 10, ALICE).unwrap_err(),
        SilverTokenError::Unauthorized
    );
    assert_eq!(sys.balance_of(ALICE), 0);
}

#[test]
fn toggle_pause_flips_the_flag() {
    let mut sys = setup();
    assert_eq!(
        sys.toggle_pause(STRANGER).unwrap_err(),
        SilverTokenError::Unauthorized
    );
    let ev = sys.toggle_pause(ADMIN).unwrap();
    assert_eq!(ev, PauseToggled { is_paused: true, authority: ADMIN });
    assert!(sys.config.is_paused);
    let ev = sys.toggle_pause(ADMIN).unwrap();
    assert_eq!(ev, PauseToggled { is_paused: false, authority: ADMIN });
    assert!(!sys.config.is_paused);
}

#[test]
fn pause_blocks_mint_and_request_but_not_cancel() {
    // admin toggles pause -> mint and request_redemption fail with
    // ContractPaused; cancelling an existing Pending request still succeeds
    let mut sys = setup_with_supply_controller();
    sys.mint_tokens(SUPPLY, 1000, ALICE).unwrap();
    sys.request_redemption(ALICE, 400, 50).unwrap();
    sys.toggle_pause(ADMIN).unwrap();

    assert_eq!(
        sys.mint_tokens(SUPPLY, 10, ALICE).unwrap_err(),
        SilverTokenError::ContractPaused
    );
    assert_eq!(
        sys.request_redemption(ALICE, 100, 60).unwrap_err(),
        SilverTokenError::ContractPaused
    );
    // fulfilment is also rejected while paused
    sys.request_info(1).unwrap();
    assert_eq!(
        sys.set_redemption_processing(SUPPLY, 1).unwrap_err(),
        SilverTokenError::ContractPaused
    );

    let ev = sys.cancel_redemption(ALICE, 1, 70).unwrap();
    assert_eq!(ev.request_id, 1);
    assert_eq!(sys.request_info(1).unwrap().status, RedemptionStatus::Cancelled);
    assert_eq!(sys.free_balance_of(ALICE), 1000);
}

#[test]
fn redemption_happy_path() {
    // mint(1000, Alice); Alice requests 400: escrow 400, free 600, Pending;
    // a 700 transfer is rejected; Processing, then fulfil: balance 600
    let mut sys = setup_with_supply_controller();
    sys.mint_tokens(SUPPLY, 1000, ALICE).unwrap();
    assert_eq!(sys.balance_of(ALICE), 1000);

    let ev = sys.request_redemption(ALICE, 400, 1111).unwrap();
    assert_eq!(
        ev,
        RedemptionRequested { user: ALICE, request_id: 1, amount: 400, timestamp: 1111 }
    );
    assert_eq!(sys.delegated_of(ALICE), 400);
    assert_eq!(sys.free_balance_of(ALICE), 600);
    let req = sys.request_info(1).unwrap();
    assert_eq!(req.status, RedemptionStatus::Pending);
    assert_eq!(req.amount, 400);
    assert_eq!(req.requested_at, 1111);
    assert_eq!(req.completed_at, 0);
    assert_eq!(sys.config.redemption_request_counter, 1);

    let rejected = sys.transfer(ALICE, BOB, 700).unwrap_err();
    assert_eq!(
        rejected,
        TransferError::Rejected(GatekeeperError::InsufficientAvailableTokens)
    );
    assert_eq!(sys.balance_of(ALICE), 1000);

    let ev = sys.set_redemption_processing(SUPPLY, 1).unwrap();
    assert_eq!(
        ev,
        RedemptionStatusUpdated {
            user: ALICE,
            request_id: 1,
            old_status: RedemptionStatus::Pending,
            new_status: RedemptionStatus::Processing,
        }
    );

    let ev = sys.fulfill_redemption(SUPPLY, 1, 2222).unwrap();
    assert_eq!(
        ev,
        RedemptionFulfilled { user: ALICE, request_id: 1, amount: 400, timestamp: 2222 }
    );
    assert_eq!(sys.balance_of(ALICE), 600);
    assert_eq!(sys.delegated_of(ALICE), 0);
    let req = sys.request_info(1).unwrap();
    assert_eq!(req.status, RedemptionStatus::Fulfilled);
    assert_eq!(req.completed_at, 2222);
}

#[test]
fn fulfill_strictly_requires_processing() {
    let mut sys = setup_with_supply_controller();
    sys.mint_tokens(SUPPLY, 1000, ALICE).unwrap();
    sys.request_redemption(ALICE, 400, 1).unwrap();

    // Pending: rejected, nothing changes
    assert_eq!(
        sys.fulfill_redemption(SUPPLY, 1, 2).unwrap_err(),
        SilverTokenError::InvalidRequestStatus
    );
    assert_eq!(sys.request_info(1).unwrap().status, RedemptionStatus::Pending);
    assert_eq!(sys.balance_of(ALICE), 1000);
    assert_eq!(sys.delegated_of(ALICE), 400);

    // Fulfilled (terminal): rejected again
    sys.set_redemption_processing(SUPPLY, 1).unwrap();
    sys.fulfill_redemption(SUPPLY, 1, 3).unwrap();
    assert_eq!(
        sys.fulfill_redemption(SUPPLY, 1, 4).unwrap_err(),
        SilverTokenError::InvalidRequestStatus
    );
    assert_eq!(sys.balance_of(ALICE), 600);

    // Cancelled (terminal): rejected as well
    sys.request_redemption(ALICE, 100, 5).unwrap();
    sys.cancel_redemption(ALICE, 2, 6).unwrap();
    assert_eq!(
        sys.fulfill_redemption(SUPPLY, 2, 7).unwrap_err(),
        SilverTokenError::InvalidRequestStatus
    );
    assert_eq!(sys.balance_of(ALICE), 600);
}

#[test]
fn fulfill_by_stranger_is_unauthorized() {
    let mut sys = setup_with_supply_controller();
    sys.mint_tokens(SUPPLY, 1000, ALICE).unwrap();
    sys.request_redemption(ALICE, 400, 1).unwrap();
    sys.set_redemption_processing(SUPPLY, 1).unwrap();
    assert_eq!(
        sys.fulfill_redemption(ALICE, 1, 2).unwrap_err(),
        SilverTokenError::Unauthorized
    );
    assert_eq!(
        sys.fulfill_redemption(SUPPLY, 77, 2).unwrap_err(),
        SilverTokenError::NotFound
    );
}

#[test]
fn request_then_cancel_restores_free_balance() {
    let mut sys = setup_with_supply_controller();
    sys.mint_tokens(SUPPLY, 1000, ALICE).unwrap();
    let free_before = sys.free_balance_of(ALICE);

    sys.request_redemption(ALICE, 400, 10).unwrap();
    assert_eq!(sys.free_balance_of(ALICE), 600);

    let ev = sys.cancel_redemption(ALICE, 1, 20).unwrap();
    assert_eq!(
        ev,
        RedemptionCancelled {
            user: ALICE,
            request_id: 1,
            amount: 400,
            timestamp: 20,
            cancelled_by: ALICE,
        }
    );
    assert_eq!(sys.free_balance_of(ALICE), free_before);
    assert_eq!(sys.balance_of(ALICE), 1000);
    assert_eq!(sys.request_info(1).unwrap().status, RedemptionStatus::Cancelled);
}

#[test]
fn cancel_rules() {
    let mut sys = setup_with_supply_controller();
    sys.mint_tokens(SUPPLY, 1000, ALICE).unwrap();
    sys.request_redemption(ALICE, 400, 1).unwrap();

    // a stranger may not cancel someone else's Pending request
    assert_eq!(
        sys.cancel_redemption(BOB, 1, 2).unwrap_err(),
        SilverTokenError::Unauthorized
    );
    // a SupplyController holder may cancel on the requester's behalf
    let ev = sys.cancel_redemption(SUPPLY, 1, 3).unwrap();
    assert_eq!(ev.cancelled_by, SUPPLY);

    // Processing is excluded from cancellation by design
    sys.request_redemption(ALICE, 200, 4).unwrap();
    sys.set_redemption_processing(SUPPLY, 2).unwrap();
    assert_eq!(
        sys.cancel_redemption(ALICE, 2, 5).unwrap_err(),
        SilverTokenError::InvalidRequestStatus
    );
    assert_eq!(sys.request_info(2).unwrap().status, RedemptionStatus::Processing);

    // unknown request
    assert_eq!(
        sys.cancel_redemption(ALICE, 9, 6).unwrap_err(),
        SilverTokenError::NotFound
    );
}

#[test]
fn set_processing_rules() {
    let mut sys = setup_with_supply_controller();
    sys.mint_tokens(SUPPLY, 1000, ALICE).unwrap();
    sys.request_redemption(ALICE, 400, 1).unwrap();

    assert_eq!(
        sys.set_redemption_processing(ALICE, 1).unwrap_err(),
        SilverTokenError::Unauthorized
    );
    assert_eq!(
        sys.set_redemption_processing(SUPPLY, 9).unwrap_err(),
        SilverTokenError::NotFound
    );
    sys.set_redemption_processing(SUPPLY, 1).unwrap();
    // no backward transition: Processing cannot be set again
    assert_eq!(
        sys.set_redemption_processing(SUPPLY, 1).unwrap_err(),
        SilverTokenError::InvalidRequestStatus
    );
}

#[test]
fn request_redemption_balance_rules() {
    let mut sys = setup_with_supply_controller();
    sys.mint_tokens(SUPPLY, 500, ALICE).unwrap();

    assert_eq!(
        sys.request_redemption(ALICE, 0, 1).unwrap_err(),
        SilverTokenError::InvalidAmount
    );
    assert_eq!(
        sys.request_redemption(ALICE, 501, 1).unwrap_err(),
        SilverTokenError::InsufficientBalance
    );
    assert_eq!(
        sys.request_redemption(BOB, 1, 1).unwrap_err(),
        SilverTokenError::InsufficientBalance
    );

    // stacking: a second request may not exceed the free balance
    sys.request_redemption(ALICE, 300, 1).unwrap();
    assert_eq!(
        sys.request_redemption(ALICE, 300, 2).unwrap_err(),
        SilverTokenError::InsufficientAvailableTokens
    );
}

#[test]
fn request_ids_come_from_the_counter() {
    let mut sys = setup_with_supply_controller();
    sys.mint_tokens(SUPPLY, 1000, ALICE).unwrap();
    sys.mint_tokens(SUPPLY, 1000, BOB).unwrap();
    let ev = sys.request_redemption(ALICE, 100, 1).unwrap();
    assert_eq!(ev.request_id, 1);
    let ev = sys.request_redemption(BOB, 100, 2).unwrap();
    assert_eq!(ev.request_id, 2);
    assert_eq!(sys.config.redemption_request_counter, 2);
    assert_eq!(sys.request_info(1).unwrap().user, ALICE);
    assert_eq!(sys.request_info(2).unwrap().user, BOB);
}

#[test]
fn counter_exhaustion_fails_with_counter_overflow() {
    let mut sys = setup_with_supply_controller();
    sys.mint_tokens(SUPPLY, 1000, ALICE).unwrap();
    sys.config.redemption_request_counter = u64::MAX;
    assert_eq!(
        sys.request_redemption(ALICE, 100, 1).unwrap_err(),
        SilverTokenError::CounterOverflow
    );
}

#[test]
fn set_admin_is_single_step() {
    let mut sys = setup();
    assert_eq!(
        sys.set_admin(STRANGER, STRANGER).unwrap_err(),
        SilverTokenError::Unauthorized
    );
    let ev = sys.set_admin(ADMIN, BOB).unwrap();
    assert_eq!(ev, AdminSet { admin: BOB });
    assert_eq!(sys.config.admin, BOB);
    // the old admin lost the capability at once
    assert_eq!(
        sys.toggle_pause(ADMIN).unwrap_err(),
        SilverTokenError::Unauthorized
    );
    sys.toggle_pause(BOB).unwrap();
}

#[test]
fn rotating_the_mint_authority_disables_minting() {
    let mut sys = setup_with_supply_controller();
    assert_eq!(
        sys.transfer_mint_authority(STRANGER, 77).unwrap_err(),
        SilverTokenError::Unauthorized
    );
    let ev = sys.transfer_mint_authority(ADMIN, 77).unwrap();
    assert_eq!(ev.authority_type, "MintTokens");
    assert_eq!(ev.old_authority, MintAuthority::ProgramHeld);
    assert_eq!(ev.new_authority, 77);
    assert_eq!(ev.transferred_by, ADMIN);
    assert_eq!(sys.ledger.mint_authority, MintAuthority::External(77));

    // the capability is gone: minting through this surface is rejected,
    // and so is a second rotation
    assert_eq!(
        sys.mint_tokens(SUPPLY, 10, ALICE).unwrap_err(),
        SilverTokenError::Unauthorized
    );
    assert_eq!(
        sys.transfer_mint_authority(ADMIN, 78).unwrap_err(),
        SilverTokenError::Unauthorized
    );
}
