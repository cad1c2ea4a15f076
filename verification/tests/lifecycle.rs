//! End-to-end lifecycle scenarios for the escrow state machine.

use escrowly::cancel::CancelError;
use escrowly::confirm::{ConfirmError, ConfirmEvent, Role};
use escrowly::release::ReleaseError;
use escrowly::resolve_dispute::DisputeResolution;
use escrowly::states::{EscrowAccount, EscrowStatus};

// Identities used throughout: sender 1, intermediary 2, receiver 3,
// arbitrator 4, asset 7.
fn setup(amount: u64, deadline: i64, sender_balance: u64) -> (EscrowAccount, u64) {
    let (acct, rest, event) = EscrowAccount::initialize(7, 1, 2, 3, 4, amount, deadline, sender_balance)
        .expect("creation should succeed");
    assert_eq!(event.amount, amount);
    assert_eq!(event.deadline, deadline);
    assert_eq!(event.sender, 1);
    assert_eq!(event.intermediary, 2);
    assert_eq!(event.receiver, 3);
    assert_eq!(event.arbitrator, 4);
    assert!(acct.check_wf());
    (acct, rest)
}

#[test]
fn scenario_release_after_both_confirm() {
    // Sender deposits 1000 units, deadline 3600.
    let (mut acct, rest) = setup(1000, 3600, 1000);
    assert_eq!(rest, 0);
    assert_eq!(acct.vault, 1000);
    assert_eq!(acct.escrow.status, EscrowStatus::Pending);

    // Intermediary confirms at 10, receiver at 20: status becomes Confirmed.
    let e1 = acct.confirm(2, Role::Intermediary, 10).expect("intermediary confirms");
    assert_eq!(e1, ConfirmEvent { role: Role::Intermediary, timestamp: 10 });
    assert_eq!(acct.escrow.status, EscrowStatus::Pending);
    let e2 = acct.confirm(3, Role::Receiver, 20).expect("receiver confirms");
    assert_eq!(e2, ConfirmEvent { role: Role::Receiver, timestamp: 20 });
    assert_eq!(acct.escrow.status, EscrowStatus::Confirmed);

    // Intermediary releases: it receives the full 1000, custody is closed.
    let (event, settlement) = acct.release(2, 30).expect("release succeeds");
    assert_eq!(event.timestamp, 30);
    assert_eq!(settlement.beneficiary, 2);
    assert_eq!(settlement.amount, 1000);
    let intermediary_balance = settlement.apply(0);
    assert_eq!(intermediary_balance, 1000);
    assert_eq!(acct.vault, 0);
    assert_eq!(acct.escrow.status, EscrowStatus::Released);
    assert!(acct.check_wf());

    // Subsequent cancel or confirm calls fail on the terminal state.
    assert_eq!(acct.cancel(1, 40), Err(CancelError::InvalidEscrowState));
    assert_eq!(
        acct.confirm(2, Role::Intermediary, 40),
        Err(ConfirmError::InvalidEscrowState)
    );
    assert_eq!(acct.escrow.status, EscrowStatus::Released);
}

#[test]
fn scenario_cancel_without_confirmations() {
    // Sender deposits 500 units, deadline 100; nobody confirms.
    let (mut acct, rest) = setup(500, 100, 800);
    assert_eq!(rest, 300);

    // At 50 the sender cancels: refund of the full 500.
    let (event, settlement) = acct.cancel(1, 50).expect("cancel succeeds");
    assert_eq!(event.timestamp, 50);
    assert_eq!(settlement.beneficiary, 1);
    assert_eq!(settlement.amount, 500);
    let sender_balance = settlement.apply(rest);
    assert_eq!(sender_balance, 800);
    assert_eq!(acct.escrow.status, EscrowStatus::Cancelled);
    assert_eq!(acct.vault, 0);
    assert!(acct.check_wf());
}

#[test]
fn scenario_cancel_blocked_by_partial_confirmation() {
    // As the previous scenario, but the intermediary confirms at 10.
    let (mut acct, _) = setup(500, 100, 500);
    acct.confirm(2, Role::Intermediary, 10).expect("intermediary confirms");

    // Before the deadline the sender cannot cancel any more.
    let before = acct;
    assert_eq!(acct.cancel(1, 50), Err(CancelError::PartialConfirmationNotExpired));
    assert_eq!(acct, before);

    // Past the deadline the cancellation goes through.
    let (_, settlement) = acct.cancel(1, 150).expect("cancel succeeds past deadline");
    assert_eq!(settlement.beneficiary, 1);
    assert_eq!(settlement.amount, 500);
    assert_eq!(acct.escrow.status, EscrowStatus::Cancelled);
    assert_eq!(acct.vault, 0);
}

#[test]
fn scenario_dispute_resolved_to_refund() {
    // The receiver disputes a pending escrow.
    let (mut acct, _) = setup(750, 1000, 750);
    let event = acct.dispute(3, 10).expect("receiver may dispute");
    assert_eq!(event.initiated_by, 3);
    assert_eq!(acct.escrow.status, EscrowStatus::Disputed);
    assert_eq!(acct.vault, 750);

    // The arbitrator resolves towards cancellation: full refund.
    let (event, settlement) = acct
        .resolve_dispute(4, DisputeResolution::Cancel)
        .expect("arbitrator resolves");
    assert_eq!(event.resolution, DisputeResolution::Cancel);
    assert_eq!(settlement.beneficiary, 1);
    assert_eq!(settlement.amount, 750);
    assert_eq!(acct.escrow.status, EscrowStatus::Cancelled);
    assert_eq!(acct.vault, 0);

    // Any later release fails on the terminal state.
    assert_eq!(acct.release(2, 99), Err(ReleaseError::InvalidEscrowState));
}

#[test]
fn scenario_release_by_wrong_caller() {
    // A confirmed escrow; the sender, not the intermediary, calls release.
    let (mut acct, _) = setup(1000, 3600, 1000);
    acct.confirm(2, Role::Intermediary, 10).expect("intermediary confirms");
    acct.confirm(3, Role::Receiver, 20).expect("receiver confirms");
    assert_eq!(acct.escrow.status, EscrowStatus::Confirmed);

    let before = acct;
    assert_eq!(acct.release(1, 30), Err(ReleaseError::Unauthorized));
    assert_eq!(acct, before);
    assert_eq!(acct.escrow.status, EscrowStatus::Confirmed);
    assert_eq!(acct.vault, 1000);
}

#[test]
fn confirm_is_not_idempotent() {
    let (mut acct, _) = setup(100, 1000, 100);
    acct.confirm(2, Role::Intermediary, 10).expect("first confirmation succeeds");
    assert!(acct.escrow.intermediary_confirmed);

    let before = acct;
    assert_eq!(
        acct.confirm(2, Role::Intermediary, 20),
        Err(ConfirmError::AlreadyConfirmed)
    );
    assert_eq!(acct, before);
    assert!(acct.escrow.intermediary_confirmed);
    assert!(!acct.escrow.receiver_confirmed);
    assert_eq!(acct.escrow.status, EscrowStatus::Pending);
}

#[test]
fn dispute_from_confirmed_resolved_to_release() {
    // Dispute also overrides an already confirmed escrow, and the
    // arbitrator may resolve it towards the intermediary.
    let (mut acct, _) = setup(300, 500, 300);
    acct.confirm(2, Role::Intermediary, 1).expect("intermediary confirms");
    acct.confirm(3, Role::Receiver, 2).expect("receiver confirms");
    assert_eq!(acct.escrow.status, EscrowStatus::Confirmed);

    acct.dispute(1, 3).expect("sender may dispute a confirmed escrow");
    assert_eq!(acct.escrow.status, EscrowStatus::Disputed);

    let (event, settlement) = acct
        .resolve_dispute(4, DisputeResolution::Release)
        .expect("arbitrator resolves");
    assert_eq!(event.resolution, DisputeResolution::Release);
    assert_eq!(settlement.beneficiary, 2);
    assert_eq!(settlement.amount, 300);
    assert_eq!(acct.escrow.status, EscrowStatus::Released);
    assert_eq!(acct.vault, 0);
}

#[test]
fn amount_never_changes_across_lifecycle() {
    let (mut acct, _) = setup(1234, 1000, 2000);
    assert_eq!(acct.escrow.amount, 1234);
    acct.confirm(2, Role::Intermediary, 1).expect("confirm");
    assert_eq!(acct.escrow.amount, 1234);
    acct.revoke(2, Role::Intermediary, 2).expect("revoke");
    assert_eq!(acct.escrow.amount, 1234);
    acct.confirm(3, Role::Receiver, 3).expect("confirm");
    assert_eq!(acct.escrow.amount, 1234);
    acct.dispute(4, 4).expect("dispute");
    assert_eq!(acct.escrow.amount, 1234);
    let (_, settlement) = acct
        .resolve_dispute(4, DisputeResolution::Release)
        .expect("resolve");
    assert_eq!(acct.escrow.amount, 1234);
    assert_eq!(settlement.amount, 1234);
    assert_eq!(acct.vault, 0);
}
