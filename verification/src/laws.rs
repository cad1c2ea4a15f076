//! Lifecycle laws: properties that hold across every operation of the
//! escrow, stated over the transition functions and proved once and for
//! all.

use vstd::prelude::*;
use crate::cancel::cancel_spec;
use crate::confirm::{ConfirmError, ConfirmEvent, Role, confirm_spec};
use crate::dispute::dispute_spec;
use crate::release::release_spec;
use crate::resolve_dispute::{DisputeResolution, resolve_dispute_spec};
use crate::revoke::revoke_spec;
use crate::states::{AccountId, EscrowAccount, EscrowStatus, Timestamp, is_terminal, status_edge_ok};

verus! {

/// Every operation moves `status` only along an edge of the lifecycle
/// diagram — whatever the starting record, the caller, the role, the
/// verdict or the time.
pub proof fn lemma_transitions_follow_edges(
    pre: EscrowAccount,
    caller: AccountId,
    role: Role,
    resolution: DisputeResolution,
    now: Timestamp,
)
    ensures
        status_edge_ok(pre.escrow.status, confirm_spec(pre, caller, role, now).0.escrow.status),
        status_edge_ok(pre.escrow.status, revoke_spec(pre, caller, role, now).0.escrow.status),
        status_edge_ok(pre.escrow.status, dispute_spec(pre, caller, now).0.escrow.status),
        status_edge_ok(
            pre.escrow.status,
            resolve_dispute_spec(pre, caller, resolution).0.escrow.status,
        ),
        status_edge_ok(pre.escrow.status, release_spec(pre, caller, now).0.escrow.status),
        status_edge_ok(pre.escrow.status, cancel_spec(pre, caller, now).0.escrow.status),
{
}

/// No edge of the lifecycle diagram leaves a terminal status: once a
/// record is `Cancelled` or `Released` its status can never move again.
pub proof fn lemma_terminal_is_final(pre: EscrowStatus, post: EscrowStatus)
    requires
        is_terminal(pre),
        status_edge_ok(pre, post),
    ensures
        post == pre,
{
}

/// `amount` is invariant across the whole lifecycle: no operation changes
/// it, and each settling operation, when it succeeds, orders a transfer
/// of exactly `amount` — never more, never less.
pub proof fn lemma_amount_invariant(
    pre: EscrowAccount,
    caller: AccountId,
    role: Role,
    resolution: DisputeResolution,
    now: Timestamp,
)
    ensures
        confirm_spec(pre, caller, role, now).0.escrow.amount == pre.escrow.amount,
        revoke_spec(pre, caller, role, now).0.escrow.amount == pre.escrow.amount,
        dispute_spec(pre, caller, now).0.escrow.amount == pre.escrow.amount,
        resolve_dispute_spec(pre, caller, resolution).0.escrow.amount == pre.escrow.amount,
        release_spec(pre, caller, now).0.escrow.amount == pre.escrow.amount,
        cancel_spec(pre, caller, now).0.escrow.amount == pre.escrow.amount,
        release_spec(pre, caller, now).1 matches Ok(t) ==> t.1.amount == pre.escrow.amount,
        cancel_spec(pre, caller, now).1 matches Ok(t) ==> t.1.amount == pre.escrow.amount,
        resolve_dispute_spec(pre, caller, resolution).1 matches Ok(t) ==> t.1.amount
            == pre.escrow.amount,
{
}

/// Every operation preserves the well-formedness invariant; in
/// particular, any record whose status is terminal — so any record just
/// after a transition into `Released` or `Cancelled` — holds exactly `0`
/// in its custody vault.
pub proof fn lemma_wf_preserved(
    pre: EscrowAccount,
    caller: AccountId,
    role: Role,
    resolution: DisputeResolution,
    now: Timestamp,
)
    requires
        pre.wf(),
    ensures
        confirm_spec(pre, caller, role, now).0.wf(),
        revoke_spec(pre, caller, role, now).0.wf(),
        dispute_spec(pre, caller, now).0.wf(),
        resolve_dispute_spec(pre, caller, resolution).0.wf(),
        release_spec(pre, caller, now).0.wf(),
        cancel_spec(pre, caller, now).0.wf(),
{
}

/// A well-formed terminal record holds an empty vault.
pub proof fn lemma_terminal_vault_empty(s: EscrowAccount)
    requires
        s.wf(),
        is_terminal(s.escrow.status),
    ensures
        s.vault == 0,
{
}

/// Each settling operation that succeeds leaves the record terminal with
/// an empty vault, and the balance it drains from the vault is exactly
/// the amount its settlement order credits to the beneficiary.
pub proof fn lemma_settlement_empties_custody(
    pre: EscrowAccount,
    caller: AccountId,
    resolution: DisputeResolution,
    now: Timestamp,
)
    requires
        pre.wf(),
    ensures
        release_spec(pre, caller, now).1 matches Ok(t) ==> is_terminal(
            release_spec(pre, caller, now).0.escrow.status,
        ) && release_spec(pre, caller, now).0.vault == 0 && pre.vault - release_spec(
            pre,
            caller,
            now,
        ).0.vault == t.1.amount,
        cancel_spec(pre, caller, now).1 matches Ok(t) ==> is_terminal(
            cancel_spec(pre, caller, now).0.escrow.status,
        ) && cancel_spec(pre, caller, now).0.vault == 0 && pre.vault - cancel_spec(
            pre,
            caller,
            now,
        ).0.vault == t.1.amount,
        resolve_dispute_spec(pre, caller, resolution).1 matches Ok(t) ==> is_terminal(
            resolve_dispute_spec(pre, caller, resolution).0.escrow.status,
        ) && resolve_dispute_spec(pre, caller, resolution).0.vault == 0 && pre.vault
            - resolve_dispute_spec(pre, caller, resolution).0.vault == t.1.amount,
{
}

/// Once the status has left `Pending`, the confirmation flags are frozen:
/// no operation changes either flag on a record that is not pending.
pub proof fn lemma_flags_frozen_outside_pending(
    pre: EscrowAccount,
    caller: AccountId,
    role: Role,
    resolution: DisputeResolution,
    now: Timestamp,
)
    requires
        pre.escrow.status != EscrowStatus::Pending,
    ensures
        confirm_spec(pre, caller, role, now).0.escrow.intermediary_confirmed
            == pre.escrow.intermediary_confirmed,
        confirm_spec(pre, caller, role, now).0.escrow.receiver_confirmed
            == pre.escrow.receiver_confirmed,
        revoke_spec(pre, caller, role, now).0.escrow.intermediary_confirmed
            == pre.escrow.intermediary_confirmed,
        revoke_spec(pre, caller, role, now).0.escrow.receiver_confirmed
            == pre.escrow.receiver_confirmed,
        dispute_spec(pre, caller, now).0.escrow.intermediary_confirmed
            == pre.escrow.intermediary_confirmed,
        dispute_spec(pre, caller, now).0.escrow.receiver_confirmed
            == pre.escrow.receiver_confirmed,
        resolve_dispute_spec(pre, caller, resolution).0.escrow.intermediary_confirmed
            == pre.escrow.intermediary_confirmed,
        resolve_dispute_spec(pre, caller, resolution).0.escrow.receiver_confirmed
            == pre.escrow.receiver_confirmed,
        release_spec(pre, caller, now).0.escrow.intermediary_confirmed
            == pre.escrow.intermediary_confirmed,
        release_spec(pre, caller, now).0.escrow.receiver_confirmed
            == pre.escrow.receiver_confirmed,
        cancel_spec(pre, caller, now).0.escrow.intermediary_confirmed
            == pre.escrow.intermediary_confirmed,
        cancel_spec(pre, caller, now).0.escrow.receiver_confirmed
            == pre.escrow.receiver_confirmed,
{
}

/// Confirmation is not idempotent: once a confirmation for a role has
/// succeeded, a second confirmation for the same role never succeeds,
/// and, failing, leaves the record exactly as the first call left it.
/// When the record is still pending and the second call comes within the
/// deadline, the rejection is specifically `AlreadyConfirmed`.
pub proof fn lemma_confirm_not_idempotent(
    pre: EscrowAccount,
    caller: AccountId,
    role: Role,
    now: Timestamp,
    now2: Timestamp,
)
    requires
        confirm_spec(pre, caller, role, now).1 is Ok,
    ensures
        confirm_spec(confirm_spec(pre, caller, role, now).0, caller, role, now2).1 is Err,
        confirm_spec(confirm_spec(pre, caller, role, now).0, caller, role, now2).0 == confirm_spec(
            pre,
            caller,
            role,
            now,
        ).0,
        confirm_spec(pre, caller, role, now).0.escrow.status == EscrowStatus::Pending && now2
            <= pre.escrow.deadline ==> confirm_spec(
            confirm_spec(pre, caller, role, now).0,
            caller,
            role,
            now2,
        ).1 == Err::<ConfirmEvent, ConfirmError>(ConfirmError::AlreadyConfirmed),
{
}

} // verus!
