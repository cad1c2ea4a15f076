//! Confirmation: the two-of-two unanimity rule that advances a pending
//! escrow to `Confirmed` once both the intermediary and the receiver have
//! signalled, each before the deadline.

use vstd::prelude::*;
use crate::states::{AccountId, EscrowAccount, EscrowStatus, Timestamp, status_edge_ok};

verus! {

/// The party roles eligible to confirm and to revoke a confirmation.
#[derive(Clone, Copy, Debug, PartialEq, Eq, Structural)]
pub enum Role {
    Intermediary,
    Receiver,
}

/// Why a confirmation request was rejected.
#[derive(Clone, Copy, Debug, PartialEq, Eq, Structural)]
pub enum ConfirmError {
    /// The caller is not the identity named by the role.
    Unauthorized,
    /// That role's confirmation flag is already set.
    AlreadyConfirmed,
    /// The current time is past the deadline.
    ConfirmationPeriodExpired,
    /// The record is no longer pending.
    InvalidEscrowState,
}

/// Emitted on successful confirmation.
#[derive(Clone, Copy, Debug, PartialEq, Eq, Structural)]
pub struct ConfirmEvent {
    pub role: Role,
    pub timestamp: Timestamp,
}

/// The identity a role names within a record.
pub open spec fn role_identity(e: crate::states::Escrow, role: Role) -> AccountId {
    match role {
        Role::Intermediary => e.intermediary,
        Role::Receiver => e.receiver,
    }
}

/// That role's confirmation flag.
pub open spec fn role_flag(e: crate::states::Escrow, role: Role) -> bool {
    match role {
        Role::Intermediary => e.intermediary_confirmed,
        Role::Receiver => e.receiver_confirmed,
    }
}

/// The confirmation transition: the next record and the outcome, as a
/// function of the current record, the caller, the role and the time.
///
/// Checks run in order: the caller must be the identity the role names
/// (`Unauthorized`), the record must still be `Pending`
/// (`InvalidEscrowState`), the time must not be past the deadline
/// (`ConfirmationPeriodExpired`), and the role's flag must not already be
/// set (`AlreadyConfirmed`). On success the flag is set, and the status
/// advances to `Confirmed` exactly when both flags now hold — the sole
/// path into `Confirmed`. Failure leaves the record unchanged.
pub open spec fn confirm_spec(
    pre: EscrowAccount,
    caller: AccountId,
    role: Role,
    now: Timestamp,
) -> (EscrowAccount, Result<ConfirmEvent, ConfirmError>) {
    if caller != role_identity(pre.escrow, role) {
        (pre, Err(ConfirmError::Unauthorized))
    } else if pre.escrow.status != EscrowStatus::Pending {
        (pre, Err(ConfirmError::InvalidEscrowState))
    } else if now > pre.escrow.deadline {
        (pre, Err(ConfirmError::ConfirmationPeriodExpired))
    } else if role_flag(pre.escrow, role) {
        (pre, Err(ConfirmError::AlreadyConfirmed))
    } else {
        let flagged = match role {
            Role::Intermediary => crate::states::Escrow { intermediary_confirmed: true, ..pre.escrow },
            Role::Receiver => crate::states::Escrow { receiver_confirmed: true, ..pre.escrow },
        };
        let committed = if flagged.intermediary_confirmed && flagged.receiver_confirmed {
            crate::states::Escrow { status: EscrowStatus::Confirmed, ..flagged }
        } else {
            flagged
        };
        (
            EscrowAccount { escrow: committed, ..pre },
            Ok(ConfirmEvent { role, timestamp: now }),
        )
    }
}

impl EscrowAccount {
    /// Record the confirmation of `role`, asserted by `caller` at time
    /// `now`; advance to `Confirmed` when it completes the pair.
    pub fn confirm(&mut self, caller: AccountId, role: Role, now: Timestamp) -> (r: Result<
        ConfirmEvent,
        ConfirmError,
    >)
        requires
            old(self).wf(),
        ensures
            (*final(self), r) == confirm_spec(*old(self), caller, role, now),
            final(self).wf(),
            final(self).escrow.amount == old(self).escrow.amount,
            final(self).vault == old(self).vault,
            status_edge_ok(old(self).escrow.status, final(self).escrow.status),
            r is Err ==> *final(self) == *old(self),
    {
        let required = match role {
            Role::Intermediary => self.escrow.intermediary,
            Role::Receiver => self.escrow.receiver,
        };
        if caller != required {
            return Err(ConfirmError::Unauthorized);
        }
        match self.escrow.status {
            EscrowStatus::Pending => {},
            _ => {
                return Err(ConfirmError::InvalidEscrowState);
            },
        }
        if now > self.escrow.deadline {
            return Err(ConfirmError::ConfirmationPeriodExpired);
        }
        match role {
            Role::Intermediary => {
                if self.escrow.intermediary_confirmed {
                    return Err(ConfirmError::AlreadyConfirmed);
                }
                self.escrow.intermediary_confirmed = true;
            },
            Role::Receiver => {
                if self.escrow.receiver_confirmed {
                    return Err(ConfirmError::AlreadyConfirmed);
                }
                self.escrow.receiver_confirmed = true;
            },
        }
        if self.escrow.intermediary_confirmed && self.escrow.receiver_confirmed {
            self.escrow.status = EscrowStatus::Confirmed;
        }
        Ok(ConfirmEvent { role, timestamp: now })
    }
}

} // verus!
