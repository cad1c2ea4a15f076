//! Revocation: while the record is still pending and the deadline has not
//! passed, a party may withdraw its own confirmation.

use vstd::prelude::*;
use crate::confirm::{Role, role_flag, role_identity};
use crate::states::{AccountId, EscrowAccount, EscrowStatus, Timestamp, status_edge_ok};

verus! {

/// Why a revocation request was rejected.
#[derive(Clone, Copy, Debug, PartialEq, Eq, Structural)]
pub enum RevokeError {
    /// The caller is not the identity named by the role.
    Unauthorized,
    /// That role's confirmation flag is not set, so there is nothing to
    /// revoke.
    NotConfirmed,
    /// The current time is past the deadline.
    RevocationPeriodExpired,
    /// The record is no longer pending.
    InvalidEscrowState,
}

/// Emitted on successful revocation.
#[derive(Clone, Copy, Debug, PartialEq, Eq, Structural)]
pub struct RevokeEvent {
    pub role: Role,
    pub timestamp: Timestamp,
}

/// The revocation transition: the next record and the outcome.
///
/// Checks run in order: the caller must be the identity the role names
/// (`Unauthorized`), the time must not be past the deadline
/// (`RevocationPeriodExpired`), the record must still be `Pending`
/// (`InvalidEscrowState`), and the role's flag must be set
/// (`NotConfirmed`). On success the flag is cleared; the status never
/// changes. Failure leaves the record unchanged.
pub open spec fn revoke_spec(
    pre: EscrowAccount,
    caller: AccountId,
    role: Role,
    now: Timestamp,
) -> (EscrowAccount, Result<RevokeEvent, RevokeError>) {
    if caller != role_identity(pre.escrow, role) {
        (pre, Err(RevokeError::Unauthorized))
    } else if now > pre.escrow.deadline {
        (pre, Err(RevokeError::RevocationPeriodExpired))
    } else if pre.escrow.status != EscrowStatus::Pending {
        (pre, Err(RevokeError::InvalidEscrowState))
    } else if !role_flag(pre.escrow, role) {
        (pre, Err(RevokeError::NotConfirmed))
    } else {
        let cleared = match role {
            Role::Intermediary => crate::states::Escrow {
                intermediary_confirmed: false,
                ..pre.escrow
            },
            Role::Receiver => crate::states::Escrow { receiver_confirmed: false, ..pre.escrow },
        };
        (EscrowAccount { escrow: cleared, ..pre }, Ok(RevokeEvent { role, timestamp: now }))
    }
}

impl EscrowAccount {
    /// Withdraw the confirmation of `role`, asserted by `caller` at time
    /// `now`.
    pub fn revoke(&mut self, caller: AccountId, role: Role, now: Timestamp) -> (r: Result<
        RevokeEvent,
        RevokeError,
    >)
        requires
            old(self).wf(),
        ensures
            (*final(self), r) == revoke_spec(*old(self), caller, role, now),
            final(self).wf(),
            final(self).escrow.amount == old(self).escrow.amount,
            final(self).vault == old(self).vault,
            final(self).escrow.status == old(self).escrow.status,
            status_edge_ok(old(self).escrow.status, final(self).escrow.status),
            r is Err ==> *final(self) == *old(self),
    {
        let required = match role {
            Role::Intermediary => self.escrow.intermediary,
            Role::Receiver => self.escrow.receiver,
        };
        if caller != required {
            return Err(RevokeError::Unauthorized);
        }
        if now > self.escrow.deadline {
            return Err(RevokeError::RevocationPeriodExpired);
        }
        match self.escrow.status {
            EscrowStatus::Pending => {},
            _ => {
                return Err(RevokeError::InvalidEscrowState);
            },
        }
        match role {
            Role::Intermediary => {
                if !self.escrow.intermediary_confirmed {
                    return Err(RevokeError::NotConfirmed);
                }
                self.escrow.intermediary_confirmed = false;
            },
            Role::Receiver => {
                if !self.escrow.receiver_confirmed {
                    return Err(RevokeError::NotConfirmed);
                }
                self.escrow.receiver_confirmed = false;
            },
        }
        Ok(RevokeEvent { role, timestamp: now })
    }
}

} // verus!
