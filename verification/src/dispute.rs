//! Disputing: any of the four parties may divert a live escrow into
//! arbitration, freezing further confirmation and revocation activity.

use vstd::prelude::*;
use crate::states::{AccountId, EscrowAccount, EscrowStatus, Timestamp, status_edge_ok};

verus! {

/// Why a dispute request was rejected.
#[derive(Clone, Copy, Debug, PartialEq, Eq, Structural)]
pub enum DisputeError {
    /// The caller is none of the four named parties.
    Unauthorized,
    /// The record is neither pending nor confirmed.
    InvalidEscrowState,
}

/// Emitted on successful dispute.
#[derive(Clone, Copy, Debug, PartialEq, Eq, Structural)]
pub struct DisputeEvent {
    pub initiated_by: AccountId,
    pub timestamp: Timestamp,
}

/// The dispute transition: the next record and the outcome.
///
/// The caller must be one of the four parties (`Unauthorized`), and the
/// record must be `Pending` or `Confirmed` (`InvalidEscrowState`). On
/// success the status becomes `Disputed` unconditionally, overriding a
/// pending confirmation race; the flags and the vault are untouched.
/// Failure leaves the record unchanged.
pub open spec fn dispute_spec(
    pre: EscrowAccount,
    caller: AccountId,
    now: Timestamp,
) -> (EscrowAccount, Result<DisputeEvent, DisputeError>) {
    if !pre.escrow.is_participant(caller) {
        (pre, Err(DisputeError::Unauthorized))
    } else if pre.escrow.status != EscrowStatus::Pending && pre.escrow.status
        != EscrowStatus::Confirmed {
        (pre, Err(DisputeError::InvalidEscrowState))
    } else {
        (
            EscrowAccount {
                escrow: crate::states::Escrow { status: EscrowStatus::Disputed, ..pre.escrow },
                ..pre
            },
            Ok(DisputeEvent { initiated_by: caller, timestamp: now }),
        )
    }
}

impl EscrowAccount {
    /// Raise a dispute, asserted by `caller` at time `now`.
    pub fn dispute(&mut self, caller: AccountId, now: Timestamp) -> (r: Result<
        DisputeEvent,
        DisputeError,
    >)
        requires
            old(self).wf(),
        ensures
            (*final(self), r) == dispute_spec(*old(self), caller, now),
            final(self).wf(),
            final(self).escrow.amount == old(self).escrow.amount,
            final(self).vault == old(self).vault,
            status_edge_ok(old(self).escrow.status, final(self).escrow.status),
            r is Err ==> *final(self) == *old(self),
    {
        if caller != self.escrow.sender && caller != self.escrow.intermediary && caller
            != self.escrow.receiver && caller != self.escrow.arbitrator {
            return Err(DisputeError::Unauthorized);
        }
        match self.escrow.status {
            EscrowStatus::Pending => {},
            EscrowStatus::Confirmed => {},
            _ => {
                return Err(DisputeError::InvalidEscrowState);
            },
        }
        self.escrow.status = EscrowStatus::Disputed;
        Ok(DisputeEvent { initiated_by: caller, timestamp: now })
    }
}

} // verus!
