//! Cancellation: the sender withdraws the deposit. Free while nobody has
//! confirmed; once a confirmation exists, only after the deadline.

use vstd::prelude::*;
use crate::settlement::Settlement;
use crate::states::{AccountId, EscrowAccount, EscrowStatus, Timestamp, is_terminal, status_edge_ok};

verus! {

/// Why a cancellation request was rejected.
#[derive(Clone, Copy, Debug, PartialEq, Eq, Structural)]
pub enum CancelError {
    /// Only the sender may cancel.
    Unauthorized,
    /// The record is disputed or already terminal.
    InvalidEscrowState,
    /// A confirmation is present and the deadline has not yet passed.
    PartialConfirmationNotExpired,
}

/// Emitted on successful cancellation.
#[derive(Clone, Copy, Debug, PartialEq, Eq, Structural)]
pub struct CancelEvent {
    pub timestamp: Timestamp,
}

/// The cancellation transition: the next record and the outcome, carrying
/// the refund order on success.
///
/// The caller must be the sender (`Unauthorized`); the record must be
/// `Pending` or `Confirmed` (`InvalidEscrowState`); and if either
/// confirmation flag is set, the deadline must have passed —
/// `now > deadline` — else `PartialConfirmationNotExpired`. On success
/// the whole deposit returns to the sender, the vault empties, and the
/// status commits to `Cancelled`. Failure leaves the record unchanged.
pub open spec fn cancel_spec(
    pre: EscrowAccount,
    caller: AccountId,
    now: Timestamp,
) -> (EscrowAccount, Result<(CancelEvent, Settlement), CancelError>) {
    if caller != pre.escrow.sender {
        (pre, Err(CancelError::Unauthorized))
    } else if pre.escrow.status != EscrowStatus::Pending && pre.escrow.status
        != EscrowStatus::Confirmed {
        (pre, Err(CancelError::InvalidEscrowState))
    } else if (pre.escrow.intermediary_confirmed || pre.escrow.receiver_confirmed) && now
        <= pre.escrow.deadline {
        (pre, Err(CancelError::PartialConfirmationNotExpired))
    } else {
        (
            EscrowAccount {
                escrow: crate::states::Escrow { status: EscrowStatus::Cancelled, ..pre.escrow },
                vault: 0,
            },
            Ok(
                (
                    CancelEvent { timestamp: now },
                    Settlement { beneficiary: pre.escrow.sender, amount: pre.escrow.amount },
                ),
            ),
        )
    }
}

impl EscrowAccount {
    /// Cancel the escrow and refund the deposit to the sender, asserted by
    /// `caller` at time `now`. On success the returned settlement order
    /// moves exactly `amount` back to the sender.
    pub fn cancel(&mut self, caller: AccountId, now: Timestamp) -> (r: Result<
        (CancelEvent, Settlement),
        CancelError,
    >)
        requires
            old(self).wf(),
        ensures
            (*final(self), r) == cancel_spec(*old(self), caller, now),
            final(self).wf(),
            final(self).escrow.amount == old(self).escrow.amount,
            status_edge_ok(old(self).escrow.status, final(self).escrow.status),
            r matches Ok(t) ==> t.1.amount == old(self).escrow.amount && t.1.beneficiary == old(
                self,
            ).escrow.sender && final(self).vault == 0 && is_terminal(final(self).escrow.status)
                && old(self).vault - final(self).vault == t.1.amount,
            r is Err ==> *final(self) == *old(self),
    {
        if caller != self.escrow.sender {
            return Err(CancelError::Unauthorized);
        }
        match self.escrow.status {
            EscrowStatus::Pending => {},
            EscrowStatus::Confirmed => {},
            _ => {
                return Err(CancelError::InvalidEscrowState);
            },
        }
        if (self.escrow.intermediary_confirmed || self.escrow.receiver_confirmed) && now
            <= self.escrow.deadline {
            return Err(CancelError::PartialConfirmationNotExpired);
        }
        let settlement = Settlement { beneficiary: self.escrow.sender, amount: self.escrow.amount };
        self.vault = 0;
        self.escrow.status = EscrowStatus::Cancelled;
        Ok((CancelEvent { timestamp: now }, settlement))
    }
}

} // verus!
