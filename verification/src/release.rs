//! Release: once both parties have confirmed, the intermediary collects
//! the whole deposit and the custody vault is emptied and retired.

use vstd::prelude::*;
use crate::settlement::Settlement;
use crate::states::{AccountId, EscrowAccount, EscrowStatus, Timestamp, is_terminal, status_edge_ok};

verus! {

/// Why a release request was rejected.
#[derive(Clone, Copy, Debug, PartialEq, Eq, Structural)]
pub enum ReleaseError {
    /// The record is still pending: unanimity was never reached.
    NotFullyConfirmed,
    /// Only the intermediary may trigger the release.
    Unauthorized,
    /// The record is disputed or already terminal.
    InvalidEscrowState,
}

/// Emitted on successful release.
#[derive(Clone, Copy, Debug, PartialEq, Eq, Structural)]
pub struct ReleaseEvent {
    pub timestamp: Timestamp,
}

/// The release transition: the next record and the outcome, carrying the
/// settlement order on success.
///
/// The caller must be the intermediary (`Unauthorized`); a still-pending
/// record fails with `NotFullyConfirmed`, and a disputed or terminal one
/// with `InvalidEscrowState`. From `Confirmed`, the whole deposit moves
/// to the intermediary, the vault empties, and the status commits to
/// `Released`, all in one atomic step. Failure leaves the record
/// unchanged.
pub open spec fn release_spec(
    pre: EscrowAccount,
    caller: AccountId,
    now: Timestamp,
) -> (EscrowAccount, Result<(ReleaseEvent, Settlement), ReleaseError>) {
    if caller != pre.escrow.intermediary {
        (pre, Err(ReleaseError::Unauthorized))
    } else if pre.escrow.status == EscrowStatus::Pending {
        (pre, Err(ReleaseError::NotFullyConfirmed))
    } else if pre.escrow.status != EscrowStatus::Confirmed {
        (pre, Err(ReleaseError::InvalidEscrowState))
    } else {
        (
            EscrowAccount {
                escrow: crate::states::Escrow { status: EscrowStatus::Released, ..pre.escrow },
                vault: 0,
            },
            Ok(
                (
                    ReleaseEvent { timestamp: now },
                    Settlement { beneficiary: pre.escrow.intermediary, amount: pre.escrow.amount },
                ),
            ),
        )
    }
}

impl EscrowAccount {
    /// Release the deposit to the intermediary, asserted by `caller` at
    /// time `now`. On success the returned settlement order moves exactly
    /// `amount` to the intermediary.
    pub fn release(&mut self, caller: AccountId, now: Timestamp) -> (r: Result<
        (ReleaseEvent, Settlement),
        ReleaseError,
    >)
        requires
            old(self).wf(),
        ensures
            (*final(self), r) == release_spec(*old(self), caller, now),
            final(self).wf(),
            final(self).escrow.amount == old(self).escrow.amount,
            status_edge_ok(old(self).escrow.status, final(self).escrow.status),
            r matches Ok(t) ==> t.1.amount == old(self).escrow.amount && t.1.beneficiary == old(
                self,
            ).escrow.intermediary && final(self).vault == 0 && is_terminal(
                final(self).escrow.status,
            ) && old(self).vault - final(self).vault == t.1.amount,
            r is Err ==> *final(self) == *old(self),
    {
        if caller != self.escrow.intermediary {
            return Err(ReleaseError::Unauthorized);
        }
        match self.escrow.status {
            EscrowStatus::Confirmed => {},
            EscrowStatus::Pending => {
                return Err(ReleaseError::NotFullyConfirmed);
            },
            _ => {
                return Err(ReleaseError::InvalidEscrowState);
            },
        }
        let settlement = Settlement {
            beneficiary: self.escrow.intermediary,
            amount: self.escrow.amount,
        };
        self.vault = 0;
        self.escrow.status = EscrowStatus::Released;
        Ok((ReleaseEvent { timestamp: now }, settlement))
    }
}

} // verus!
