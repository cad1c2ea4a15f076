//! Arbitration: the arbitrator resolves a disputed escrow, either
//! releasing the deposit to the intermediary or refunding the sender —
//! the only path by which `Disputed` reaches a terminal state.

use vstd::prelude::*;
use crate::settlement::Settlement;
use crate::states::{AccountId, EscrowAccount, EscrowStatus, is_terminal, status_edge_ok};

verus! {

/// The arbitrator's verdict on a disputed escrow.
#[derive(Clone, Copy, Debug, PartialEq, Eq, Structural)]
pub enum DisputeResolution {
    /// Transfer the deposit to the intermediary.
    Release,
    /// Refund the deposit to the sender.
    Cancel,
}

/// Why a resolution request was rejected.
#[derive(Clone, Copy, Debug, PartialEq, Eq, Structural)]
pub enum ResolveDisputeError {
    /// Only the arbitrator may resolve a dispute.
    Unauthorized,
    /// The record is not disputed.
    InvalidEscrowState,
}

/// Emitted on successful resolution.
#[derive(Clone, Copy, Debug, PartialEq, Eq, Structural)]
pub struct DisputeResolvedEvent {
    pub resolution: DisputeResolution,
}

/// The resolution transition: the next record and the outcome, carrying
/// the settlement order on success.
///
/// The caller must be the arbitrator (`Unauthorized`), and the record
/// must be `Disputed` (`InvalidEscrowState`). A `Release` verdict moves
/// the whole deposit to the intermediary and commits `Released`; a
/// `Cancel` verdict refunds the sender and commits `Cancelled`. Either
/// way the vault empties in the same atomic step. Failure leaves the
/// record unchanged.
pub open spec fn resolve_dispute_spec(
    pre: EscrowAccount,
    caller: AccountId,
    resolution: DisputeResolution,
) -> (EscrowAccount, Result<(DisputeResolvedEvent, Settlement), ResolveDisputeError>) {
    if caller != pre.escrow.arbitrator {
        (pre, Err(ResolveDisputeError::Unauthorized))
    } else if pre.escrow.status != EscrowStatus::Disputed {
        (pre, Err(ResolveDisputeError::InvalidEscrowState))
    } else {
        let (status, beneficiary) = match resolution {
            DisputeResolution::Release => (EscrowStatus::Released, pre.escrow.intermediary),
            DisputeResolution::Cancel => (EscrowStatus::Cancelled, pre.escrow.sender),
        };
        (
            EscrowAccount {
                escrow: crate::states::Escrow { status, ..pre.escrow },
                vault: 0,
            },
            Ok(
                (
                    DisputeResolvedEvent { resolution },
                    Settlement { beneficiary, amount: pre.escrow.amount },
                ),
            ),
        )
    }
}

impl EscrowAccount {
    /// Resolve a dispute with the given verdict, asserted by `caller`.
    /// On success the returned settlement order moves exactly `amount`
    /// to the party the verdict designates.
    pub fn resolve_dispute(&mut self, caller: AccountId, resolution: DisputeResolution) -> (r:
        Result<(DisputeResolvedEvent, Settlement), ResolveDisputeError>)
        requires
            old(self).wf(),
        ensures
            (*final(self), r) == resolve_dispute_spec(*old(self), caller, resolution),
            final(self).wf(),
            final(self).escrow.amount == old(self).escrow.amount,
            status_edge_ok(old(self).escrow.status, final(self).escrow.status),
            r matches Ok(t) ==> t.1.amount == old(self).escrow.amount && final(self).vault == 0
                && is_terminal(final(self).escrow.status) && old(self).vault - final(self).vault
                == t.1.amount,
            r matches Ok(t) ==> (resolution == DisputeResolution::Release ==> t.1.beneficiary
                == old(self).escrow.intermediary && final(self).escrow.status
                == EscrowStatus::Released),
            r matches Ok(t) ==> (resolution == DisputeResolution::Cancel ==> t.1.beneficiary
                == old(self).escrow.sender && final(self).escrow.status == EscrowStatus::Cancelled),
            r is Err ==> *final(self) == *old(self),
    {
        if caller != self.escrow.arbitrator {
            return Err(ResolveDisputeError::Unauthorized);
        }
        match self.escrow.status {
            EscrowStatus::Disputed => {},
            _ => {
                return Err(ResolveDisputeError::InvalidEscrowState);
            },
        }
        let (status, beneficiary) = match resolution {
            DisputeResolution::Release => (EscrowStatus::Released, self.escrow.intermediary),
            DisputeResolution::Cancel => (EscrowStatus::Cancelled, self.escrow.sender),
        };
        let settlement = Settlement { beneficiary, amount: self.escrow.amount };
        self.vault = 0;
        self.escrow.status = status;
        Ok((DisputeResolvedEvent { resolution }, settlement))
    }
}

} // verus!
