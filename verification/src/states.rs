//! The escrow record, its lifecycle states and its well-formedness invariant.

use vstd::prelude::*;

verus! {

/// The identity of a party, as the ledger substrate names accounts.
pub type AccountId = u64;

/// An absolute timestamp supplied by the substrate's clock.
pub type Timestamp = i64;

/// The authoritative lifecycle state of an escrow record.
///
/// `Cancelled` and `Released` are terminal: no transition leaves them.
#[derive(Clone, Copy, Debug, PartialEq, Eq, Structural)]
pub enum EscrowStatus {
    Pending,
    Confirmed,
    Disputed,
    Cancelled,
    Released,
}

/// The persistent escrow record: the four roles, the asset held, the
/// deposited amount, the confirmation deadline, the two confirmation
/// flags and the lifecycle status.
#[derive(Clone, Copy, Debug, PartialEq, Eq, Structural)]
pub struct Escrow {
    pub sender: AccountId,
    pub intermediary: AccountId,
    pub receiver: AccountId,
    pub arbitrator: AccountId,
    pub mint: AccountId,
    pub amount: u64,
    pub deadline: Timestamp,
    pub intermediary_confirmed: bool,
    pub receiver_confirmed: bool,
    pub status: EscrowStatus,
}

/// An escrow record together with the balance of its custody vault, the
/// account that exclusively holds the deposited asset for this record.
#[derive(Clone, Copy, Debug, PartialEq, Eq, Structural)]
pub struct EscrowAccount {
    pub escrow: Escrow,
    pub vault: u64,
}

/// A status from which no transition may leave.
pub open spec fn is_terminal(s: EscrowStatus) -> bool {
    s == EscrowStatus::Cancelled || s == EscrowStatus::Released
}

/// The edges of the lifecycle diagram. A step that leaves the status in
/// place is always legal; otherwise the pair must be one of the listed
/// directed edges.
pub open spec fn status_edge_ok(pre: EscrowStatus, post: EscrowStatus) -> bool {
    ||| pre == post
    ||| (pre == EscrowStatus::Pending && post == EscrowStatus::Confirmed)
    ||| (pre == EscrowStatus::Pending && post == EscrowStatus::Disputed)
    ||| (pre == EscrowStatus::Pending && post == EscrowStatus::Cancelled)
    ||| (pre == EscrowStatus::Confirmed && post == EscrowStatus::Disputed)
    ||| (pre == EscrowStatus::Confirmed && post == EscrowStatus::Released)
    ||| (pre == EscrowStatus::Confirmed && post == EscrowStatus::Cancelled)
    ||| (pre == EscrowStatus::Disputed && post == EscrowStatus::Released)
    ||| (pre == EscrowStatus::Disputed && post == EscrowStatus::Cancelled)
}

impl Escrow {
    /// Whether `who` is one of the four named parties of this record.
    pub open spec fn is_participant(self, who: AccountId) -> bool {
        ||| who == self.sender
        ||| who == self.intermediary
        ||| who == self.receiver
        ||| who == self.arbitrator
    }
}

impl EscrowAccount {
    /// The well-formedness invariant, holding at every observable boundary:
    /// the deposit is positive; a `Confirmed` record carries both
    /// confirmation flags; the vault holds exactly `amount` while the
    /// record is live, and exactly `0` once it is terminal.
    pub open spec fn wf(self) -> bool {
        &&& self.escrow.amount > 0
        &&& (self.escrow.status == EscrowStatus::Confirmed ==> self.escrow.intermediary_confirmed
            && self.escrow.receiver_confirmed)
        &&& (!is_terminal(self.escrow.status) ==> self.vault == self.escrow.amount)
        &&& (is_terminal(self.escrow.status) ==> self.vault == 0)
    }

    /// Runtime check of the well-formedness invariant, for callers outside
    /// verified code.
    pub fn check_wf(&self) -> (b: bool)
        ensures
            b == self.wf(),
    {
        let live = match self.escrow.status {
            EscrowStatus::Cancelled => false,
            EscrowStatus::Released => false,
            _ => true,
        };
        let confirmed_ok = match self.escrow.status {
            EscrowStatus::Confirmed => self.escrow.intermediary_confirmed
                && self.escrow.receiver_confirmed,
            _ => true,
        };
        self.escrow.amount > 0 && confirmed_ok && (if live {
            self.vault == self.escrow.amount
        } else {
            self.vault == 0
        })
    }
}

} // verus!
