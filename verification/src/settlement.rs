//! The settlement instruction a terminal transition hands to the asset
//! transfer service: move the whole deposit to one beneficiary.

use vstd::prelude::*;
use crate::states::AccountId;

verus! {

/// An order to move `amount` units out of the custody vault into the
/// account of `beneficiary`. Produced, exactly once, by each transition
/// into a terminal status; the ledger substrate executes it within the
/// same atomic step.
#[derive(Clone, Copy, Debug, PartialEq, Eq, Structural)]
pub struct Settlement {
    pub beneficiary: AccountId,
    pub amount: u64,
}

impl Settlement {
    /// The beneficiary's balance after this settlement is credited.
    pub fn apply(&self, balance: u64) -> (r: u64)
        requires
            balance + self.amount <= u64::MAX,
        ensures
            r == balance + self.amount,
    {
        balance + self.amount
    }
}

} // verus!
