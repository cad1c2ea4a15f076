//! Creation of an escrow record: the sender deposits the amount into a
//! fresh custody vault and names the other parties and the deadline.

use vstd::prelude::*;
use crate::states::{AccountId, Escrow, EscrowAccount, EscrowStatus, Timestamp};

verus! {

/// Why a creation request was rejected.
#[derive(Clone, Copy, Debug, PartialEq, Eq, Structural)]
pub enum InitializeError {
    /// The deposited amount must be positive.
    InvalidAmount,
    /// The sender's source account holds less than the amount to deposit.
    InsufficientSenderBalance,
}

/// Emitted on successful creation.
#[derive(Clone, Copy, Debug, PartialEq, Eq, Structural)]
pub struct InitializeEvent {
    pub sender: AccountId,
    pub intermediary: AccountId,
    pub receiver: AccountId,
    pub arbitrator: AccountId,
    pub amount: u64,
    pub deadline: Timestamp,
}

/// The record a successful creation commits: confirmation flags clear,
/// status `Pending`, the whole deposit in the vault.
pub open spec fn fresh_account(
    mint: AccountId,
    sender: AccountId,
    intermediary: AccountId,
    receiver: AccountId,
    arbitrator: AccountId,
    amount: u64,
    deadline: Timestamp,
) -> EscrowAccount {
    EscrowAccount {
        escrow: Escrow {
            sender,
            intermediary,
            receiver,
            arbitrator,
            mint,
            amount,
            deadline,
            intermediary_confirmed: false,
            receiver_confirmed: false,
            status: EscrowStatus::Pending,
        },
        vault: amount,
    }
}

impl EscrowAccount {
    /// Create an escrow record and move `amount` from the sender's source
    /// balance into the new custody vault.
    ///
    /// Fails with `InvalidAmount` if and only if `amount == 0`; otherwise
    /// fails with `InsufficientSenderBalance` if and only if
    /// `sender_balance < amount`. On success the returned pair is the
    /// well-formed fresh record and the sender's remaining balance.
    pub fn initialize(
        mint: AccountId,
        sender: AccountId,
        intermediary: AccountId,
        receiver: AccountId,
        arbitrator: AccountId,
        amount: u64,
        deadline: Timestamp,
        sender_balance: u64,
    ) -> (r: Result<(EscrowAccount, u64, InitializeEvent), InitializeError>)
        ensures
            amount == 0 ==> r == Err::<(EscrowAccount, u64, InitializeEvent), InitializeError>(
                InitializeError::InvalidAmount,
            ),
            amount > 0 && sender_balance < amount ==> r == Err::<
                (EscrowAccount, u64, InitializeEvent),
                InitializeError,
            >(InitializeError::InsufficientSenderBalance),
            amount > 0 && sender_balance >= amount ==> r == Ok::<
                (EscrowAccount, u64, InitializeEvent),
                InitializeError,
            >(
                (
                    fresh_account(mint, sender, intermediary, receiver, arbitrator, amount, deadline),
                    (sender_balance - amount) as u64,
                    InitializeEvent { sender, intermediary, receiver, arbitrator, amount, deadline },
                ),
            ),
            r matches Ok(t) ==> t.0.wf() && t.0.vault + t.1 == sender_balance,
    {
        if amount == 0 {
            return Err(InitializeError::InvalidAmount);
        }
        if sender_balance < amount {
            return Err(InitializeError::InsufficientSenderBalance);
        }
        let escrow = Escrow {
            sender,
            intermediary,
            receiver,
            arbitrator,
            mint,
            amount,
            deadline,
            intermediary_confirmed: false,
            receiver_confirmed: false,
            status: EscrowStatus::Pending,
        };
        let event = InitializeEvent { sender, intermediary, receiver, arbitrator, amount, deadline };
        Ok((EscrowAccount { escrow, vault: amount }, sender_balance - amount, event))
    }
}

} // verus!
