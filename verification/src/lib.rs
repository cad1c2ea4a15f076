//! A multi-party conditional escrow, modelled as a verified state machine.
//!
//! A sender deposits a fixed amount of a fungible asset into a custody
//! vault, naming an intermediary, a receiver and an arbitrator, together
//! with a deadline. The funds are released to the intermediary once both
//! intermediary and receiver have confirmed, may be refunded to the sender
//! under deadline rules, and may be diverted into arbitration if a party
//! disputes. Every transition is a total function from the current record,
//! the caller's identity and the current time to the next record, and each
//! executable operation is proved equal to that function.

pub mod cancel;
pub mod confirm;
pub mod dispute;
pub mod initialize;
pub mod laws;
pub mod release;
pub mod resolve_dispute;
pub mod revoke;
pub mod settlement;
pub mod states;
