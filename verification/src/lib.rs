//! A staking-escrow ledger state machine.
//!
//! Players lock a fungible-asset stake to enter a numbered game match; the
//! stored administrator later declares a winner, and the pooled stake is
//! split between the winner and a platform fee paid to the administrator.
//! The state machine is pure: the host environment performs the actual
//! asset transfers described by the receipts these operations return, and
//! commits or discards the state as a single atomic unit.

pub mod errors;
pub mod escrow;
pub mod laws;
