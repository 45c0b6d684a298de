//! A ledger-resident lottery: an authority opens a lottery with a fixed
//! ticket price, buyers purchase numbered tickets by depositing funds into
//! the lottery's pooled balance, and the authority resolves the lottery by
//! deterministically selecting one winning ticket.
//!
//! The crate verifies the core state machine: the records (`state`), the
//! deterministic address derivation that links them (`addr`), the winner
//! derivation formula (`winner`), the four transitions (`ops`), and the
//! laws that hold across sequences of transitions (`laws`).

pub mod addr;
pub mod laws;
pub mod ops;
pub mod state;
pub mod winner;
