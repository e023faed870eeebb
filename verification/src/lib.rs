//! A pooled-deposit vault.
//!
//! Depositors receive proportional shares in a shared asset pool. An
//! administrator can inject yield, which raises the per-share rate, and
//! withdrawals settle through a two-phase, epoch-delayed request/claim
//! state machine rather than instantly.

pub mod constants;
pub mod errors;
pub mod ops;
pub mod rate;
pub mod state;
