//! Settlement core of a two-party escrow program on an account-based ledger:
//! the refund (cancellation) path and its account-validation framework.

pub mod account;
pub mod accounts;
pub mod addresses;
pub mod error;
pub mod escrow;
pub mod laws;
pub mod pda;
pub mod refund;
pub mod token;
