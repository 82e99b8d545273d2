//! A small ledger program: it moves lamports from a payer to a recipient,
//! provisions the accounts it needs on first use, and keeps a persisted
//! running total of everything it has transferred.

pub mod codec;
pub mod error;
pub mod instruction;
pub mod account;
pub mod host;
pub mod processor;
pub mod laws;
