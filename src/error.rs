//! Failures of the processor and of the host ledger.

use vstd::prelude::*;

verus! {

/// A failure of one of the ledger's own primitives (account creation, transfer).
#[derive(Clone, Copy, Debug, PartialEq, Eq, Structural)]
pub enum HostError {
    /// The account to create already holds lamports or data.
    AccountAlreadyInUse,
    /// An account that must sign did not.
    MissingRequiredSignature,
    /// The paying account holds fewer lamports than it must give.
    InsufficientLamports,
    /// A balance would exceed `u64::MAX`.
    ArithmeticOverflow,
}

/// Why an invocation of the processor failed.
#[derive(Clone, Copy, Debug, PartialEq, Eq, Structural)]
pub enum ProcessError {
    /// The instruction bytes are neither a `Transfer` nor a `Reset`.
    MalformedInstruction,
    /// Fewer accounts were supplied than the instruction needs.
    MissingAccount,
    /// The payer holds less than the amount to transfer.
    InsufficientFunds,
    /// A required signer flag is not set.
    MissingSignature,
    /// The state account's buffer does not hold an encoded record.
    InvalidStateData,
    /// The running total would exceed `u64::MAX`.
    ArithmeticOverflow,
    /// A host primitive failed; its error is passed on unchanged.
    Host(HostError),
}

} // verus!
