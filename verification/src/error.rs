//! The reasons for which the ledger refuses an operation.

use vstd::prelude::*;

verus! {

/// Why an operation was refused. A refused operation changes nothing.
#[derive(Clone, Copy, Debug, PartialEq, Eq, Structural)]
pub enum MyError {
    /// The sender holds fewer points than the transfer asks for. Kept for
    /// callers that match on it; the ledger reports a shortfall as
    /// `Underflow`.
    NotEnoughPoints,
    /// A transfer of zero points.
    InvalidTransferAmount,
    /// The receiver's balance would exceed what a balance can hold.
    Overflow,
    /// The sender's balance would fall below zero.
    Underflow,
    /// The name is longer than `MAX_NAME_LENGTH` bytes.
    NameTooLong,
    /// The record was never created, or has been removed.
    AccountDoesNotExist,
    /// Sender and receiver are the same record.
    IdenticalAccounts,
    /// The signer is not the owner of the record.
    Unauthorized,
}

} // verus!
