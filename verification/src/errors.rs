use vstd::prelude::*;

verus! {

/// The error kinds the ledger operations report.  Every failure is terminal
/// for the attempted operation: nothing is retried and no partial update
/// survives.
#[derive(Clone, Copy, Debug, PartialEq, Eq, Structural)]
pub enum EscrowError {
    /// The caller does not match the identity the operation expects.
    Unauthorized,
    /// The record's status does not permit the operation.
    InvalidStatus,
    /// A completed task escrow cannot be cancelled.
    TaskAlreadyCompleted,
    /// The paying agent does not match the assigned agent.
    WrongAgent,
    /// The signing or receiving human does not match the recorded identity.
    WrongHuman,
    /// A balance or escrowed amount is too low.
    InsufficientBalance,
    /// A numeric bound was violated.
    InvalidAmount,
    /// A free-text field exceeds its length bound.
    MemoTooLong,
    /// The human is banned by the trust registry.
    HumanBanned,
    /// The validity window of the agreement has elapsed.
    AcquisitionExpired,
}

} // verus!
