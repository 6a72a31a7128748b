//! The ways in which a command or a query is refused.
use vstd::prelude::*;

verus! {

/// Which state forbids the operation.
#[derive(Debug, Clone, Copy, PartialEq, Eq, Structural)]
pub enum StateIssue {
    AlreadyAccepted,
    NotAccepted,
    AlreadyDone,
    AlreadyStopped,
    /// The fee withheld from an installment exceeds the installment.
    ChargeExceedsAmount,
}

/// Every refusal aborts the call and leaves the state unchanged.
#[derive(Debug, Clone, Copy, PartialEq, Eq, Structural)]
pub enum EscrowError {
    /// A malformed identity, a fee below one, a zero page size, or a due
    /// time past the clock's range.
    InvalidArgument,
    /// The caller is not the identity the operation requires.
    Unauthorized,
    InvalidState(StateIssue),
    /// The attached value is below the required total, or zero.
    InsufficientFunds,
    /// The agreed payment time has not come.
    TooEarly,
    /// No installment remains to be withdrawn.
    AlreadySettled,
    /// The payment condition is `No`: nothing is owed to the receiver.
    Canceled,
    /// The escrowed balance does not cover the movement.
    NothingReserved,
    /// No record under that id in that namespace.
    NotFound,
    /// Every invoice id has been issued.
    IdSpaceExhausted,
}

impl EscrowError {
    /// A short description for the caller.
    pub fn message(&self) -> &'static str {
        match self {
            EscrowError::InvalidArgument => "invalid argument",
            EscrowError::Unauthorized => "unauthorized",
            EscrowError::InvalidState(StateIssue::AlreadyAccepted) => "invoice has already been accepted",
            EscrowError::InvalidState(StateIssue::NotAccepted) => "invoice has not been accepted",
            EscrowError::InvalidState(StateIssue::AlreadyDone) => "invoice has been marked as done",
            EscrowError::InvalidState(StateIssue::AlreadyStopped) => "invoice has already been canceled",
            EscrowError::InvalidState(StateIssue::ChargeExceedsAmount) => "charge exceeds the installment",
            EscrowError::InsufficientFunds => "insufficient funds attached",
            EscrowError::TooEarly => "payment time has not been reached",
            EscrowError::AlreadySettled => "all payments have been made",
            EscrowError::Canceled => "invoice has been canceled",
            EscrowError::NothingReserved => "no payment reserved for this invoice",
            EscrowError::NotFound => "not found",
            EscrowError::IdSpaceExhausted => "invoice ids exhausted",
        }
    }
}

} // verus!
