//! The error variants an operation can be rejected with. A rejected operation
//! leaves every ledger exactly as it was; the caller receives a specific
//! variant so that tooling can tell "insufficient health factor" from
//! "not authorized" from "insufficient balance".

use vstd::prelude::*;

verus! {

/// Failures with the semantics of the persistence layer: loading a position
/// that has no recorded entry, or decrementing a recorded balance by more
/// than it holds.
#[derive(Clone, Copy, Debug, PartialEq, Eq, Structural)]
pub enum StdError {
    /// The loaded entry does not exist.
    NotFound {},
    /// Arithmetic underflow on a ledger decrement: the recorded balance is
    /// smaller than the amount to subtract.
    Overflow {},
}

/// Every way an operation can fail.
#[derive(Debug)]
pub enum ContractError {
    /// Propagated storage failure, see [`StdError`].
    Std(StdError),
    /// Initialization failed.
    InstantiateFailed {},
    /// Not enough native funds were sent.
    TransferFailed {},
    /// The operation would leave the account's health factor at zero.
    HealthFactorLess {},
    /// Liquidation was attempted on a solvent position.
    HealthFactorSafe {},
    /// An administrative action by someone other than the owner.
    NOTOWNER {},
    /// The synthetic-token identity was already bound once.
    TOKENSET {},
    /// A custom failure with a free-form message.
    CustomError { val: String },
    /// A reply arrived with an identifier nothing waits for.
    UnknownReplyId { id: u64 },
}

/// The storage error for a missing entry, wrapped as an operation failure.
pub open spec fn is_not_found(e: ContractError) -> bool {
    e matches ContractError::Std(s) && s is NotFound
}

/// The storage error for a ledger decrement that would underflow, wrapped as
/// an operation failure.
pub open spec fn is_underflow(e: ContractError) -> bool {
    e matches ContractError::Std(s) && s is Overflow
}

} // verus!
