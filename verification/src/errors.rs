//! The failures that an operation of the engine can report.

use vstd::prelude::*;

verus! {

/// Why an operation was refused. Every failure leaves the ledger as it was.
#[derive(Clone, Copy, Debug, PartialEq, Eq, Structural)]
pub enum ContractError {
    /// `initialize` was called on a ledger that already has an admin.
    AlreadyInitialized,
    /// A fee rate above 10000 basis points.
    InvalidFeeBps,
    /// The payout agent named at creation is not in the agent registry.
    AgentNotRegistered,
    /// A remittance amount that is zero or negative.
    InvalidAmount,
    /// An intermediate or final value left the 128-bit signed range, or the
    /// remittance counter left the 64-bit unsigned range.
    Overflow,
    /// The remittance is not `Pending`.
    InvalidStatus,
    /// A settlement marker already exists for the remittance.
    DuplicateSettlement,
    /// The ledger time is past the remittance's expiry.
    SettlementExpired,
    /// A principal that is neither an account key nor a contract key.
    InvalidAddress,
    /// The fee pool is empty.
    NoFeesToWithdraw,
    /// A batch without entries.
    BatchEmpty,
    /// An entry of a batch failed validation; nothing was settled.
    BatchValidationFailed,
    /// A value that the operation needs is absent from the store.
    NotFound,
}

} // verus!
