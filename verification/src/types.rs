//! The records that the engine keeps and hands out.

use vstd::prelude::*;
use crate::principal::Principal;

verus! {

/// Where a remittance stands in its life. `Pending` is the only state that
/// has a way out.
#[derive(Clone, Copy, Debug, PartialEq, Eq, Structural)]
pub enum RemittanceStatus {
    Pending,
    Completed,
    Cancelled,
}

/// One remittance: who sent it, who pays it out, how much, and the fee that
/// was fixed when it was created.
#[derive(Clone, Copy, Debug, PartialEq, Eq, Structural)]
pub struct Remittance {
    pub id: u64,
    pub sender: Principal,
    pub agent: Principal,
    pub amount: i128,
    pub fee: i128,
    pub status: RemittanceStatus,
    pub expiry: Option<u64>,
}

impl Remittance {
    /// What holds of every record that `create_remittance` writes: a positive
    /// amount, and a fee between zero and the amount.
    pub open spec fn fee_within_amount(self) -> bool {
        0 < self.amount && 0 <= self.fee <= self.amount
    }

    /// This record with another status and nothing else changed.
    pub open spec fn with_status(self, status: RemittanceStatus) -> Remittance {
        Remittance { status, ..self }
    }
}

/// One entry of a batch: the remittance to settle.
#[derive(Clone, Copy, Debug, PartialEq, Eq, Structural)]
pub struct BatchSettleEntry {
    pub remittance_id: u64,
}

/// What became of one entry of a batch that was settled.
#[derive(Clone, Copy, Debug, PartialEq, Eq, Structural)]
pub struct BatchSettleResult {
    pub remittance_id: u64,
    pub success: bool,
    pub payout_amount: i128,
}

/// An entry of a batch that has passed validation, with what its execution
/// needs.
#[derive(Clone, Copy, Debug, PartialEq, Eq, Structural)]
pub struct ValidatedSettlement {
    pub remittance_id: u64,
    pub agent: Principal,
    pub payout_amount: i128,
    pub fee: i128,
    pub sender: Principal,
}

/// A movement of value that an operation asks the host to carry out.
#[derive(Clone, Copy, Debug, PartialEq, Eq, Structural)]
pub enum Transfer {
    /// From a principal into custody.
    Deposit { from: Principal, amount: i128 },
    /// Out of custody to a principal.
    Release { to: Principal, amount: i128 },
}

} // verus!
