//! A settlement engine for cross-border remittances.
//!
//! A sender deposits value into custody, a registered payout agent later
//! claims it less a platform fee, or the sender cancels before payout. The
//! engine works on one explicit state aggregate, the [`Ledger`]; every
//! operation either commits as a whole or leaves the aggregate untouched.

pub mod batch;
pub mod contract;
pub mod errors;
pub mod events;
pub mod fees;
pub mod invariants;
pub mod laws;
pub mod ledger;
pub mod principal;
pub mod registry;
pub mod types;
pub mod validation;

pub use batch::{validate_entry, ValidationFailure};
pub use contract::SwiftRemitContract;
pub use errors::ContractError;
pub use events::{
    emit_agent_registered, emit_agent_removed, emit_batch_settlement_completed,
    emit_batch_settlement_failed, emit_batch_settlement_started, emit_fee_updated,
    emit_fees_withdrawn, emit_remittance_cancelled, emit_remittance_completed,
    emit_remittance_created, Event, EventBody, SCHEMA_VERSION,
};
pub use fees::{compute_fee, compute_payout, BPS_DENOMINATOR, MAX_FEE_BPS};
pub use ledger::{Ledger, LedgerState};
pub use principal::{Authorization, Principal, ACCOUNT_KEY, CONTRACT_KEY};
pub use registry::{AgentEntry, AgentRegistry};
pub use types::{
    BatchSettleEntry, BatchSettleResult, Remittance, RemittanceStatus, Transfer,
    ValidatedSettlement,
};
pub use validation::{validate_address, validate_fee_bps};
