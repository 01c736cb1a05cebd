//! The records that the engine hands to the event sink.
//!
//! Every record starts with a schema version, the ledger sequence number and
//! the ledger time of the call that wrote it, so that a reader of the sink
//! can follow changes of the schema.

use vstd::prelude::*;
use crate::ledger::Ledger;
use crate::principal::Principal;

verus! {

/// The schema version that every record carries.
pub const SCHEMA_VERSION: u32 = 1;

/// What happened, one variant for each kind of event.
#[derive(Clone, Copy, Debug, PartialEq, Eq, Structural)]
pub enum EventBody {
    RemittanceCreated {
        remittance_id: u64,
        sender: Principal,
        agent: Principal,
        token: Principal,
        amount: i128,
        fee: i128,
    },
    RemittanceCompleted {
        remittance_id: u64,
        sender: Principal,
        agent: Principal,
        token: Principal,
        amount: i128,
    },
    RemittanceCancelled {
        remittance_id: u64,
        sender: Principal,
        agent: Principal,
        token: Principal,
        amount: i128,
    },
    BatchSettlementStarted { batch_size: u32 },
    BatchSettlementCompleted { total_count: u32, success_count: u32, total_payout: i128 },
    BatchSettlementFailed { failed_at_index: u32, remittance_id: u64, reason: u32 },
    AgentRegistered { agent: Principal, admin: Principal },
    AgentRemoved { agent: Principal, admin: Principal },
    FeeUpdated { admin: Principal, old_fee_bps: u32, new_fee_bps: u32 },
    FeesWithdrawn { admin: Principal, recipient: Principal, token: Principal, amount: i128 },
}

/// One record of the event sink.
#[derive(Clone, Copy, Debug, PartialEq, Eq, Structural)]
pub struct Event {
    pub schema_version: u32,
    pub sequence: u32,
    pub timestamp: u64,
    pub body: EventBody,
}

/// The record that a call at the given ledger sequence and time writes for
/// `body`.
pub open spec fn stamped(sequence: u32, timestamp: u64, body: EventBody) -> Event {
    Event { schema_version: SCHEMA_VERSION, sequence, timestamp, body }
}

/// The topic under which a record is published, in its two parts: what the
/// record is about, and what happened to it.
pub open spec fn topic_of(body: EventBody) -> (Seq<char>, Seq<char>) {
    match body {
        EventBody::RemittanceCreated { .. } => ("remittance"@, "created"@),
        EventBody::RemittanceCompleted { .. } => ("remittance"@, "completed"@),
        EventBody::RemittanceCancelled { .. } => ("remittance"@, "cancelled"@),
        EventBody::BatchSettlementStarted { .. } => ("batch"@, "started"@),
        EventBody::BatchSettlementCompleted { .. } => ("batch"@, "completed"@),
        EventBody::BatchSettlementFailed { .. } => ("batch"@, "failed"@),
        EventBody::AgentRegistered { .. } => ("agent"@, "registered"@),
        EventBody::AgentRemoved { .. } => ("agent"@, "removed"@),
        EventBody::FeeUpdated { .. } => ("fee"@, "updated"@),
        EventBody::FeesWithdrawn { .. } => ("fee"@, "withdrawn"@),
    }
}

impl Event {
    /// The topic under which this record is published, in its two parts.
    pub fn topic(&self) -> (t: (&'static str, &'static str))
        ensures
            t.0@ == topic_of(self.body).0,
            t.1@ == topic_of(self.body).1,
    {
        match self.body {
            EventBody::RemittanceCreated { .. } => ("remittance", "created"),
            EventBody::RemittanceCompleted { .. } => ("remittance", "completed"),
            EventBody::RemittanceCancelled { .. } => ("remittance", "cancelled"),
            EventBody::BatchSettlementStarted { .. } => ("batch", "started"),
            EventBody::BatchSettlementCompleted { .. } => ("batch", "completed"),
            EventBody::BatchSettlementFailed { .. } => ("batch", "failed"),
            EventBody::AgentRegistered { .. } => ("agent", "registered"),
            EventBody::AgentRemoved { .. } => ("agent", "removed"),
            EventBody::FeeUpdated { .. } => ("fee", "updated"),
            EventBody::FeesWithdrawn { .. } => ("fee", "withdrawn"),
        }
    }
}

/// Tells the sink that a remittance was created.
pub fn emit_remittance_created(
    env: &mut Ledger,
    remittance_id: u64,
    sender: Principal,
    agent: Principal,
    token: Principal,
    amount: i128,
    fee: i128,
)
    ensures
        final(env)@ == old(env)@.publish(
            EventBody::RemittanceCreated { remittance_id, sender, agent, token, amount, fee },
        ),
{
    env.publish(EventBody::RemittanceCreated { remittance_id, sender, agent, token, amount, fee });
}

/// Tells the sink that a remittance was paid out; `amount` is the payout.
pub fn emit_remittance_completed(
    env: &mut Ledger,
    remittance_id: u64,
    sender: Principal,
    agent: Principal,
    token: Principal,
    amount: i128,
)
    ensures
        final(env)@ == old(env)@.publish(
            EventBody::RemittanceCompleted { remittance_id, sender, agent, token, amount },
        ),
{
    env.publish(EventBody::RemittanceCompleted { remittance_id, sender, agent, token, amount });
}

/// Tells the sink that a remittance was cancelled; `amount` is the refund.
pub fn emit_remittance_cancelled(
    env: &mut Ledger,
    remittance_id: u64,
    sender: Principal,
    agent: Principal,
    token: Principal,
    amount: i128,
)
    ensures
        final(env)@ == old(env)@.publish(
            EventBody::RemittanceCancelled { remittance_id, sender, agent, token, amount },
        ),
{
    env.publish(EventBody::RemittanceCancelled { remittance_id, sender, agent, token, amount });
}

/// Tells the sink that a batch of `batch_size` entries was taken up.
pub fn emit_batch_settlement_started(env: &mut Ledger, batch_size: u32)
    ensures
        final(env)@ == old(env)@.publish(EventBody::BatchSettlementStarted { batch_size }),
{
    env.publish(EventBody::BatchSettlementStarted { batch_size });
}

/// Tells the sink that a batch was settled in full.
pub fn emit_batch_settlement_completed(
    env: &mut Ledger,
    total_count: u32,
    success_count: u32,
    total_payout: i128,
)
    ensures
        final(env)@ == old(env)@.publish(
            EventBody::BatchSettlementCompleted { total_count, success_count, total_payout },
        ),
{
    env.publish(EventBody::BatchSettlementCompleted { total_count, success_count, total_payout });
}

/// Tells the sink which entry of a batch failed validation, and why.
pub fn emit_batch_settlement_failed(
    env: &mut Ledger,
    failed_at_index: u32,
    remittance_id: u64,
    reason: u32,
)
    ensures
        final(env)@ == old(env)@.publish(
            EventBody::BatchSettlementFailed { failed_at_index, remittance_id, reason },
        ),
{
    env.publish(EventBody::BatchSettlementFailed { failed_at_index, remittance_id, reason });
}

/// Tells the sink that `admin` registered `agent`.
pub fn emit_agent_registered(env: &mut Ledger, agent: Principal, admin: Principal)
    ensures
        final(env)@ == old(env)@.publish(EventBody::AgentRegistered { agent, admin }),
{
    env.publish(EventBody::AgentRegistered { agent, admin });
}

/// Tells the sink that `admin` removed `agent`.
pub fn emit_agent_removed(env: &mut Ledger, agent: Principal, admin: Principal)
    ensures
        final(env)@ == old(env)@.publish(EventBody::AgentRemoved { agent, admin }),
{
    env.publish(EventBody::AgentRemoved { agent, admin });
}

/// Tells the sink that `admin` changed the fee rate.
pub fn emit_fee_updated(env: &mut Ledger, admin: Principal, old_fee_bps: u32, new_fee_bps: u32)
    ensures
        final(env)@ == old(env)@.publish(EventBody::FeeUpdated { admin, old_fee_bps, new_fee_bps }),
{
    env.publish(EventBody::FeeUpdated { admin, old_fee_bps, new_fee_bps });
}

/// Tells the sink that `admin` withdrew the fee pool to `recipient`.
pub fn emit_fees_withdrawn(
    env: &mut Ledger,
    admin: Principal,
    recipient: Principal,
    token: Principal,
    amount: i128,
)
    ensures
        final(env)@ == old(env)@.publish(
            EventBody::FeesWithdrawn { admin, recipient, token, amount },
        ),
{
    env.publish(EventBody::FeesWithdrawn { admin, recipient, token, amount });
}

} // verus!
