//! The state aggregate on which every operation works: the ledger's clock,
//! the keyed store, and the two queues that the host empties after a call.

use std::collections::HashMap;
use std::collections::HashSet;
use vstd::prelude::*;
use crate::errors::ContractError;
use crate::events::{stamped, Event, EventBody};
use crate::principal::Principal;
use crate::registry::{registered_in, AgentRegistry};
use crate::types::{Remittance, RemittanceStatus, Transfer};

verus! {

broadcast use vstd::std_specs::hash::group_hash_axioms;

/// What a [`Ledger`] holds, as mathematical values.
#[verifier::ext_equal]
pub struct LedgerState {
    /// The ledger sequence number of the call in progress.
    pub sequence: u32,
    /// The ledger time of the call in progress.
    pub timestamp: u64,
    /// The administrator, once the engine is initialized.
    pub admin: Option<Principal>,
    /// The asset in which value is held and paid.
    pub usdc_token: Option<Principal>,
    /// The fee rate for remittances created from now on, in basis points.
    pub platform_fee_bps: Option<u32>,
    /// The id of the remittance created last.
    pub remittance_counter: Option<u64>,
    /// The fee pool.
    pub accumulated_fees: Option<i128>,
    /// The agent registry.
    pub agents: Map<Principal, bool>,
    /// The remittances, by id.
    pub remittances: Map<u64, Remittance>,
    /// The ids that carry a settlement marker.
    pub settlements: Set<u64>,
    /// The movements of value that the host has yet to carry out.
    pub transfers: Seq<Transfer>,
    /// The records that the host has yet to publish.
    pub events: Seq<Event>,
}

impl LedgerState {
    /// This state with one more record for the sink, stamped with the
    /// sequence number and time of the call in progress.
    pub open spec fn publish(self, body: EventBody) -> LedgerState {
        LedgerState { events: self.events.push(stamped(self.sequence, self.timestamp, body)), ..self }
    }

    /// This state with one more movement of value queued.
    pub open spec fn transfer(self, transfer: Transfer) -> LedgerState {
        LedgerState { transfers: self.transfers.push(transfer), ..self }
    }

    /// Whether `agent` may receive payouts.
    pub open spec fn is_agent_registered(self, agent: Principal) -> bool {
        registered_in(self.agents, agent)
    }

    /// The state of a ledger whose store and queues are empty.
    pub open spec fn empty(sequence: u32, timestamp: u64) -> LedgerState {
        LedgerState {
            sequence,
            timestamp,
            admin: None,
            usdc_token: None,
            platform_fee_bps: None,
            remittance_counter: None,
            accumulated_fees: None,
            agents: Map::empty(),
            remittances: Map::empty(),
            settlements: Set::empty(),
            transfers: Seq::empty(),
            events: Seq::empty(),
        }
    }
}

/// The state aggregate. The host fills it from durable storage before a call
/// and writes it back after one that succeeded; it carries out the queued
/// transfers and publishes the queued records.
pub struct Ledger {
    sequence: u32,
    timestamp: u64,
    admin: Option<Principal>,
    usdc_token: Option<Principal>,
    platform_fee_bps: Option<u32>,
    remittance_counter: Option<u64>,
    accumulated_fees: Option<i128>,
    agents: AgentRegistry,
    remittances: HashMap<u64, Remittance>,
    settlements: HashSet<u64>,
    transfers: Vec<Transfer>,
    events: Vec<Event>,
}

impl View for Ledger {
    type V = LedgerState;

    closed spec fn view(&self) -> LedgerState {
        LedgerState {
            sequence: self.sequence,
            timestamp: self.timestamp,
            admin: self.admin,
            usdc_token: self.usdc_token,
            platform_fee_bps: self.platform_fee_bps,
            remittance_counter: self.remittance_counter,
            accumulated_fees: self.accumulated_fees,
            agents: self.agents@,
            remittances: self.remittances@,
            settlements: self.settlements@,
            transfers: self.transfers@,
            events: self.events@,
        }
    }
}

impl Ledger {
    /// A ledger with an empty store and empty queues, at the given sequence
    /// number and time.
    pub fn new(sequence: u32, timestamp: u64) -> (env: Ledger)
        ensures
            env@ == LedgerState::empty(sequence, timestamp),
    {
        Ledger {
            sequence,
            timestamp,
            admin: None,
            usdc_token: None,
            platform_fee_bps: None,
            remittance_counter: None,
            accumulated_fees: None,
            agents: AgentRegistry::new(),
            remittances: HashMap::new(),
            settlements: HashSet::new(),
            transfers: Vec::new(),
            events: Vec::new(),
        }
    }

    /// The ledger sequence number of the call in progress.
    pub fn sequence(&self) -> (sequence: u32)
        ensures
            sequence == self@.sequence,
    {
        self.sequence
    }

    /// The ledger time of the call in progress.
    pub fn timestamp(&self) -> (timestamp: u64)
        ensures
            timestamp == self@.timestamp,
    {
        self.timestamp
    }

    /// Moves the clock to the ledger in which the next call runs.
    pub fn set_time(&mut self, sequence: u32, timestamp: u64)
        ensures
            final(self)@ == (LedgerState { sequence, timestamp, ..old(self)@ }),
    {
        self.sequence = sequence;
        self.timestamp = timestamp;
    }

    /// Whether the store holds an administrator.
    pub fn has_admin(&self) -> (b: bool)
        ensures
            b == self@.admin.is_some(),
    {
        self.admin.is_some()
    }

    /// The administrator, or `NotFound`.
    pub fn get_admin(&self) -> (result: Result<Principal, ContractError>)
        ensures
            result == found(self@.admin),
    {
        match self.admin {
            Some(admin) => Ok(admin),
            None => Err(ContractError::NotFound),
        }
    }

    /// Stores the administrator.
    pub fn set_admin(&mut self, admin: &Principal)
        ensures
            final(self)@ == (LedgerState { admin: Some(*admin), ..old(self)@ }),
    {
        self.admin = Some(*admin);
    }

    /// The asset in which value is held, or `NotFound`.
    pub fn get_usdc_token(&self) -> (result: Result<Principal, ContractError>)
        ensures
            result == found(self@.usdc_token),
    {
        match self.usdc_token {
            Some(token) => Ok(token),
            None => Err(ContractError::NotFound),
        }
    }

    /// Stores the asset in which value is held.
    pub fn set_usdc_token(&mut self, token: &Principal)
        ensures
            final(self)@ == (LedgerState { usdc_token: Some(*token), ..old(self)@ }),
    {
        self.usdc_token = Some(*token);
    }

    /// The fee rate in basis points, or `NotFound`.
    pub fn get_platform_fee_bps(&self) -> (result: Result<u32, ContractError>)
        ensures
            result == found(self@.platform_fee_bps),
    {
        match self.platform_fee_bps {
            Some(fee_bps) => Ok(fee_bps),
            None => Err(ContractError::NotFound),
        }
    }

    /// Stores the fee rate.
    pub fn set_platform_fee_bps(&mut self, fee_bps: u32)
        ensures
            final(self)@ == (LedgerState { platform_fee_bps: Some(fee_bps), ..old(self)@ }),
    {
        self.platform_fee_bps = Some(fee_bps);
    }

    /// The id of the remittance created last, or `NotFound`.
    pub fn get_remittance_counter(&self) -> (result: Result<u64, ContractError>)
        ensures
            result == found(self@.remittance_counter),
    {
        match self.remittance_counter {
            Some(counter) => Ok(counter),
            None => Err(ContractError::NotFound),
        }
    }

    /// Stores the remittance counter.
    pub fn set_remittance_counter(&mut self, counter: u64)
        ensures
            final(self)@ == (LedgerState { remittance_counter: Some(counter), ..old(self)@ }),
    {
        self.remittance_counter = Some(counter);
    }

    /// The fee pool, or `NotFound`.
    pub fn get_accumulated_fees(&self) -> (result: Result<i128, ContractError>)
        ensures
            result == found(self@.accumulated_fees),
    {
        match self.accumulated_fees {
            Some(fees) => Ok(fees),
            None => Err(ContractError::NotFound),
        }
    }

    /// Stores the fee pool.
    pub fn set_accumulated_fees(&mut self, fees: i128)
        ensures
            final(self)@ == (LedgerState { accumulated_fees: Some(fees), ..old(self)@ }),
    {
        self.accumulated_fees = Some(fees);
    }

    /// Whether `agent` may receive payouts.
    pub fn is_agent_registered(&self, agent: &Principal) -> (b: bool)
        ensures
            b == self@.is_agent_registered(*agent),
    {
        self.agents.is_registered(agent)
    }

    /// Stores whether `agent` may receive payouts.
    pub fn set_agent_registered(&mut self, agent: &Principal, registered: bool)
        ensures
            final(self)@ == (LedgerState {
                agents: old(self)@.agents.insert(*agent, registered),
                ..old(self)@
            }),
    {
        self.agents.set(*agent, registered);
    }

    /// The remittance stored under `remittance_id`, or `NotFound`.
    pub fn get_remittance(&self, remittance_id: u64) -> (result: Result<Remittance, ContractError>)
        ensures
            result == found(
                if self@.remittances.contains_key(remittance_id) {
                    Some(self@.remittances[remittance_id])
                } else {
                    None
                },
            ),
    {
        match self.remittances.get(&remittance_id) {
            Some(remittance) => Ok(*remittance),
            None => Err(ContractError::NotFound),
        }
    }

    /// Stores `remittance` under `remittance_id`.
    pub fn set_remittance(&mut self, remittance_id: u64, remittance: &Remittance)
        ensures
            final(self)@ == (LedgerState {
                remittances: old(self)@.remittances.insert(remittance_id, *remittance),
                ..old(self)@
            }),
    {
        self.remittances.insert(remittance_id, *remittance);
    }

    /// Sets the status of the remittance stored under `remittance_id`, and
    /// nothing else of it. Where no such remittance exists the store stays as
    /// it is.
    pub fn set_remittance_status(&mut self, remittance_id: u64, status: RemittanceStatus)
        ensures
            final(self)@ == (LedgerState {
                remittances: if old(self)@.remittances.contains_key(remittance_id) {
                    old(self)@.remittances.insert(
                        remittance_id,
                        old(self)@.remittances[remittance_id].with_status(status),
                    )
                } else {
                    old(self)@.remittances
                },
                ..old(self)@
            }),
    {
        if let Some(remittance) = self.remittances.get(&remittance_id) {
            let updated = Remittance {
                id: remittance.id,
                sender: remittance.sender,
                agent: remittance.agent,
                amount: remittance.amount,
                fee: remittance.fee,
                status,
                expiry: remittance.expiry,
            };
            self.remittances.insert(remittance_id, updated);
        }
    }

    /// Whether `remittance_id` carries a settlement marker.
    pub fn has_settlement_hash(&self, remittance_id: u64) -> (b: bool)
        ensures
            b == self@.settlements.contains(remittance_id),
    {
        self.settlements.contains(&remittance_id)
    }

    /// Sets the settlement marker of `remittance_id`.
    pub fn set_settlement_hash(&mut self, remittance_id: u64)
        ensures
            final(self)@ == (LedgerState {
                settlements: old(self)@.settlements.insert(remittance_id),
                ..old(self)@
            }),
    {
        self.settlements.insert(remittance_id);
    }

    /// Queues a movement of value for the host.
    pub fn transfer(&mut self, transfer: Transfer)
        ensures
            final(self)@ == old(self)@.transfer(transfer),
    {
        self.transfers.push(transfer);
    }

    /// Queues a record for the sink, stamped with the sequence number and
    /// time of the call in progress.
    pub fn publish(&mut self, body: EventBody)
        ensures
            final(self)@ == old(self)@.publish(body),
    {
        let event = Event {
            schema_version: crate::events::SCHEMA_VERSION,
            sequence: self.sequence,
            timestamp: self.timestamp,
            body,
        };
        self.events.push(event);
    }

    /// The movements of value that are queued, oldest first.
    pub fn transfers(&self) -> (queued: &Vec<Transfer>)
        ensures
            queued@ == self@.transfers,
    {
        &self.transfers
    }

    /// The records that are queued, oldest first.
    pub fn events(&self) -> (queued: &Vec<Event>)
        ensures
            queued@ == self@.events,
    {
        &self.events
    }

    /// Hands the queued movements of value to the host and empties the queue.
    pub fn take_transfers(&mut self) -> (queued: Vec<Transfer>)
        ensures
            queued@ == old(self)@.transfers,
            final(self)@ == (LedgerState { transfers: Seq::empty(), ..old(self)@ }),
    {
        let mut queued: Vec<Transfer> = Vec::new();
        std::mem::swap(&mut self.transfers, &mut queued);
        queued
    }

    /// Hands the queued records to the host and empties the queue.
    pub fn take_events(&mut self) -> (queued: Vec<Event>)
        ensures
            queued@ == old(self)@.events,
            final(self)@ == (LedgerState { events: Seq::empty(), ..old(self)@ }),
    {
        let mut queued: Vec<Event> = Vec::new();
        std::mem::swap(&mut self.events, &mut queued);
        queued
    }
}

/// What a read of the store returns for a key that holds `value`.
pub open spec fn found<T>(value: Option<T>) -> Result<T, ContractError> {
    match value {
        Some(v) => Ok(v),
        None => Err(ContractError::NotFound),
    }
}

} // verus!
