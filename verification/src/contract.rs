//! The operations of the engine on single remittances, and its
//! administration.
//!
//! Each operation is described twice: by a pair of spec functions on
//! [`LedgerState`], the outcome and the state after the call, and by the
//! executable function whose contract says that it computes exactly these.
//! An operation that fails leaves the state as it was.

use vstd::prelude::*;
use crate::errors::ContractError;
use crate::events::{
    emit_agent_registered, emit_agent_removed, emit_fee_updated, emit_fees_withdrawn,
    emit_remittance_cancelled, emit_remittance_completed, emit_remittance_created, EventBody,
};
use crate::fees::{compute_fee, compute_payout, fee_of, fits_i128, MAX_FEE_BPS};
use crate::ledger::{Ledger, LedgerState};
use crate::principal::{Authorization, Principal};
use crate::types::{Remittance, RemittanceStatus, Transfer};
use crate::validation::{validate_address, validate_fee_bps};

verus! {

/// The engine. Its operations are associated functions that work on the
/// [`Ledger`] handed to them.
pub struct SwiftRemitContract;

/// What the administrative operations ask of the caller: where the store holds an
/// administrator, the caller must control it.
pub open spec fn admin_authorized(s: LedgerState, auth: Authorization) -> bool {
    s.admin matches Some(admin) ==> auth.permits(admin)
}

/// What `confirm_payout` asks of the caller: where the remittance exists, the caller must
/// control the agent stored on it.
pub open spec fn agent_authorized(s: LedgerState, auth: Authorization, remittance_id: u64) -> bool {
    s.remittances.contains_key(remittance_id) ==> auth.permits(s.remittances[remittance_id].agent)
}

/// What `cancel_remittance` asks of the caller: where the remittance exists, the caller
/// must control the sender stored on it.
pub open spec fn sender_authorized(s: LedgerState, auth: Authorization, remittance_id: u64) -> bool {
    s.remittances.contains_key(remittance_id) ==> auth.permits(s.remittances[remittance_id].sender)
}

/// Whether `initialize` succeeds.
pub open spec fn initialize_outcome(s: LedgerState, fee_bps: u32) -> Result<(), ContractError> {
    if s.admin.is_some() {
        Err(ContractError::AlreadyInitialized)
    } else if fee_bps > MAX_FEE_BPS {
        Err(ContractError::InvalidFeeBps)
    } else {
        Ok(())
    }
}

/// The state after `initialize`.
pub open spec fn initialize_effect(
    s: LedgerState,
    admin: Principal,
    usdc_token: Principal,
    fee_bps: u32,
) -> LedgerState {
    if initialize_outcome(s, fee_bps).is_ok() {
        LedgerState {
            admin: Some(admin),
            usdc_token: Some(usdc_token),
            platform_fee_bps: Some(fee_bps),
            remittance_counter: Some(0),
            accumulated_fees: Some(0),
            ..s
        }
    } else {
        s
    }
}

/// Whether `register_agent` or `remove_agent` succeeds.
pub open spec fn agent_change_outcome(s: LedgerState) -> Result<(), ContractError> {
    if s.admin.is_none() {
        Err(ContractError::NotFound)
    } else {
        Ok(())
    }
}

/// The state after `register_agent`.
pub open spec fn register_agent_effect(s: LedgerState, agent: Principal) -> LedgerState {
    if agent_change_outcome(s).is_ok() {
        LedgerState { agents: s.agents.insert(agent, true), ..s }.publish(
            EventBody::AgentRegistered { agent, admin: s.admin.unwrap() },
        )
    } else {
        s
    }
}

/// The state after `remove_agent`.
pub open spec fn remove_agent_effect(s: LedgerState, agent: Principal) -> LedgerState {
    if agent_change_outcome(s).is_ok() {
        LedgerState { agents: s.agents.insert(agent, false), ..s }.publish(
            EventBody::AgentRemoved { agent, admin: s.admin.unwrap() },
        )
    } else {
        s
    }
}

/// Whether `update_fee` succeeds.
pub open spec fn update_fee_outcome(s: LedgerState, fee_bps: u32) -> Result<(), ContractError> {
    if s.admin.is_none() {
        Err(ContractError::NotFound)
    } else if fee_bps > MAX_FEE_BPS {
        Err(ContractError::InvalidFeeBps)
    } else {
        Ok(())
    }
}

/// The state after `update_fee`. The record for the sink is formed after the
/// rate is written, and both of its rates are read then.
pub open spec fn update_fee_effect(s: LedgerState, fee_bps: u32) -> LedgerState {
    if update_fee_outcome(s, fee_bps).is_ok() {
        LedgerState { platform_fee_bps: Some(fee_bps), ..s }.publish(
            EventBody::FeeUpdated {
                admin: s.admin.unwrap(),
                old_fee_bps: fee_bps,
                new_fee_bps: fee_bps,
            },
        )
    } else {
        s
    }
}

/// The id that `create_remittance` returns, or why it fails.
pub open spec fn create_remittance_outcome(s: LedgerState, agent: Principal, amount: i128) -> Result<
    u64,
    ContractError,
> {
    if amount <= 0 {
        Err(ContractError::InvalidAmount)
    } else if !s.is_agent_registered(agent) {
        Err(ContractError::AgentNotRegistered)
    } else if s.platform_fee_bps.is_none() {
        Err(ContractError::NotFound)
    } else if !fits_i128(amount * s.platform_fee_bps.unwrap()) {
        Err(ContractError::Overflow)
    } else if s.usdc_token.is_none() {
        Err(ContractError::NotFound)
    } else if s.remittance_counter.is_none() {
        Err(ContractError::NotFound)
    } else if s.remittance_counter.unwrap() == u64::MAX {
        Err(ContractError::Overflow)
    } else {
        Ok((s.remittance_counter.unwrap() + 1) as u64)
    }
}

/// The record that `create_remittance` writes where it succeeds.
pub open spec fn created_remittance(
    s: LedgerState,
    sender: Principal,
    agent: Principal,
    amount: i128,
    expiry: Option<u64>,
) -> Remittance {
    Remittance {
        id: (s.remittance_counter.unwrap() + 1) as u64,
        sender,
        agent,
        amount,
        fee: fee_of(amount as int, s.platform_fee_bps.unwrap() as int) as i128,
        status: RemittanceStatus::Pending,
        expiry,
    }
}

/// The state after `create_remittance`.
pub open spec fn create_remittance_effect(
    s: LedgerState,
    sender: Principal,
    agent: Principal,
    amount: i128,
    expiry: Option<u64>,
) -> LedgerState {
    if create_remittance_outcome(s, agent, amount).is_ok() {
        let r = created_remittance(s, sender, agent, amount, expiry);
        LedgerState {
            remittances: s.remittances.insert(r.id, r),
            remittance_counter: Some(r.id),
            ..s
        }.transfer(Transfer::Deposit { from: sender, amount }).publish(
            EventBody::RemittanceCreated {
                remittance_id: r.id,
                sender,
                agent,
                token: s.usdc_token.unwrap(),
                amount,
                fee: r.fee,
            },
        )
    } else {
        s
    }
}

/// Whether the ledger time is past the expiry of `r`.
pub open spec fn expired(r: Remittance, timestamp: u64) -> bool {
    r.expiry matches Some(expiry_time) && timestamp > expiry_time
}

/// Whether `confirm_payout` succeeds.
pub open spec fn confirm_payout_outcome(s: LedgerState, remittance_id: u64) -> Result<
    (),
    ContractError,
> {
    if !s.remittances.contains_key(remittance_id) {
        Err(ContractError::NotFound)
    } else {
        let r = s.remittances[remittance_id];
        if r.status != RemittanceStatus::Pending {
            Err(ContractError::InvalidStatus)
        } else if s.settlements.contains(remittance_id) {
            Err(ContractError::DuplicateSettlement)
        } else if expired(r, s.timestamp) {
            Err(ContractError::SettlementExpired)
        } else if !r.agent.well_formed() {
            Err(ContractError::InvalidAddress)
        } else if !fits_i128(r.amount - r.fee) {
            Err(ContractError::Overflow)
        } else if s.usdc_token.is_none() {
            Err(ContractError::NotFound)
        } else if s.accumulated_fees.is_none() {
            Err(ContractError::NotFound)
        } else if !fits_i128(s.accumulated_fees.unwrap() + r.fee) {
            Err(ContractError::Overflow)
        } else {
            Ok(())
        }
    }
}

/// The state after `confirm_payout`.
pub open spec fn confirm_payout_effect(s: LedgerState, remittance_id: u64) -> LedgerState {
    if confirm_payout_outcome(s, remittance_id).is_ok() {
        let r = s.remittances[remittance_id];
        let payout = (r.amount - r.fee) as i128;
        LedgerState {
            accumulated_fees: Some((s.accumulated_fees.unwrap() + r.fee) as i128),
            remittances: s.remittances.insert(
                remittance_id,
                r.with_status(RemittanceStatus::Completed),
            ),
            settlements: s.settlements.insert(remittance_id),
            ..s
        }.transfer(Transfer::Release { to: r.agent, amount: payout }).publish(
            EventBody::RemittanceCompleted {
                remittance_id,
                sender: r.sender,
                agent: r.agent,
                token: s.usdc_token.unwrap(),
                amount: payout,
            },
        )
    } else {
        s
    }
}

/// Whether `cancel_remittance` succeeds.
pub open spec fn cancel_remittance_outcome(s: LedgerState, remittance_id: u64) -> Result<
    (),
    ContractError,
> {
    if !s.remittances.contains_key(remittance_id) {
        Err(ContractError::NotFound)
    } else if s.remittances[remittance_id].status != RemittanceStatus::Pending {
        Err(ContractError::InvalidStatus)
    } else if s.usdc_token.is_none() {
        Err(ContractError::NotFound)
    } else {
        Ok(())
    }
}

/// The state after `cancel_remittance`.
pub open spec fn cancel_remittance_effect(s: LedgerState, remittance_id: u64) -> LedgerState {
    if cancel_remittance_outcome(s, remittance_id).is_ok() {
        let r = s.remittances[remittance_id];
        LedgerState {
            remittances: s.remittances.insert(
                remittance_id,
                r.with_status(RemittanceStatus::Cancelled),
            ),
            ..s
        }.transfer(Transfer::Release { to: r.sender, amount: r.amount }).publish(
            EventBody::RemittanceCancelled {
                remittance_id,
                sender: r.sender,
                agent: r.agent,
                token: s.usdc_token.unwrap(),
                amount: r.amount,
            },
        )
    } else {
        s
    }
}

/// Whether `withdraw_fees` succeeds.
pub open spec fn withdraw_fees_outcome(s: LedgerState, to: Principal) -> Result<(), ContractError> {
    if s.admin.is_none() {
        Err(ContractError::NotFound)
    } else if !to.well_formed() {
        Err(ContractError::InvalidAddress)
    } else if s.accumulated_fees.is_none() {
        Err(ContractError::NotFound)
    } else if s.accumulated_fees.unwrap() <= 0 {
        Err(ContractError::NoFeesToWithdraw)
    } else if s.usdc_token.is_none() {
        Err(ContractError::NotFound)
    } else {
        Ok(())
    }
}

/// The state after `withdraw_fees`.
pub open spec fn withdraw_fees_effect(s: LedgerState, to: Principal) -> LedgerState {
    if withdraw_fees_outcome(s, to).is_ok() {
        let fees = s.accumulated_fees.unwrap();
        LedgerState { accumulated_fees: Some(0), ..s }.transfer(
            Transfer::Release { to, amount: fees },
        ).publish(
            EventBody::FeesWithdrawn {
                admin: s.admin.unwrap(),
                recipient: to,
                token: s.usdc_token.unwrap(),
                amount: fees,
            },
        )
    } else {
        s
    }
}

impl SwiftRemitContract {
    /// Sets the engine up, once: stores the administrator, the asset and the
    /// fee rate, and starts the remittance counter and the fee pool at zero.
    ///
    /// Fails with `AlreadyInitialized` where the store holds an administrator,
    /// else with `InvalidFeeBps` where `fee_bps` is above 10000.
    pub fn initialize(
        env: &mut Ledger,
        admin: Principal,
        usdc_token: Principal,
        fee_bps: u32,
    ) -> (result: Result<(), ContractError>)
        ensures
            result == initialize_outcome(old(env)@, fee_bps),
            final(env)@ == initialize_effect(old(env)@, admin, usdc_token, fee_bps),
    {
        if env.has_admin() {
            return Err(ContractError::AlreadyInitialized);
        }
        validate_fee_bps(fee_bps)?;

        env.set_admin(&admin);
        env.set_usdc_token(&usdc_token);
        env.set_platform_fee_bps(fee_bps);
        env.set_remittance_counter(0);
        env.set_accumulated_fees(0);

        Ok(())
    }

    /// Lets `agent` receive payouts. Registering an agent that is registered
    /// already writes the same line again.
    ///
    /// Fails with `NotFound` where the store holds no administrator.
    #[allow(unused_variables)]
    pub fn register_agent(env: &mut Ledger, auth: &Authorization, agent: Principal) -> (result:
        Result<(), ContractError>)
        requires
            admin_authorized(old(env)@, *auth),
        ensures
            result == agent_change_outcome(old(env)@),
            final(env)@ == register_agent_effect(old(env)@, agent),
    {
        let admin = env.get_admin()?;

        env.set_agent_registered(&agent, true);
        emit_agent_registered(env, agent, admin);

        Ok(())
    }

    /// Stops `agent` from receiving payouts. Removing an agent that is not
    /// registered writes the same line again.
    ///
    /// Fails with `NotFound` where the store holds no administrator.
    #[allow(unused_variables)]
    pub fn remove_agent(env: &mut Ledger, auth: &Authorization, agent: Principal) -> (result:
        Result<(), ContractError>)
        requires
            admin_authorized(old(env)@, *auth),
        ensures
            result == agent_change_outcome(old(env)@),
            final(env)@ == remove_agent_effect(old(env)@, agent),
    {
        let admin = env.get_admin()?;

        env.set_agent_registered(&agent, false);
        emit_agent_removed(env, agent, admin);

        Ok(())
    }

    /// Sets the fee rate for the remittances created from now on. The fee of
    /// a remittance that exists stays as it is. The record for the sink is
    /// formed from the store after the write, so that both of its rates are
    /// the new one.
    ///
    /// Fails with `NotFound` where the store holds no administrator, else
    /// with `InvalidFeeBps` where `fee_bps` is above 10000.
    #[allow(unused_variables)]
    pub fn update_fee(env: &mut Ledger, auth: &Authorization, fee_bps: u32) -> (result: Result<
        (),
        ContractError,
    >)
        requires
            admin_authorized(old(env)@, *auth),
        ensures
            result == update_fee_outcome(old(env)@, fee_bps),
            final(env)@ == update_fee_effect(old(env)@, fee_bps),
    {
        let admin = env.get_admin()?;
        validate_fee_bps(fee_bps)?;

        env.set_platform_fee_bps(fee_bps);
        let old_fee = env.get_platform_fee_bps()?;
        emit_fee_updated(env, admin, old_fee, fee_bps);

        Ok(())
    }

    /// Takes `amount` from `sender` into custody for `agent` to pay out, and
    /// returns the id of the new remittance: one more than the id created
    /// last. The fee is computed at the rate of this moment and never changes.
    ///
    /// Fails, in this order: with `InvalidAmount` where `amount` is not
    /// positive; `AgentNotRegistered`; `NotFound` where the store holds no fee
    /// rate; `Overflow` where the fee cannot be computed; `NotFound` where the
    /// store holds no asset or no counter; `Overflow` where the counter stands
    /// at its last value.
    #[allow(unused_variables)]
    pub fn create_remittance(
        env: &mut Ledger,
        auth: &Authorization,
        sender: Principal,
        agent: Principal,
        amount: i128,
        expiry: Option<u64>,
    ) -> (result: Result<u64, ContractError>)
        requires
            auth.permits(sender),
        ensures
            result == create_remittance_outcome(old(env)@, agent, amount),
            final(env)@ == create_remittance_effect(old(env)@, sender, agent, amount, expiry),
    {
        if amount <= 0 {
            return Err(ContractError::InvalidAmount);
        }
        if !env.is_agent_registered(&agent) {
            return Err(ContractError::AgentNotRegistered);
        }
        let fee_bps = env.get_platform_fee_bps()?;
        let fee = compute_fee(amount, fee_bps)?;
        let usdc_token = env.get_usdc_token()?;
        let counter = env.get_remittance_counter()?;
        let remittance_id = match counter.checked_add(1) {
            Some(id) => id,
            None => {
                return Err(ContractError::Overflow);
            },
        };

        env.transfer(Transfer::Deposit { from: sender, amount });

        let remittance = Remittance {
            id: remittance_id,
            sender,
            agent,
            amount,
            fee,
            status: RemittanceStatus::Pending,
            expiry,
        };
        env.set_remittance(remittance_id, &remittance);
        env.set_remittance_counter(remittance_id);

        emit_remittance_created(env, remittance_id, sender, agent, usdc_token, amount, fee);

        Ok(remittance_id)
    }

    /// Pays a pending remittance out: releases `amount - fee` to the agent,
    /// adds the fee to the pool, sets the settlement marker and completes the
    /// remittance, all of it or nothing.
    ///
    /// Fails, in this order: with `NotFound` where no such remittance exists;
    /// `InvalidStatus` where it is not pending; `DuplicateSettlement` where it
    /// carries a settlement marker; `SettlementExpired` where the ledger time
    /// is past its expiry; `InvalidAddress` where its agent cannot receive
    /// value; `Overflow` where the payout leaves the 128-bit range; `NotFound`
    /// where the store holds no asset or no fee pool; `Overflow` where the
    /// pool would leave the 128-bit range.
    #[allow(unused_variables)]
    pub fn confirm_payout(env: &mut Ledger, auth: &Authorization, remittance_id: u64) -> (result:
        Result<(), ContractError>)
        requires
            agent_authorized(old(env)@, *auth, remittance_id),
        ensures
            result == confirm_payout_outcome(old(env)@, remittance_id),
            final(env)@ == confirm_payout_effect(old(env)@, remittance_id),
    {
        let mut remittance = env.get_remittance(remittance_id)?;

        if remittance.status != RemittanceStatus::Pending {
            return Err(ContractError::InvalidStatus);
        }
        if env.has_settlement_hash(remittance_id) {
            return Err(ContractError::DuplicateSettlement);
        }
        if let Some(expiry_time) = remittance.expiry {
            let current_time = env.timestamp();
            if current_time > expiry_time {
                return Err(ContractError::SettlementExpired);
            }
        }
        validate_address(&remittance.agent)?;
        let payout_amount = compute_payout(remittance.amount, remittance.fee)?;
        let usdc_token = env.get_usdc_token()?;
        let current_fees = env.get_accumulated_fees()?;
        let new_fees = match current_fees.checked_add(remittance.fee) {
            Some(fees) => fees,
            None => {
                return Err(ContractError::Overflow);
            },
        };

        env.transfer(Transfer::Release { to: remittance.agent, amount: payout_amount });
        env.set_accumulated_fees(new_fees);

        remittance.status = RemittanceStatus::Completed;
        env.set_remittance(remittance_id, &remittance);
        env.set_settlement_hash(remittance_id);

        emit_remittance_completed(
            env,
            remittance_id,
            remittance.sender,
            remittance.agent,
            usdc_token,
            payout_amount,
        );

        Ok(())
    }

    /// Cancels a pending remittance: releases the full amount to the sender
    /// and marks the remittance cancelled. No settlement marker is set.
    ///
    /// Fails, in this order: with `NotFound` where no such remittance exists;
    /// `InvalidStatus` where it is not pending; `NotFound` where the store
    /// holds no asset.
    #[allow(unused_variables)]
    pub fn cancel_remittance(env: &mut Ledger, auth: &Authorization, remittance_id: u64) -> (result:
        Result<(), ContractError>)
        requires
            sender_authorized(old(env)@, *auth, remittance_id),
        ensures
            result == cancel_remittance_outcome(old(env)@, remittance_id),
            final(env)@ == cancel_remittance_effect(old(env)@, remittance_id),
    {
        let mut remittance = env.get_remittance(remittance_id)?;

        if remittance.status != RemittanceStatus::Pending {
            return Err(ContractError::InvalidStatus);
        }
        let usdc_token = env.get_usdc_token()?;

        env.transfer(Transfer::Release { to: remittance.sender, amount: remittance.amount });

        remittance.status = RemittanceStatus::Cancelled;
        env.set_remittance(remittance_id, &remittance);

        emit_remittance_cancelled(
            env,
            remittance_id,
            remittance.sender,
            remittance.agent,
            usdc_token,
            remittance.amount,
        );

        Ok(())
    }

    /// Releases the whole fee pool to `to` and sets the pool to zero.
    ///
    /// Fails, in this order: with `NotFound` where the store holds no
    /// administrator; `InvalidAddress` where `to` cannot receive value;
    /// `NotFound` where the store holds no fee pool; `NoFeesToWithdraw` where
    /// the pool is not positive; `NotFound` where the store holds no asset.
    #[allow(unused_variables)]
    pub fn withdraw_fees(env: &mut Ledger, auth: &Authorization, to: Principal) -> (result: Result<
        (),
        ContractError,
    >)
        requires
            admin_authorized(old(env)@, *auth),
        ensures
            result == withdraw_fees_outcome(old(env)@, to),
            final(env)@ == withdraw_fees_effect(old(env)@, to),
    {
        let admin = env.get_admin()?;
        validate_address(&to)?;
        let fees = env.get_accumulated_fees()?;
        if fees <= 0 {
            return Err(ContractError::NoFeesToWithdraw);
        }
        let usdc_token = env.get_usdc_token()?;

        env.transfer(Transfer::Release { to, amount: fees });
        env.set_accumulated_fees(0);

        emit_fees_withdrawn(env, admin, to, usdc_token, fees);

        Ok(())
    }

    /// The remittance stored under `remittance_id`, or `NotFound`.
    pub fn get_remittance(env: &Ledger, remittance_id: u64) -> (result: Result<
        Remittance,
        ContractError,
    >)
        ensures
            env@.remittances.contains_key(remittance_id) ==> result == Ok::<
                Remittance,
                ContractError,
            >(env@.remittances[remittance_id]),
            !env@.remittances.contains_key(remittance_id) ==> result == Err::<
                Remittance,
                ContractError,
            >(ContractError::NotFound),
    {
        env.get_remittance(remittance_id)
    }

    /// The fee pool, or `NotFound`.
    pub fn get_accumulated_fees(env: &Ledger) -> (result: Result<i128, ContractError>)
        ensures
            result == crate::ledger::found(env@.accumulated_fees),
    {
        env.get_accumulated_fees()
    }

    /// Whether `agent` may receive payouts.
    pub fn is_agent_registered(env: &Ledger, agent: Principal) -> (b: bool)
        ensures
            b == env@.is_agent_registered(agent),
    {
        env.is_agent_registered(&agent)
    }

    /// The fee rate in basis points, or `NotFound`.
    pub fn get_platform_fee_bps(env: &Ledger) -> (result: Result<u32, ContractError>)
        ensures
            result == crate::ledger::found(env@.platform_fee_bps),
    {
        env.get_platform_fee_bps()
    }
}

} // verus!
