//! The engine as a state machine, and what every step of it keeps.
//!
//! [`Operation`] names the calls that change a ledger, [`apply`] is the state
//! after one of them. A ledger that starts empty and is changed by these
//! calls alone is [`consistent`] at every moment.

use vstd::prelude::*;
use crate::batch::{
    batch_settle_effect, batch_settle_outcome, entry_failure, fees_of_first, lemma_valid_batch,
    listed,
};
use crate::contract::{
    cancel_remittance_effect, confirm_payout_effect, confirm_payout_outcome,
    create_remittance_effect, create_remittance_outcome, initialize_effect,
    register_agent_effect, remove_agent_effect, update_fee_effect, withdraw_fees_effect,
};
use crate::errors::ContractError;
use crate::fees::{lemma_fee_within_amount, MAX_FEE_BPS};
use crate::ledger::LedgerState;
use crate::principal::Principal;
use crate::types::{BatchSettleEntry, RemittanceStatus};

verus! {

/// A call that changes the ledger, with its arguments.
pub enum Operation {
    Initialize { admin: Principal, usdc_token: Principal, fee_bps: u32 },
    RegisterAgent { agent: Principal },
    RemoveAgent { agent: Principal },
    UpdateFee { fee_bps: u32 },
    CreateRemittance { sender: Principal, agent: Principal, amount: i128, expiry: Option<u64> },
    ConfirmPayout { remittance_id: u64 },
    CancelRemittance { remittance_id: u64 },
    WithdrawFees { to: Principal },
    BatchSettle { entries: Seq<BatchSettleEntry> },
}

/// The state after the call `op` in state `s`.
pub open spec fn apply(s: LedgerState, op: Operation) -> LedgerState {
    match op {
        Operation::Initialize { admin, usdc_token, fee_bps } => initialize_effect(
            s,
            admin,
            usdc_token,
            fee_bps,
        ),
        Operation::RegisterAgent { agent } => register_agent_effect(s, agent),
        Operation::RemoveAgent { agent } => remove_agent_effect(s, agent),
        Operation::UpdateFee { fee_bps } => update_fee_effect(s, fee_bps),
        Operation::CreateRemittance { sender, agent, amount, expiry } => create_remittance_effect(
            s,
            sender,
            agent,
            amount,
            expiry,
        ),
        Operation::ConfirmPayout { remittance_id } => confirm_payout_effect(s, remittance_id),
        Operation::CancelRemittance { remittance_id } => cancel_remittance_effect(
            s,
            remittance_id,
        ),
        Operation::WithdrawFees { to } => withdraw_fees_effect(s, to),
        Operation::BatchSettle { entries } => batch_settle_effect(s, entries),
    }
}

/// The id of the remittance created last, zero before the first.
pub open spec fn counter_of(s: LedgerState) -> int {
    match s.remittance_counter {
        Some(counter) => counter as int,
        None => 0,
    }
}

/// What holds of the remittance stored under `remittance_id`: it carries its
/// own id, which the counter has reached; its amount is positive and its fee
/// between zero and the amount; and it is completed exactly if it carries a
/// settlement marker.
pub open spec fn record_consistent(s: LedgerState, remittance_id: u64) -> bool {
    let r = s.remittances[remittance_id];
    &&& r.id == remittance_id
    &&& 1 <= remittance_id <= counter_of(s)
    &&& r.fee_within_amount()
    &&& r.status == RemittanceStatus::Completed <==> s.settlements.contains(remittance_id)
}

/// What holds of a ledger that `initialize` set up and the operations
/// changed: the five values that `initialize` writes are there together or
/// not at all, the fee rate is at most 10000 basis points, the fee pool is
/// not negative, every remittance is as [`record_consistent`] says, and
/// settlement markers stand on remittances that exist.
pub open spec fn consistent(s: LedgerState) -> bool {
    &&& s.admin.is_some() == s.usdc_token.is_some()
    &&& s.admin.is_some() == s.platform_fee_bps.is_some()
    &&& s.admin.is_some() == s.remittance_counter.is_some()
    &&& s.admin.is_some() == s.accumulated_fees.is_some()
    &&& s.platform_fee_bps matches Some(fee_bps) ==> fee_bps <= MAX_FEE_BPS
    &&& s.accumulated_fees matches Some(fees) ==> fees >= 0
    &&& forall|id: u64| #[trigger] s.remittances.contains_key(id) ==> record_consistent(s, id)
    &&& forall|id: u64| #[trigger] s.settlements.contains(id) ==> s.remittances.contains_key(id)
}

/// An empty ledger is consistent.
pub proof fn lemma_empty_is_consistent(sequence: u32, timestamp: u64)
    ensures
        consistent(LedgerState::empty(sequence, timestamp)),
{
}

/// Remittances that are consistent in one state are consistent in another
/// that holds the same remittances and the same settlement markers, and
/// whose counter is no lower.
proof fn lemma_same_records(s: LedgerState, t: LedgerState)
    requires
        forall|id: u64| #[trigger] s.remittances.contains_key(id) ==> record_consistent(s, id),
        t.remittances == s.remittances,
        t.settlements == s.settlements,
        counter_of(t) >= counter_of(s),
    ensures
        forall|id: u64| #[trigger] t.remittances.contains_key(id) ==> record_consistent(t, id),
{
    assert forall|id: u64| #[trigger] t.remittances.contains_key(id) implies record_consistent(
        t,
        id,
    ) by {
        assert(record_consistent(s, id));
    }
}

/// The clock does not matter to consistency.
pub proof fn lemma_consistent_at_any_time(s: LedgerState, sequence: u32, timestamp: u64)
    requires
        consistent(s),
    ensures
        consistent(LedgerState { sequence, timestamp, ..s }),
{
    lemma_same_records(s, LedgerState { sequence, timestamp, ..s });
}

/// Handing the queues to the host does not matter to consistency.
pub proof fn lemma_consistent_with_empty_queues(s: LedgerState)
    requires
        consistent(s),
    ensures
        consistent(LedgerState { transfers: Seq::empty(), ..s }),
        consistent(LedgerState { events: Seq::empty(), ..s }),
{
    lemma_same_records(s, LedgerState { transfers: Seq::empty(), ..s });
    lemma_same_records(s, LedgerState { events: Seq::empty(), ..s });
}

/// The fees of the entries of a valid batch on a consistent ledger add up to
/// something that is not negative.
proof fn lemma_batch_fees_not_negative(s: LedgerState, entries: Seq<BatchSettleEntry>, k: int)
    requires
        consistent(s),
        0 <= k <= entries.len(),
        forall|i: int|
            0 <= i < entries.len() ==> s.remittances.contains_key(
                (#[trigger] entries[i]).remittance_id,
            ),
    ensures
        fees_of_first(s, entries, k) >= 0,
    decreases k,
{
    if k > 0 {
        lemma_batch_fees_not_negative(s, entries, k - 1);
        let id = entries[k - 1].remittance_id;
        assert(s.remittances.contains_key(id));
        assert(record_consistent(s, id));
    }
}

/// Every entry of a batch that is settled names a remittance of the store.
proof fn lemma_settled_batch_is_stored(s: LedgerState, entries: Seq<BatchSettleEntry>)
    requires
        batch_settle_outcome(s, entries).is_ok(),
    ensures
        forall|i: int|
            0 <= i < entries.len() ==> s.remittances.contains_key(
                (#[trigger] entries[i]).remittance_id,
            ) && s.remittances[entries[i].remittance_id].status == RemittanceStatus::Pending,
{
    lemma_valid_batch(s, entries);
    assert forall|i: int| 0 <= i < entries.len() implies s.remittances.contains_key(
        (#[trigger] entries[i]).remittance_id,
    ) && s.remittances[entries[i].remittance_id].status == RemittanceStatus::Pending by {
        assert(entry_failure(s, entries[i].remittance_id).is_none());
    }
}

/// Every operation keeps a consistent ledger consistent, whether it succeeds
/// or fails.
pub proof fn lemma_consistency_is_kept(s: LedgerState, op: Operation)
    requires
        consistent(s),
    ensures
        consistent(apply(s, op)),
{
    let after = apply(s, op);
    match op {
        Operation::Initialize { .. }
        | Operation::RegisterAgent { .. }
        | Operation::RemoveAgent { .. }
        | Operation::UpdateFee { .. }
        | Operation::WithdrawFees { .. } => {
            lemma_same_records(s, after);
        },
        Operation::CreateRemittance { sender, agent, amount, expiry } => {
            if create_remittance_outcome(s, agent, amount).is_ok() {
                lemma_fee_within_amount(amount as int, s.platform_fee_bps.unwrap() as int);
                let new_id = (s.remittance_counter.unwrap() + 1) as u64;
                assert forall|id: u64| #[trigger]
                    after.remittances.contains_key(id) implies record_consistent(after, id) by {
                    if id != new_id {
                        assert(s.remittances.contains_key(id));
                        assert(record_consistent(s, id));
                    } else {
                        if s.settlements.contains(new_id) {
                            assert(s.remittances.contains_key(new_id));
                            assert(record_consistent(s, new_id));
                        }
                    }
                }
                assert forall|id: u64| #[trigger]
                    after.settlements.contains(id) implies after.remittances.contains_key(id) by {
                    assert(s.remittances.contains_key(id));
                }
            }
        },
        Operation::ConfirmPayout { remittance_id } => {
            if confirm_payout_outcome(s, remittance_id).is_ok() {
                assert(record_consistent(s, remittance_id));
                assert forall|id: u64| #[trigger]
                    after.remittances.contains_key(id) implies record_consistent(after, id) by {
                    if id != remittance_id {
                        assert(s.remittances.contains_key(id));
                        assert(record_consistent(s, id));
                    }
                }
                assert forall|id: u64| #[trigger]
                    after.settlements.contains(id) implies after.remittances.contains_key(id) by {
                    if id != remittance_id {
                        assert(s.settlements.contains(id));
                    }
                }
            }
        },
        Operation::CancelRemittance { remittance_id } => {
            if s.remittances.contains_key(remittance_id) {
                assert(record_consistent(s, remittance_id));
            }
            assert forall|id: u64| #[trigger]
                after.remittances.contains_key(id) implies record_consistent(after, id) by {
                if id != remittance_id {
                    assert(s.remittances.contains_key(id));
                    assert(record_consistent(s, id));
                }
            }
            assert forall|id: u64| #[trigger]
                after.settlements.contains(id) implies after.remittances.contains_key(id) by {
                assert(s.settlements.contains(id));
            }
        },
        Operation::BatchSettle { entries } => {
            let n = entries.len() as int;
            if batch_settle_outcome(s, entries).is_ok() {
                lemma_settled_batch_is_stored(s, entries);
                lemma_batch_fees_not_negative(s, entries, n);
                assert forall|id: u64| #[trigger]
                    after.remittances.contains_key(id) implies record_consistent(after, id) by {
                    assert(s.remittances.contains_key(id));
                    assert(record_consistent(s, id));
                    if !listed(entries, n, id) {
                        assert(after.settlements.contains(id) == s.settlements.contains(id));
                    }
                }
                assert forall|id: u64| #[trigger]
                    after.settlements.contains(id) implies after.remittances.contains_key(id) by {
                    if listed(entries, n, id) {
                        let j = choose|j: int|
                            0 <= j < n && (#[trigger] entries[j]).remittance_id == id;
                        assert(s.remittances.contains_key(entries[j].remittance_id));
                    } else {
                        assert(s.settlements.contains(id));
                    }
                }
            } else {
                lemma_same_records(s, after);
            }
        },
    }
}

/// No operation deletes a remittance or changes anything of it but its
/// status: the amount and the fee stay what they were at creation.
pub proof fn lemma_remittances_are_frozen(s: LedgerState, op: Operation, remittance_id: u64)
    requires
        consistent(s),
        s.remittances.contains_key(remittance_id),
    ensures
        apply(s, op).remittances.contains_key(remittance_id),
        apply(s, op).remittances[remittance_id] == s.remittances[remittance_id].with_status(
            apply(s, op).remittances[remittance_id].status,
        ),
{
    assert(record_consistent(s, remittance_id));
}

/// A remittance that is completed or cancelled never changes again.
pub proof fn lemma_terminal_is_final(s: LedgerState, op: Operation, remittance_id: u64)
    requires
        consistent(s),
        s.remittances.contains_key(remittance_id),
        s.remittances[remittance_id].status != RemittanceStatus::Pending,
    ensures
        apply(s, op).remittances.contains_key(remittance_id),
        apply(s, op).remittances[remittance_id] == s.remittances[remittance_id],
{
    assert(record_consistent(s, remittance_id));
    match op {
        Operation::BatchSettle { entries } => {
            let n = entries.len() as int;
            if batch_settle_outcome(s, entries).is_ok() {
                lemma_settled_batch_is_stored(s, entries);
                if listed(entries, n, remittance_id) {
                    let j = choose|j: int|
                        0 <= j < n && (#[trigger] entries[j]).remittance_id == remittance_id;
                    assert(s.remittances[entries[j].remittance_id].status
                        == RemittanceStatus::Pending);
                }
            }
        },
        _ => {},
    }
}

/// A pending remittance leaves that state only through `confirm_payout` or
/// `batch_settle`, which complete it, or `cancel_remittance`.
pub proof fn lemma_pending_leaves_by_settlement(s: LedgerState, op: Operation, remittance_id: u64)
    requires
        consistent(s),
        s.remittances.contains_key(remittance_id),
        s.remittances[remittance_id].status == RemittanceStatus::Pending,
        apply(s, op).remittances[remittance_id].status != RemittanceStatus::Pending,
    ensures
        match op {
            Operation::ConfirmPayout { remittance_id: id } => id == remittance_id && apply(
                s,
                op,
            ).remittances[remittance_id].status == RemittanceStatus::Completed,
            Operation::BatchSettle { entries } => listed(
                entries,
                entries.len() as int,
                remittance_id,
            ) && apply(s, op).remittances[remittance_id].status == RemittanceStatus::Completed,
            Operation::CancelRemittance { remittance_id: id } => id == remittance_id && apply(
                s,
                op,
            ).remittances[remittance_id].status == RemittanceStatus::Cancelled,
            _ => false,
        },
{
    assert(record_consistent(s, remittance_id));
}

/// The remittance counter never goes down; `create_remittance` raises it by
/// exactly one where it succeeds and gives the new remittance an id that no
/// remittance had before; no other operation changes it once the ledger is
/// initialized.
pub proof fn lemma_counter_only_grows(s: LedgerState, op: Operation)
    requires
        consistent(s),
    ensures
        counter_of(apply(s, op)) >= counter_of(s),
        match op {
            Operation::CreateRemittance { sender, agent, amount, expiry } => match create_remittance_outcome(
                s,
                agent,
                amount,
            ) {
                Ok(id) => counter_of(apply(s, op)) == counter_of(s) + 1 && id == counter_of(s) + 1
                    && !s.remittances.contains_key(id),
                Err(_) => counter_of(apply(s, op)) == counter_of(s),
            },
            _ => counter_of(apply(s, op)) == counter_of(s),
        },
{
    match op {
        Operation::CreateRemittance { sender, agent, amount, expiry } => {
            if let Ok(id) = create_remittance_outcome(s, agent, amount) {
                if s.remittances.contains_key(id) {
                    assert(record_consistent(s, id));
                }
            }
        },
        _ => {},
    }
}

/// A settlement marker, once set, stays.
pub proof fn lemma_markers_stay(s: LedgerState, op: Operation, remittance_id: u64)
    requires
        s.settlements.contains(remittance_id),
    ensures
        apply(s, op).settlements.contains(remittance_id),
{
}

/// On a consistent ledger `confirm_payout` never meets a settlement marker
/// on a pending remittance, and the payout never leaves the 128-bit range:
/// what is left of its failures is `NotFound`, `InvalidStatus`,
/// `SettlementExpired`, `InvalidAddress`, and `Overflow` of the fee pool.
pub proof fn lemma_confirm_on_consistent(s: LedgerState, remittance_id: u64)
    requires
        consistent(s),
    ensures
        confirm_payout_outcome(s, remittance_id) != Err::<(), ContractError>(
            ContractError::DuplicateSettlement,
        ),
        s.remittances.contains_key(remittance_id) ==> 0 <= s.remittances[remittance_id].amount
            - s.remittances[remittance_id].fee <= i128::MAX,
{
    if s.remittances.contains_key(remittance_id) {
        assert(record_consistent(s, remittance_id));
    }
}

/// The fee pool changes by the fees of what is settled and by withdrawal
/// only: on a consistent ledger no operation but `withdraw_fees` lowers it.
pub proof fn lemma_pool_falls_by_withdrawal_only(s: LedgerState, op: Operation)
    requires
        consistent(s),
        s.accumulated_fees.is_some(),
        !(op is WithdrawFees),
    ensures
        apply(s, op).accumulated_fees.is_some(),
        apply(s, op).accumulated_fees.unwrap() >= s.accumulated_fees.unwrap(),
{
    match op {
        Operation::ConfirmPayout { remittance_id } => {
            if s.remittances.contains_key(remittance_id) {
                assert(record_consistent(s, remittance_id));
            }
        },
        Operation::BatchSettle { entries } => {
            if batch_settle_outcome(s, entries).is_ok() {
                lemma_settled_batch_is_stored(s, entries);
                lemma_batch_fees_not_negative(s, entries, entries.len() as int);
            }
        },
        _ => {},
    }
}

} // verus!
