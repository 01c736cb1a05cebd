//! What holds of the engine across calls, proved of the spec functions that
//! the contracts of the operations are stated in.

use vstd::prelude::*;
use crate::batch::{
    all_settleable, batch_settle_effect, batch_settle_outcome, completion_events, entry_failure,
    fees_of_first, is_reported, lemma_reported_is_unique, lemma_settle_next, lemma_valid_batch,
    listed, reason_code, repeats, settled_first,
};
use crate::contract::{
    cancel_remittance_effect, cancel_remittance_outcome, confirm_payout_effect,
    confirm_payout_outcome, create_remittance_effect, create_remittance_outcome,
    created_remittance, update_fee_effect, withdraw_fees_effect, withdraw_fees_outcome,
};
use crate::errors::ContractError;
use crate::events::EventBody;
use crate::fees::{fits_i128, lemma_fee_within_amount};
use crate::ledger::LedgerState;
use crate::principal::Principal;
use crate::types::{BatchSettleEntry, BatchSettleResult, RemittanceStatus, Transfer};

verus! {

/// The state `s` seen from a later ledger: the clock moved, nothing else.
pub open spec fn at(s: LedgerState, sequence: u32, timestamp: u64) -> LedgerState {
    LedgerState { sequence, timestamp, ..s }
}

/// `create_remittance` refuses an amount that is not positive with
/// `InvalidAmount`, whatever else holds, and refuses a positive amount for an
/// agent that is not registered with `AgentNotRegistered`. Neither call
/// changes the state.
pub proof fn lemma_create_refuses(
    s: LedgerState,
    sender: Principal,
    agent: Principal,
    amount: i128,
    expiry: Option<u64>,
)
    ensures
        amount <= 0 ==> create_remittance_outcome(s, agent, amount) == Err::<u64, ContractError>(
            ContractError::InvalidAmount,
        ),
        amount > 0 && !s.is_agent_registered(agent) ==> create_remittance_outcome(s, agent, amount)
            == Err::<u64, ContractError>(ContractError::AgentNotRegistered),
        amount <= 0 || !s.is_agent_registered(agent) ==> create_remittance_effect(
            s,
            sender,
            agent,
            amount,
            expiry,
        ) == s,
{
}

/// A remittance that `create_remittance` writes at a rate of at most 10000
/// basis points is pending, has a positive amount, and a fee that is the
/// floor of `amount * fee_bps / 10000`, between zero and the amount.
pub proof fn lemma_created_fee_within_amount(
    s: LedgerState,
    sender: Principal,
    agent: Principal,
    amount: i128,
    expiry: Option<u64>,
)
    requires
        create_remittance_outcome(s, agent, amount).is_ok(),
        s.platform_fee_bps.unwrap() <= 10000,
    ensures
        ({
            let id = create_remittance_outcome(s, agent, amount).unwrap();
            let after = create_remittance_effect(s, sender, agent, amount, expiry);
            let r = after.remittances[id];
            &&& id == s.remittance_counter.unwrap() + 1
            &&& after.remittances.contains_key(id)
            &&& r == created_remittance(s, sender, agent, amount, expiry)
            &&& r.status == RemittanceStatus::Pending
            &&& r.fee == (amount * s.platform_fee_bps.unwrap()) / 10000
            &&& r.fee_within_amount()
            &&& fits_i128(r.amount - r.fee)
            &&& r.amount - r.fee >= 0
        }),
{
    lemma_fee_within_amount(amount as int, s.platform_fee_bps.unwrap() as int);
}

/// `confirm_payout` succeeds on pending remittances only, and leaves the
/// remittance completed and marked, with one payout of `amount - fee` queued
/// and the fee added to the pool.
pub proof fn lemma_confirm_completes(s: LedgerState, remittance_id: u64)
    requires
        confirm_payout_outcome(s, remittance_id).is_ok(),
    ensures
        ({
            let r = s.remittances[remittance_id];
            let after = confirm_payout_effect(s, remittance_id);
            &&& r.status == RemittanceStatus::Pending
            &&& !s.settlements.contains(remittance_id)
            &&& after.remittances[remittance_id] == r.with_status(RemittanceStatus::Completed)
            &&& after.settlements.contains(remittance_id)
            &&& after.transfers == s.transfers.push(
                Transfer::Release { to: r.agent, amount: (r.amount - r.fee) as i128 },
            )
            &&& after.accumulated_fees == Some((s.accumulated_fees.unwrap() + r.fee) as i128)
        }),
{
}

/// A remittance is paid out at most once: after a `confirm_payout` that
/// succeeded, another one for the same remittance fails with `InvalidStatus`
/// at whatever ledger it is made, and queues no payout.
pub proof fn lemma_confirm_once(s: LedgerState, remittance_id: u64, sequence: u32, timestamp: u64)
    requires
        confirm_payout_outcome(s, remittance_id).is_ok(),
    ensures
        ({
            let later = at(confirm_payout_effect(s, remittance_id), sequence, timestamp);
            &&& confirm_payout_outcome(later, remittance_id) == Err::<(), ContractError>(
                ContractError::InvalidStatus,
            )
            &&& confirm_payout_effect(later, remittance_id) == later
        }),
{
}

/// `confirm_payout` refuses a remittance that is not pending with
/// `InvalidStatus`, and a pending one that carries a settlement marker with
/// `DuplicateSettlement`. Neither call changes the state.
pub proof fn lemma_confirm_refuses_settled(s: LedgerState, remittance_id: u64)
    requires
        s.remittances.contains_key(remittance_id),
    ensures
        s.remittances[remittance_id].status != RemittanceStatus::Pending
            ==> confirm_payout_outcome(s, remittance_id) == Err::<(), ContractError>(
            ContractError::InvalidStatus,
        ),
        s.remittances[remittance_id].status == RemittanceStatus::Pending && s.settlements.contains(
            remittance_id,
        ) ==> confirm_payout_outcome(s, remittance_id) == Err::<(), ContractError>(
            ContractError::DuplicateSettlement,
        ),
        s.remittances[remittance_id].status != RemittanceStatus::Pending || s.settlements.contains(
            remittance_id,
        ) ==> confirm_payout_effect(s, remittance_id) == s,
{
}

/// `confirm_payout` refuses a pending, unmarked remittance whose expiry lies
/// before the ledger time with `SettlementExpired`, and leaves it pending.
pub proof fn lemma_confirm_refuses_expired(s: LedgerState, remittance_id: u64)
    requires
        s.remittances.contains_key(remittance_id),
        s.remittances[remittance_id].status == RemittanceStatus::Pending,
        !s.settlements.contains(remittance_id),
        s.remittances[remittance_id].expiry.is_some(),
        s.timestamp > s.remittances[remittance_id].expiry.unwrap(),
    ensures
        confirm_payout_outcome(s, remittance_id) == Err::<(), ContractError>(
            ContractError::SettlementExpired,
        ),
        confirm_payout_effect(s, remittance_id) == s,
{
}

/// `cancel_remittance` refuses a remittance that is completed or cancelled
/// with `InvalidStatus` and changes nothing.
pub proof fn lemma_cancel_refuses_settled(s: LedgerState, remittance_id: u64)
    requires
        s.remittances.contains_key(remittance_id),
        s.remittances[remittance_id].status != RemittanceStatus::Pending,
    ensures
        cancel_remittance_outcome(s, remittance_id) == Err::<(), ContractError>(
            ContractError::InvalidStatus,
        ),
        cancel_remittance_effect(s, remittance_id) == s,
{
}

/// A remittance is refunded at most once, and never both refunded and paid
/// out: after a `cancel_remittance` that succeeded, the full amount is queued
/// for the sender, and another `cancel_remittance` or a `confirm_payout` for
/// the same remittance fails with `InvalidStatus` at whatever ledger it is
/// made, and queues nothing.
pub proof fn lemma_cancel_once(s: LedgerState, remittance_id: u64, sequence: u32, timestamp: u64)
    requires
        cancel_remittance_outcome(s, remittance_id).is_ok(),
    ensures
        ({
            let r = s.remittances[remittance_id];
            let after = cancel_remittance_effect(s, remittance_id);
            let later = at(after, sequence, timestamp);
            &&& r.status == RemittanceStatus::Pending
            &&& after.remittances[remittance_id] == r.with_status(RemittanceStatus::Cancelled)
            &&& after.transfers == s.transfers.push(
                Transfer::Release { to: r.sender, amount: r.amount },
            )
            &&& after.settlements == s.settlements
            &&& after.accumulated_fees == s.accumulated_fees
            &&& cancel_remittance_outcome(later, remittance_id) == Err::<(), ContractError>(
                ContractError::InvalidStatus,
            )
            &&& cancel_remittance_effect(later, remittance_id) == later
            &&& confirm_payout_outcome(later, remittance_id) == Err::<(), ContractError>(
                ContractError::InvalidStatus,
            )
            &&& confirm_payout_effect(later, remittance_id) == later
        }),
{
}

/// A remittance that was paid out cannot be cancelled: after a
/// `confirm_payout` that succeeded, `cancel_remittance` fails with
/// `InvalidStatus` and queues no refund.
pub proof fn lemma_no_refund_after_payout(
    s: LedgerState,
    remittance_id: u64,
    sequence: u32,
    timestamp: u64,
)
    requires
        confirm_payout_outcome(s, remittance_id).is_ok(),
    ensures
        ({
            let later = at(confirm_payout_effect(s, remittance_id), sequence, timestamp);
            &&& cancel_remittance_outcome(later, remittance_id) == Err::<(), ContractError>(
                ContractError::InvalidStatus,
            )
            &&& cancel_remittance_effect(later, remittance_id) == later
        }),
{
}

/// With an administrator in the store and a recipient that can receive
/// value, `withdraw_fees` fails with `NoFeesToWithdraw` on a pool of zero and
/// changes nothing; on a positive pool, with an asset in the store, it
/// succeeds, sets the pool to exactly zero and queues one transfer of exactly
/// what the pool held.
pub proof fn lemma_withdraw_takes_all(s: LedgerState, to: Principal)
    requires
        s.admin.is_some(),
        to.well_formed(),
        s.accumulated_fees.is_some(),
    ensures
        s.accumulated_fees.unwrap() <= 0 ==> withdraw_fees_outcome(s, to) == Err::<
            (),
            ContractError,
        >(ContractError::NoFeesToWithdraw) && withdraw_fees_effect(s, to) == s,
        s.accumulated_fees.unwrap() > 0 && s.usdc_token.is_some() ==> {
            let after = withdraw_fees_effect(s, to);
            &&& withdraw_fees_outcome(s, to).is_ok()
            &&& after.accumulated_fees == Some(0i128)
            &&& after.transfers == s.transfers.push(
                Transfer::Release { to, amount: s.accumulated_fees.unwrap() },
            )
            &&& after.remittances == s.remittances
        },
{
}

/// `update_fee` changes no remittance: the fee of each stays what it was
/// when the remittance was created.
pub proof fn lemma_update_fee_keeps_remittances(s: LedgerState, fee_bps: u32)
    ensures
        update_fee_effect(s, fee_bps).remittances == s.remittances,
        update_fee_effect(s, fee_bps).accumulated_fees == s.accumulated_fees,
        update_fee_effect(s, fee_bps).settlements == s.settlements,
        update_fee_effect(s, fee_bps).transfers == s.transfers,
{
}

/// A batch with an entry that fails a check against the state settles
/// nothing: the call fails with `BatchValidationFailed`, and the store and
/// the queue of transfers stay as they were, also for the entries before it
/// that pass.
pub proof fn lemma_batch_all_or_nothing(s: LedgerState, entries: Seq<BatchSettleEntry>, i: int)
    requires
        s.usdc_token.is_some(),
        0 <= i < entries.len(),
        entry_failure(s, entries[i].remittance_id).is_some(),
    ensures
        batch_settle_outcome(s, entries) == Err::<Seq<BatchSettleResult>, ContractError>(
            ContractError::BatchValidationFailed,
        ),
        batch_settle_effect(s, entries).remittances == s.remittances,
        batch_settle_effect(s, entries).settlements == s.settlements,
        batch_settle_effect(s, entries).accumulated_fees == s.accumulated_fees,
        batch_settle_effect(s, entries).remittance_counter == s.remittance_counter,
        batch_settle_effect(s, entries).transfers == s.transfers,
        batch_settle_effect(s, entries).events.len() == s.events.len() + 2,
{
}

/// The sink is told of the first entry that fails a check against the
/// state, whatever else the batch holds: its index, its id, and the number
/// that stands for the first check that it fails. Nothing else changes.
pub proof fn lemma_first_failure_is_reported(
    s: LedgerState,
    entries: Seq<BatchSettleEntry>,
    i: int,
)
    requires
        s.usdc_token.is_some(),
        0 <= i < entries.len(),
        entry_failure(s, entries[i].remittance_id).is_some(),
        forall|j: int|
            0 <= j < i ==> entry_failure(s, (#[trigger] entries[j]).remittance_id).is_none(),
    ensures
        batch_settle_outcome(s, entries) == Err::<Seq<BatchSettleResult>, ContractError>(
            ContractError::BatchValidationFailed,
        ),
        batch_settle_effect(s, entries) == s.publish(
            EventBody::BatchSettlementStarted { batch_size: entries.len() as u32 },
        ).publish(
            EventBody::BatchSettlementFailed {
                failed_at_index: i as u32,
                remittance_id: entries[i].remittance_id,
                reason: reason_code(entry_failure(s, entries[i].remittance_id).unwrap()),
            },
        ),
{
    assert(!all_settleable(s, entries));
    assert(is_reported(s, entries, i));
    lemma_reported_is_unique(s, entries, i);
}

/// A batch that names one remittance in two entries settles nothing: the
/// call fails with `BatchValidationFailed`, and the store and the queue of
/// transfers stay as they were.
pub proof fn lemma_batch_refuses_repeated_id(
    s: LedgerState,
    entries: Seq<BatchSettleEntry>,
    i: int,
    j: int,
)
    requires
        s.usdc_token.is_some(),
        0 <= i < j < entries.len(),
        entries[i].remittance_id == entries[j].remittance_id,
    ensures
        batch_settle_outcome(s, entries) == Err::<Seq<BatchSettleResult>, ContractError>(
            ContractError::BatchValidationFailed,
        ),
        batch_settle_effect(s, entries).remittances == s.remittances,
        batch_settle_effect(s, entries).settlements == s.settlements,
        batch_settle_effect(s, entries).accumulated_fees == s.accumulated_fees,
        batch_settle_effect(s, entries).transfers == s.transfers,
{
    assert(listed(entries, j, entries[j].remittance_id));
    assert(repeats(entries, j));
}

/// Where every entry passes the checks against the state, the sink is told
/// of the first entry that names a remittance which an earlier entry names:
/// its index, its id and the number that stands for `DuplicateSettlement`.
pub proof fn lemma_repeated_id_is_reported(s: LedgerState, entries: Seq<BatchSettleEntry>, j: int)
    requires
        s.usdc_token.is_some(),
        all_settleable(s, entries),
        0 <= j < entries.len(),
        repeats(entries, j),
        forall|k: int| 0 <= k < j ==> !(#[trigger] repeats(entries, k)),
    ensures
        batch_settle_outcome(s, entries) == Err::<Seq<BatchSettleResult>, ContractError>(
            ContractError::BatchValidationFailed,
        ),
        batch_settle_effect(s, entries) == s.publish(
            EventBody::BatchSettlementStarted { batch_size: entries.len() as u32 },
        ).publish(
            EventBody::BatchSettlementFailed {
                failed_at_index: j as u32,
                remittance_id: entries[j].remittance_id,
                reason: 12,
            },
        ),
{
    assert(is_reported(s, entries, j));
    lemma_reported_is_unique(s, entries, j);
    assert(entry_failure(s, entries[j].remittance_id).is_none());
}

/// A batch that is settled completes every remittance that it lists, raises
/// the fee pool by the sum of their fees, queues one payout for each entry,
/// and tells the sink once that it was taken up and once that it was
/// completed.
pub proof fn lemma_batch_settles_all(s: LedgerState, entries: Seq<BatchSettleEntry>)
    requires
        batch_settle_outcome(s, entries).is_ok(),
    ensures
        ({
            let n = entries.len() as int;
            let after = batch_settle_effect(s, entries);
            &&& batch_settle_outcome(s, entries).unwrap().len() == n
            &&& forall|i: int|
                0 <= i < n ==> (#[trigger] after.remittances[entries[i].remittance_id]).status
                    == RemittanceStatus::Completed
            &&& forall|i: int|
                0 <= i < n ==> after.settlements.contains((#[trigger] entries[i]).remittance_id)
            &&& after.accumulated_fees == Some(
                (s.accumulated_fees.unwrap() + fees_of_first(s, entries, n)) as i128,
            )
            &&& after.transfers.len() == s.transfers.len() + n
            &&& after.events.len() == s.events.len() + n + 2
        }),
{
    let n = entries.len() as int;
    let after = batch_settle_effect(s, entries);
    lemma_valid_batch(s, entries);
    assert forall|i: int| 0 <= i < n implies (#[trigger] after.remittances[entries[i].remittance_id]).status
        == RemittanceStatus::Completed by {
        assert(listed(entries, n, entries[i].remittance_id));
        assert(entry_failure(s, entries[i].remittance_id).is_none());
    }
    assert forall|i: int| 0 <= i < n implies after.settlements.contains(
        (#[trigger] entries[i]).remittance_id,
    ) by {
        assert(listed(entries, n, entries[i].remittance_id));
    }
}

/// No remittance is paid out twice by one batch. A batch that is settled
/// names pairwise distinct remittances, each of them pending and unmarked
/// before; it queues exactly one release for each, of the remittance's
/// amount less its fee and to its agent, in the order of the entries; and
/// the fee pool rises by the sum of the fees over the entries, which counts
/// the fee of each remittance once.
pub proof fn lemma_batch_pays_each_once(s: LedgerState, entries: Seq<BatchSettleEntry>)
    requires
        batch_settle_outcome(s, entries).is_ok(),
    ensures
        ({
            let n = entries.len() as int;
            let after = batch_settle_effect(s, entries);
            let results = batch_settle_outcome(s, entries).unwrap();
            &&& forall|i: int, j: int|
                0 <= i < j < n ==> (#[trigger] entries[i]).remittance_id != (
                #[trigger] entries[j]).remittance_id
            &&& forall|i: int|
                0 <= i < n ==> {
                    let r = s.remittances[(#[trigger] entries[i]).remittance_id];
                    &&& s.remittances.contains_key(entries[i].remittance_id)
                    &&& r.status == RemittanceStatus::Pending
                    &&& !s.settlements.contains(entries[i].remittance_id)
                    &&& 0 <= r.amount - r.fee <= i128::MAX
                    &&& after.transfers[s.transfers.len() + i] == (Transfer::Release {
                        to: r.agent,
                        amount: (r.amount - r.fee) as i128,
                    })
                    &&& results[i] == (BatchSettleResult {
                        remittance_id: entries[i].remittance_id,
                        success: true,
                        payout_amount: (r.amount - r.fee) as i128,
                    })
                }
            &&& after.transfers.len() == s.transfers.len() + n
            &&& after.transfers.subrange(0, s.transfers.len() as int) == s.transfers
            &&& after.accumulated_fees.unwrap() - s.accumulated_fees.unwrap() == fees_of_first(
                s,
                entries,
                n,
            )
        }),
{
    let n = entries.len() as int;
    let after = batch_settle_effect(s, entries);
    lemma_valid_batch(s, entries);
    assert(fits_i128(s.accumulated_fees.unwrap() + fees_of_first(s, entries, n)));
    assert(after.transfers.subrange(0, s.transfers.len() as int) =~= s.transfers);
}

/// The state after `confirm_payout` was called for each of the first `k`
/// entries in turn.
pub open spec fn confirmed_first(s: LedgerState, entries: Seq<BatchSettleEntry>, k: int) -> LedgerState
    decreases k,
{
    if k <= 0 {
        s
    } else {
        confirm_payout_effect(confirmed_first(s, entries, k - 1), entries[k - 1].remittance_id)
    }
}

/// A batch that is settled pays out as `confirm_payout` does. Calling
/// `confirm_payout` for each of the first `k` entries in turn, at the same
/// ledger, succeeds each time and leads to the remittances, the settlement
/// markers and the queue of transfers that the batch leaves after its first
/// `k` entries, with the fee pool raised by the fees of these entries and
/// one completion record for each in the sink's queue.
pub proof fn lemma_batch_is_confirm_in_turn(s: LedgerState, entries: Seq<BatchSettleEntry>, k: int)
    requires
        batch_settle_outcome(s, entries).is_ok(),
        0 <= k <= entries.len(),
    ensures
        ({
            let confirmed = confirmed_first(s, entries, k);
            let settled = settled_first(s, entries, k);
            &&& confirmed.remittances == settled.remittances
            &&& confirmed.settlements == settled.settlements
            &&& confirmed.transfers == settled.transfers
            &&& confirmed.accumulated_fees == Some(
                (s.accumulated_fees.unwrap() + fees_of_first(s, entries, k)) as i128,
            )
            &&& confirmed.events == s.events + completion_events(s, entries, k)
            &&& confirmed.sequence == s.sequence
            &&& confirmed.timestamp == s.timestamp
            &&& confirmed.usdc_token == s.usdc_token
            &&& k < entries.len() ==> confirm_payout_outcome(
                confirmed,
                entries[k].remittance_id,
            ).is_ok()
        }),
    decreases k,
{
    let pool = s.accumulated_fees.unwrap();
    let confirmed = confirmed_first(s, entries, k);
    let settled = settled_first(s, entries, k);
    lemma_valid_batch(s, entries);
    if k > 0 {
        let id = entries[k - 1].remittance_id;
        let before = confirmed_first(s, entries, k - 1);
        lemma_batch_is_confirm_in_turn(s, entries, k - 1);
        assert(entry_failure(s, id).is_none());
        assert(before.remittances[id] == s.remittances[id]);
        lemma_settle_next(s, entries, k - 1);
        assert(fees_of_first(s, entries, k) == fees_of_first(s, entries, k - 1)
            + s.remittances[id].fee);
        assert(fits_i128(pool + fees_of_first(s, entries, k)));
        assert(confirmed.events =~= s.events + completion_events(s, entries, k));
        assert(confirmed.transfers =~= settled.transfers);
    } else {
        assert(confirmed.remittances =~= settled.remittances);
        assert(confirmed.settlements =~= settled.settlements);
        assert(confirmed.transfers =~= settled.transfers);
        assert(confirmed.events =~= s.events + completion_events(s, entries, k));
    }
    if k < entries.len() {
        let next = entries[k].remittance_id;
        assert(entry_failure(s, next).is_none());
        assert(!repeats(entries, k));
        assert(!listed(entries, k, next));
        assert(confirmed.remittances[next] == s.remittances[next]);
        assert(fees_of_first(s, entries, k + 1) == fees_of_first(s, entries, k)
            + s.remittances[next].fee);
        assert(fits_i128(pool + fees_of_first(s, entries, k + 1)));
    }
}

} // verus!
