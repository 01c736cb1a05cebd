//! The batch settlement coordinator: many remittances settled as one unit.
//!
//! A batch is validated entry by entry against the state as it stands, with
//! nothing written, and the first entry that fails a check is the one that
//! the sink is told of. A batch whose every entry passes is then looked
//! through for an entry that names a remittance which an earlier entry names
//! already: such a batch is not valid either, so that no remittance is paid
//! out twice. Only a valid batch is executed, and the running totals of its
//! execution are computed before anything is written, so that a batch either
//! settles in full or changes nothing but the sink's queue, which then names
//! the entry that failed.

use std::collections::HashSet;
use vstd::prelude::*;
use crate::contract::{expired, SwiftRemitContract};
use crate::errors::ContractError;
use crate::events::{
    emit_batch_settlement_completed, emit_batch_settlement_failed, emit_batch_settlement_started,
    emit_remittance_completed, stamped, Event, EventBody,
};
use crate::fees::fits_i128;
use crate::ledger::{Ledger, LedgerState};
use crate::principal::Principal;
use crate::types::{
    BatchSettleEntry, BatchSettleResult, RemittanceStatus, Transfer, ValidatedSettlement,
};

verus! {

broadcast use vstd::std_specs::hash::group_hash_axioms;

/// Why an entry of a batch is reported to the sink.
#[derive(Clone, Copy, Debug, PartialEq, Eq, Structural)]
pub enum ValidationFailure {
    /// No remittance is stored under the id.
    NotFound,
    /// The remittance is not pending.
    InvalidStatus,
    /// The remittance carries a settlement marker, or an earlier entry of
    /// the batch names it.
    DuplicateSettlement,
    /// The ledger time is past the remittance's expiry.
    SettlementExpired,
    /// The agent of the remittance cannot receive value.
    InvalidAddress,
    /// The fee is above the amount, or the payout leaves the 128-bit range.
    Overflow,
}

/// The number that stands for a failure in the record for the sink.
pub open spec fn reason_code(failure: ValidationFailure) -> u32 {
    match failure {
        ValidationFailure::NotFound => 6,
        ValidationFailure::InvalidStatus => 7,
        ValidationFailure::Overflow => 8,
        ValidationFailure::InvalidAddress => 10,
        ValidationFailure::SettlementExpired => 11,
        ValidationFailure::DuplicateSettlement => 12,
    }
}

impl ValidationFailure {
    /// The number that stands for this failure in the record for the sink.
    pub fn code(&self) -> (code: u32)
        ensures
            code == reason_code(*self),
    {
        match self {
            ValidationFailure::NotFound => 6,
            ValidationFailure::InvalidStatus => 7,
            ValidationFailure::Overflow => 8,
            ValidationFailure::InvalidAddress => 10,
            ValidationFailure::SettlementExpired => 11,
            ValidationFailure::DuplicateSettlement => 12,
        }
    }
}

/// Why the remittance `remittance_id` cannot be settled in state `s`, if it
/// cannot: the first of the checks that fails.
pub open spec fn entry_failure(s: LedgerState, remittance_id: u64) -> Option<ValidationFailure> {
    if !s.remittances.contains_key(remittance_id) {
        Some(ValidationFailure::NotFound)
    } else {
        let r = s.remittances[remittance_id];
        if r.status != RemittanceStatus::Pending {
            Some(ValidationFailure::InvalidStatus)
        } else if s.settlements.contains(remittance_id) {
            Some(ValidationFailure::DuplicateSettlement)
        } else if expired(r, s.timestamp) {
            Some(ValidationFailure::SettlementExpired)
        } else if !r.agent.well_formed() {
            Some(ValidationFailure::InvalidAddress)
        } else if !(r.fee <= r.amount && fits_i128(r.amount - r.fee)) {
            Some(ValidationFailure::Overflow)
        } else {
            None
        }
    }
}

/// What the execution of a valid entry needs to know of it.
pub open spec fn validated_entry(s: LedgerState, remittance_id: u64) -> ValidatedSettlement {
    let r = s.remittances[remittance_id];
    ValidatedSettlement {
        remittance_id,
        agent: r.agent,
        payout_amount: (r.amount - r.fee) as i128,
        fee: r.fee,
        sender: r.sender,
    }
}

/// Whether every entry of the batch passes the checks against the state
/// `s`: each names a remittance that can be settled.
pub open spec fn all_settleable(s: LedgerState, entries: Seq<BatchSettleEntry>) -> bool {
    forall|i: int|
        0 <= i < entries.len() ==> entry_failure(s, (#[trigger] entries[i]).remittance_id).is_none()
}

/// Whether entry `i` names a remittance that an earlier entry names.
pub open spec fn repeats(entries: Seq<BatchSettleEntry>, i: int) -> bool {
    listed(entries, i, entries[i].remittance_id)
}

/// Whether no entry of the batch names a remittance that an earlier entry
/// names.
pub open spec fn no_repeat(entries: Seq<BatchSettleEntry>) -> bool {
    forall|i: int| 0 <= i < entries.len() ==> !(#[trigger] repeats(entries, i))
}

/// Whether the batch is valid in state `s`: every entry passes the checks
/// against the state, and no remittance is named twice.
pub open spec fn all_valid(s: LedgerState, entries: Seq<BatchSettleEntry>) -> bool {
    all_settleable(s, entries) && no_repeat(entries)
}

/// Whether entry `i` is the one that the sink is told of: the first that
/// fails a check against the state, if any entry does; else the first that
/// names a remittance which an earlier entry names.
pub open spec fn is_reported(s: LedgerState, entries: Seq<BatchSettleEntry>, i: int) -> bool {
    &&& 0 <= i < entries.len()
    &&& if all_settleable(s, entries) {
        &&& repeats(entries, i)
        &&& forall|j: int| 0 <= j < i ==> !(#[trigger] repeats(entries, j))
    } else {
        &&& entry_failure(s, entries[i].remittance_id).is_some()
        &&& forall|j: int|
            0 <= j < i ==> entry_failure(s, (#[trigger] entries[j]).remittance_id).is_none()
    }
}

/// Why entry `i` is reported: the check against the state that it fails, or
/// `DuplicateSettlement` where it fails none.
pub open spec fn reported_failure(
    s: LedgerState,
    entries: Seq<BatchSettleEntry>,
    i: int,
) -> ValidationFailure {
    match entry_failure(s, entries[i].remittance_id) {
        Some(failure) => failure,
        None => ValidationFailure::DuplicateSettlement,
    }
}

/// The index of the entry that the sink is told of, where the batch is not
/// valid.
pub open spec fn reported_index(s: LedgerState, entries: Seq<BatchSettleEntry>) -> int {
    choose|i: int| is_reported(s, entries, i)
}

/// The sum of the fees of the first `k` entries.
pub open spec fn fees_of_first(s: LedgerState, entries: Seq<BatchSettleEntry>, k: int) -> int
    decreases k,
{
    if k <= 0 {
        0
    } else {
        fees_of_first(s, entries, k - 1) + s.remittances[entries[k - 1].remittance_id].fee
    }
}

/// The sum of the payouts of the first `k` entries.
pub open spec fn payouts_of_first(s: LedgerState, entries: Seq<BatchSettleEntry>, k: int) -> int
    decreases k,
{
    if k <= 0 {
        0
    } else {
        payouts_of_first(s, entries, k - 1) + validated_entry(
            s,
            entries[k - 1].remittance_id,
        ).payout_amount
    }
}

/// Whether the running totals of the batch stay in the 128-bit range: the
/// fee pool after each entry, and the sum of the payouts after each entry.
pub open spec fn totals_fit(s: LedgerState, entries: Seq<BatchSettleEntry>) -> bool {
    forall|k: int|
        1 <= k <= entries.len() ==> fits_i128(
            s.accumulated_fees.unwrap() + #[trigger] fees_of_first(s, entries, k),
        ) && fits_i128(payouts_of_first(s, entries, k))
}

/// Whether `remittance_id` is among the first `k` entries.
pub open spec fn listed(entries: Seq<BatchSettleEntry>, k: int, remittance_id: u64) -> bool {
    exists|j: int| 0 <= j < k && (#[trigger] entries[j]).remittance_id == remittance_id
}

/// The result for each entry of a batch that is settled.
pub open spec fn batch_results(s: LedgerState, entries: Seq<BatchSettleEntry>, k: int) -> Seq<
    BatchSettleResult,
> {
    Seq::new(
        k as nat,
        |i: int|
            BatchSettleResult {
                remittance_id: entries[i].remittance_id,
                success: true,
                payout_amount: validated_entry(s, entries[i].remittance_id).payout_amount,
            },
    )
}

/// The payout of each of the first `k` entries, in their order.
pub open spec fn payout_transfers(s: LedgerState, entries: Seq<BatchSettleEntry>, k: int) -> Seq<
    Transfer,
> {
    Seq::new(
        k as nat,
        |i: int|
            Transfer::Release {
                to: validated_entry(s, entries[i].remittance_id).agent,
                amount: validated_entry(s, entries[i].remittance_id).payout_amount,
            },
    )
}

/// The completion record of each of the first `k` entries, in their order.
pub open spec fn completion_events(s: LedgerState, entries: Seq<BatchSettleEntry>, k: int) -> Seq<
    Event,
> {
    Seq::new(
        k as nat,
        |i: int|
            stamped(
                s.sequence,
                s.timestamp,
                EventBody::RemittanceCompleted {
                    remittance_id: entries[i].remittance_id,
                    sender: validated_entry(s, entries[i].remittance_id).sender,
                    agent: validated_entry(s, entries[i].remittance_id).agent,
                    token: s.usdc_token.unwrap(),
                    amount: validated_entry(s, entries[i].remittance_id).payout_amount,
                },
            ),
    )
}

/// The state `s` after the batch was taken up and its first `k` entries were
/// paid out, the fee pool aside: every remittance among them is completed
/// and carries a settlement marker, and nothing else of the store differs.
pub open spec fn settled_first(s: LedgerState, entries: Seq<BatchSettleEntry>, k: int) -> LedgerState {
    LedgerState {
        remittances: Map::new(
            |id: u64| s.remittances.contains_key(id),
            |id: u64|
                if listed(entries, k, id) {
                    s.remittances[id].with_status(RemittanceStatus::Completed)
                } else {
                    s.remittances[id]
                },
        ),
        settlements: Set::new(|id: u64| s.settlements.contains(id) || listed(entries, k, id)),
        transfers: s.transfers + payout_transfers(s, entries, k),
        events: s.events.push(
            stamped(
                s.sequence,
                s.timestamp,
                EventBody::BatchSettlementStarted { batch_size: entries.len() as u32 },
            ),
        ) + completion_events(s, entries, k),
        ..s
    }
}

/// The results that `batch_settle` returns, or why it fails.
pub open spec fn batch_settle_outcome(s: LedgerState, entries: Seq<BatchSettleEntry>) -> Result<
    Seq<BatchSettleResult>,
    ContractError,
> {
    if entries.len() == 0 {
        Err(ContractError::BatchEmpty)
    } else if s.usdc_token.is_none() {
        Err(ContractError::NotFound)
    } else if !all_valid(s, entries) {
        Err(ContractError::BatchValidationFailed)
    } else if s.accumulated_fees.is_none() {
        Err(ContractError::NotFound)
    } else if !totals_fit(s, entries) {
        Err(ContractError::Overflow)
    } else {
        Ok(batch_results(s, entries, entries.len() as int))
    }
}

/// The state after `batch_settle`. A batch that is settled leaves every
/// listed remittance completed and marked, the fee pool raised by the sum of
/// their fees, one payout queued for each entry, and for the sink one
/// "started" record, one completion record for each entry and one
/// "completed" record. A batch that is not valid leaves a "started" record
/// and a "failed" record for the sink and nothing else; the "failed" record
/// names the first entry that fails a check against the state, or, where
/// none does, the first that names a remittance which an earlier entry
/// names. Any other failure leaves nothing.
pub open spec fn batch_settle_effect(s: LedgerState, entries: Seq<BatchSettleEntry>) -> LedgerState {
    let n = entries.len() as int;
    match batch_settle_outcome(s, entries) {
        Ok(_) => LedgerState {
            accumulated_fees: Some((s.accumulated_fees.unwrap() + fees_of_first(s, entries, n)) as i128),
            ..settled_first(s, entries, n)
        }.publish(
            EventBody::BatchSettlementCompleted {
                total_count: n as u32,
                success_count: n as u32,
                total_payout: payouts_of_first(s, entries, n) as i128,
            },
        ),
        Err(ContractError::BatchValidationFailed) => {
            let i = reported_index(s, entries);
            s.publish(EventBody::BatchSettlementStarted { batch_size: n as u32 }).publish(
                EventBody::BatchSettlementFailed {
                    failed_at_index: i as u32,
                    remittance_id: entries[i].remittance_id,
                    reason: reason_code(reported_failure(s, entries, i)),
                },
            )
        },
        Err(_) => s,
    }
}

/// Checks one entry of a batch against the state, writing nothing: that the
/// remittance exists, is pending, carries no settlement marker, has not
/// expired, names an agent that can receive value, and has a fee that does
/// not exceed its amount. Returns the first check that fails, or what the
/// execution of the entry needs.
pub fn validate_entry(env: &Ledger, remittance_id: u64) -> (result: Result<
    ValidatedSettlement,
    ValidationFailure,
>)
    ensures
        result == (match entry_failure(env@, remittance_id) {
            Some(failure) => Err::<ValidatedSettlement, ValidationFailure>(failure),
            None => Ok::<ValidatedSettlement, ValidationFailure>(
                validated_entry(env@, remittance_id),
            ),
        }),
{
    let remittance = match env.get_remittance(remittance_id) {
        Ok(r) => r,
        Err(_) => {
            return Err(ValidationFailure::NotFound);
        },
    };
    if remittance.status != RemittanceStatus::Pending {
        return Err(ValidationFailure::InvalidStatus);
    }
    if env.has_settlement_hash(remittance_id) {
        return Err(ValidationFailure::DuplicateSettlement);
    }
    if let Some(expiry_time) = remittance.expiry {
        let current_time = env.timestamp();
        if current_time > expiry_time {
            return Err(ValidationFailure::SettlementExpired);
        }
    }
    if !remittance.agent.is_well_formed() {
        return Err(ValidationFailure::InvalidAddress);
    }
    if remittance.fee > remittance.amount {
        return Err(ValidationFailure::Overflow);
    }
    let payout_amount = match remittance.amount.checked_sub(remittance.fee) {
        Some(amount) => amount,
        None => {
            return Err(ValidationFailure::Overflow);
        },
    };
    Ok(
        ValidatedSettlement {
            remittance_id,
            agent: remittance.agent,
            payout_amount,
            fee: remittance.fee,
            sender: remittance.sender,
        },
    )
}

/// The first entry that names a remittance which an earlier entry names, if
/// there is one.
fn first_repeat(settlements: &Vec<BatchSettleEntry>) -> (at: Option<usize>)
    ensures
        match at {
            Some(i) => {
                &&& i < settlements@.len()
                &&& repeats(settlements@, i as int)
                &&& forall|j: int| 0 <= j < i ==> !(#[trigger] repeats(settlements@, j))
            },
            None => no_repeat(settlements@),
        },
{
    let mut seen: HashSet<u64> = HashSet::new();
    let mut i: usize = 0;
    while i < settlements.len()
        invariant
            i <= settlements@.len(),
            forall|id: u64| seen@.contains(id) <==> listed(settlements@, i as int, id),
            forall|j: int| 0 <= j < i ==> !(#[trigger] repeats(settlements@, j)),
        decreases settlements@.len() - i,
    {
        let entry = settlements[i];
        if seen.contains(&entry.remittance_id) {
            return Some(i);
        }
        proof {
            lemma_listed_next(settlements@, i as int);
        }
        seen.insert(entry.remittance_id);
        i += 1;
    }
    None
}

/// The first phase: every entry checked against the state in the caller's
/// order, nothing written; then, where every entry passed, the batch looked
/// through for a remittance that is named twice. Returns what the execution
/// needs of each entry, or the index of the entry that the sink is told of
/// and why.
fn validate_batch(env: &Ledger, settlements: &Vec<BatchSettleEntry>) -> (result: Result<
    Vec<ValidatedSettlement>,
    (usize, ValidationFailure),
>)
    ensures
        match result {
            Ok(validated) => {
                &&& all_valid(env@, settlements@)
                &&& validated@.len() == settlements@.len()
                &&& forall|j: int|
                    0 <= j < settlements@.len() ==> (#[trigger] validated@[j]) == validated_entry(
                        env@,
                        settlements@[j].remittance_id,
                    )
            },
            Err((i, failure)) => {
                &&& is_reported(env@, settlements@, i as int)
                &&& failure == reported_failure(env@, settlements@, i as int)
            },
        },
{
    let mut validated: Vec<ValidatedSettlement> = Vec::new();
    let mut i: usize = 0;
    while i < settlements.len()
        invariant
            i <= settlements@.len(),
            validated@.len() == i,
            forall|j: int|
                0 <= j < i ==> entry_failure(
                    env@,
                    (#[trigger] settlements@[j]).remittance_id,
                ).is_none(),
            forall|j: int|
                0 <= j < i ==> (#[trigger] validated@[j]) == validated_entry(
                    env@,
                    settlements@[j].remittance_id,
                ),
        decreases settlements@.len() - i,
    {
        let entry = settlements[i];
        match validate_entry(env, entry.remittance_id) {
            Ok(settlement) => {
                validated.push(settlement);
            },
            Err(failure) => {
                assert(entry_failure(env@, settlements@[i as int].remittance_id).is_some());
                assert(!all_settleable(env@, settlements@));
                return Err((i, failure));
            },
        }
        i += 1;
    }
    assert(all_settleable(env@, settlements@));
    match first_repeat(settlements) {
        Some(i) => Err((i, ValidationFailure::DuplicateSettlement)),
        None => Ok(validated),
    }
}

/// What the execution of a valid batch adds up to.
struct BatchTotals {
    /// The fee pool after the last entry.
    new_fees: i128,
    /// The number of entries.
    success_count: u32,
    /// The sum of the payouts.
    total_payout: i128,
    /// One result for each entry.
    results: Vec<BatchSettleResult>,
}

/// Runs the totals of a valid batch entry by entry, writing nothing: the fee
/// pool, the number of entries and the sum of the payouts. Fails with
/// `Overflow` as soon as the pool or the sum leaves the 128-bit range.
fn stage_totals(
    pool: i128,
    validated: &Vec<ValidatedSettlement>,
    Ghost(s): Ghost<LedgerState>,
    Ghost(entries): Ghost<Seq<BatchSettleEntry>>,
) -> (result: Result<BatchTotals, ContractError>)
    requires
        s.accumulated_fees == Some(pool),
        entries.len() <= u32::MAX,
        validated@.len() == entries.len(),
        forall|j: int|
            0 <= j < entries.len() ==> (#[trigger] validated@[j]) == validated_entry(
                s,
                entries[j].remittance_id,
            ),
    ensures
        match result {
            Ok(totals) => {
                &&& totals_fit(s, entries)
                &&& totals.new_fees == pool + fees_of_first(s, entries, entries.len() as int)
                &&& totals.success_count == entries.len()
                &&& totals.total_payout == payouts_of_first(s, entries, entries.len() as int)
                &&& totals.results@ == batch_results(s, entries, entries.len() as int)
            },
            Err(e) => e == ContractError::Overflow && !totals_fit(s, entries),
        },
{
    let mut new_fees: i128 = pool;
    let mut success_count: u32 = 0;
    let mut total_payout: i128 = 0;
    let mut results: Vec<BatchSettleResult> = Vec::new();
    let mut k: usize = 0;
    while k < validated.len()
        invariant
            k <= entries.len() <= u32::MAX,
            validated@.len() == entries.len(),
            s.accumulated_fees == Some(pool),
            forall|j: int|
                0 <= j < entries.len() ==> (#[trigger] validated@[j]) == validated_entry(
                    s,
                    entries[j].remittance_id,
                ),
            new_fees == pool + fees_of_first(s, entries, k as int),
            success_count == k,
            total_payout == payouts_of_first(s, entries, k as int),
            results@ == batch_results(s, entries, k as int),
            forall|m: int|
                1 <= m <= k ==> fits_i128(pool + #[trigger] fees_of_first(s, entries, m))
                    && fits_i128(payouts_of_first(s, entries, m)),
        decreases entries.len() - k,
    {
        let settlement = validated[k];
        new_fees = match new_fees.checked_add(settlement.fee) {
            Some(fees) => fees,
            None => {
                assert(!fits_i128(pool + fees_of_first(s, entries, k + 1)));
                return Err(ContractError::Overflow);
            },
        };
        total_payout = match total_payout.checked_add(settlement.payout_amount) {
            Some(total) => total,
            None => {
                proof {
                    let fees_so_far = fees_of_first(s, entries, k + 1);
                    assert(fits_i128(pool + fees_so_far));
                    assert(!fits_i128(payouts_of_first(s, entries, k + 1)));
                }
                return Err(ContractError::Overflow);
            },
        };
        success_count += 1;
        results.push(
            BatchSettleResult {
                remittance_id: settlement.remittance_id,
                success: true,
                payout_amount: settlement.payout_amount,
            },
        );
        assert(results@ =~= batch_results(s, entries, k + 1));
        assert(fees_of_first(s, entries, k + 1) == fees_of_first(s, entries, k as int)
            + settlement.fee);
        assert(payouts_of_first(s, entries, k + 1) == payouts_of_first(s, entries, k as int)
            + settlement.payout_amount);
        k += 1;
    }
    Ok(BatchTotals { new_fees, success_count, total_payout, results })
}

/// The state `before` after one entry is paid out: the payout is queued, the
/// remittance is completed and marked, and the sink is told.
pub open spec fn settle_one(
    before: LedgerState,
    settlement: ValidatedSettlement,
    token: Principal,
) -> LedgerState {
    (LedgerState {
        remittances: before.remittances.insert(
            settlement.remittance_id,
            before.remittances[settlement.remittance_id].with_status(RemittanceStatus::Completed),
        ),
        settlements: before.settlements.insert(settlement.remittance_id),
        ..before
    }).transfer(
        Transfer::Release { to: settlement.agent, amount: settlement.payout_amount },
    ).publish(
        EventBody::RemittanceCompleted {
            remittance_id: settlement.remittance_id,
            sender: settlement.sender,
            agent: settlement.agent,
            token,
            amount: settlement.payout_amount,
        },
    )
}

/// An id is among the first `k + 1` entries if it is among the first `k` or
/// is the id of entry `k`.
pub proof fn lemma_listed_next(entries: Seq<BatchSettleEntry>, k: int)
    requires
        0 <= k < entries.len(),
    ensures
        forall|id: u64|
            listed(entries, k + 1, id) <==> (#[trigger] listed(entries, k, id)) || id
                == entries[k].remittance_id,
{
    assert forall|id: u64|
        listed(entries, k + 1, id) <==> (#[trigger] listed(entries, k, id)) || id
            == entries[k].remittance_id by {
        if listed(entries, k, id) {
            let j = choose|j: int| 0 <= j < k && (#[trigger] entries[j]).remittance_id == id;
            assert(0 <= j < k + 1 && entries[j].remittance_id == id);
        }
        if id == entries[k].remittance_id {
            assert(0 <= k < k + 1 && entries[k].remittance_id == id);
        }
        if listed(entries, k + 1, id) {
            let j = choose|j: int| 0 <= j < k + 1 && (#[trigger] entries[j]).remittance_id == id;
            if j < k {
                assert(0 <= j < k && entries[j].remittance_id == id);
            }
        }
    }
}

/// Paying out entry `k` of a valid batch leads from the state after the
/// first `k` entries to the state after the first `k + 1`.
pub proof fn lemma_settle_next(s: LedgerState, entries: Seq<BatchSettleEntry>, k: int)
    requires
        0 <= k < entries.len(),
        s.remittances.contains_key(entries[k].remittance_id),
        s.usdc_token.is_some(),
    ensures
        settled_first(s, entries, k + 1) == settle_one(
            settled_first(s, entries, k),
            validated_entry(s, entries[k].remittance_id),
            s.usdc_token.unwrap(),
        ),
{
    let after = settled_first(s, entries, k + 1);
    let stepped = settle_one(
        settled_first(s, entries, k),
        validated_entry(s, entries[k].remittance_id),
        s.usdc_token.unwrap(),
    );
    lemma_listed_next(entries, k);
    assert(after.remittances =~= stepped.remittances);
    assert(after.settlements =~= stepped.settlements);
    assert(after.transfers =~= stepped.transfers);
    assert(after.events =~= stepped.events);
    assert(after =~= stepped);
}

/// The second phase: pays every entry of a valid batch out, in the caller's
/// order, then writes the fee pool and tells the sink. Nothing here can fail.
fn commit_batch(
    env: &mut Ledger,
    usdc_token: Principal,
    validated: &Vec<ValidatedSettlement>,
    totals: &BatchTotals,
    Ghost(entries): Ghost<Seq<BatchSettleEntry>>,
)
    requires
        0 < entries.len() <= u32::MAX,
        old(env)@.usdc_token == Some(usdc_token),
        all_valid(old(env)@, entries),
        validated@.len() == entries.len(),
        forall|j: int|
            0 <= j < entries.len() ==> (#[trigger] validated@[j]) == validated_entry(
                old(env)@,
                entries[j].remittance_id,
            ),
        old(env)@.accumulated_fees.is_some(),
        totals_fit(old(env)@, entries),
        totals.new_fees == old(env)@.accumulated_fees.unwrap() + fees_of_first(
            old(env)@,
            entries,
            entries.len() as int,
        ),
        totals.success_count == entries.len(),
        totals.total_payout == payouts_of_first(old(env)@, entries, entries.len() as int),
    ensures
        final(env)@ == batch_settle_effect(old(env)@, entries),
{
    let ghost s = env@;
    let batch_size = totals.success_count;
    emit_batch_settlement_started(env, batch_size);
    assert(env@ =~= settled_first(s, entries, 0));

    let mut k: usize = 0;
    while k < validated.len()
        invariant
            k <= entries.len(),
            validated@.len() == entries.len(),
            s.usdc_token == Some(usdc_token),
            all_valid(s, entries),
            forall|j: int|
                0 <= j < entries.len() ==> (#[trigger] validated@[j]) == validated_entry(
                    s,
                    entries[j].remittance_id,
                ),
            env@ == settled_first(s, entries, k as int),
        decreases entries.len() - k,
    {
        let settlement = validated[k];
        proof {
            assert(entry_failure(s, entries[k as int].remittance_id).is_none());
            lemma_settle_next(s, entries, k as int);
        }
        env.transfer(
            Transfer::Release { to: settlement.agent, amount: settlement.payout_amount },
        );
        env.set_remittance_status(settlement.remittance_id, RemittanceStatus::Completed);
        env.set_settlement_hash(settlement.remittance_id);
        emit_remittance_completed(
            env,
            settlement.remittance_id,
            settlement.sender,
            settlement.agent,
            usdc_token,
            settlement.payout_amount,
        );
        assert(env@ =~= settled_first(s, entries, k + 1));
        k += 1;
    }

    env.set_accumulated_fees(totals.new_fees);
    emit_batch_settlement_completed(env, batch_size, totals.success_count, totals.total_payout);
}

impl SwiftRemitContract {
    /// Settles every remittance of the batch, or none.
    ///
    /// The entries are first checked in the order given, against the state as
    /// it stands and with nothing written (`validate_entry`). If one fails a
    /// check, the sink is told that a batch was taken up and which entry
    /// failed first and why, and the call fails with `BatchValidationFailed`.
    /// So it does where every entry passes but one names a remittance which
    /// an earlier entry names: the sink is then told of the first such entry,
    /// for `DuplicateSettlement`, and no remittance is paid out twice.
    /// Otherwise every entry is paid out in the order given, as
    /// `confirm_payout` would: a payout is queued, the fee goes to the pool,
    /// the settlement marker is set, the remittance is completed and the sink
    /// is told; a last record for the sink then carries the number of entries
    /// and the sum of the payouts.
    ///
    /// Fails, in this order: with `BatchEmpty`; `NotFound` where the store
    /// holds no asset; `BatchValidationFailed`; `NotFound` where the store
    /// holds no fee pool; `Overflow` where the pool or the sum of the payouts
    /// would leave the 128-bit range after some entry. Every failure but
    /// `BatchValidationFailed` leaves the ledger as it was.
    pub fn batch_settle(env: &mut Ledger, settlements: Vec<BatchSettleEntry>) -> (result: Result<
        Vec<BatchSettleResult>,
        ContractError,
    >)
        requires
            settlements@.len() <= u32::MAX,
        ensures
            match result {
                Ok(results) => batch_settle_outcome(old(env)@, settlements@) == Ok::<
                    Seq<BatchSettleResult>,
                    ContractError,
                >(results@),
                Err(e) => batch_settle_outcome(old(env)@, settlements@) == Err::<
                    Seq<BatchSettleResult>,
                    ContractError,
                >(e),
            },
            final(env)@ == batch_settle_effect(old(env)@, settlements@),
    {
        if settlements.is_empty() {
            return Err(ContractError::BatchEmpty);
        }
        let batch_size = settlements.len() as u32;
        let usdc_token = env.get_usdc_token()?;

        let validated = match validate_batch(env, &settlements) {
            Ok(validated) => validated,
            Err((i, failure)) => {
                proof {
                    lemma_reported_is_unique(env@, settlements@, i as int);
                }
                emit_batch_settlement_started(env, batch_size);
                emit_batch_settlement_failed(
                    env,
                    i as u32,
                    settlements[i].remittance_id,
                    failure.code(),
                );
                return Err(ContractError::BatchValidationFailed);
            },
        };

        let pool = env.get_accumulated_fees()?;
        let totals = stage_totals(pool, &validated, Ghost(env@), Ghost(settlements@))?;
        commit_batch(env, usdc_token, &validated, &totals, Ghost(settlements@));

        Ok(totals.results)
    }
}

/// Every entry of a valid batch names a remittance that can be settled, and
/// no two entries name the same remittance.
pub proof fn lemma_valid_batch(s: LedgerState, entries: Seq<BatchSettleEntry>)
    requires
        all_valid(s, entries),
    ensures
        forall|i: int|
            0 <= i < entries.len() ==> entry_failure(
                s,
                (#[trigger] entries[i]).remittance_id,
            ).is_none(),
        forall|i: int, j: int|
            0 <= i < j < entries.len() ==> (#[trigger] entries[i]).remittance_id != (
            #[trigger] entries[j]).remittance_id,
{
    assert forall|i: int, j: int| 0 <= i < j < entries.len() implies (
    #[trigger] entries[i]).remittance_id != (#[trigger] entries[j]).remittance_id by {
        assert(!repeats(entries, j));
        if entries[i].remittance_id == entries[j].remittance_id {
            assert(listed(entries, j, entries[j].remittance_id));
        }
    }
}

/// A batch has at most one entry that the sink is told of, and none if it is
/// valid.
pub proof fn lemma_reported_is_unique(s: LedgerState, entries: Seq<BatchSettleEntry>, i: int)
    requires
        is_reported(s, entries, i),
    ensures
        reported_index(s, entries) == i,
        !all_valid(s, entries),
{
    let c = reported_index(s, entries);
    assert(is_reported(s, entries, c));
    if all_settleable(s, entries) {
        assert(repeats(entries, i));
        if c < i {
            assert(!repeats(entries, c));
        }
        if i < c {
            assert(!repeats(entries, i));
        }
    } else {
        if c < i {
            assert(entry_failure(s, entries[c].remittance_id).is_none());
        }
        if i < c {
            assert(entry_failure(s, entries[i].remittance_id).is_none());
        }
    }
}

} // verus!
