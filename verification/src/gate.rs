//! The retry gate: which deposits of a batch may be dispatched now, and what
//! the ledger records of the batch.

use crate::ledger::{DepositKey, Ledger};
use crate::msg::Deposit;
use crate::time::Timestamp;
use vstd::prelude::*;

verus! {

/// A key may be dispatched when the ledger has no stamp for it, or when its
/// stamp plus the retry delay lies strictly before `now`.
pub open spec fn eligible(
    ledger: Map<DepositKey, Timestamp>,
    key: DepositKey,
    now: Timestamp,
    retry_delay: u64,
) -> bool {
    ledger.contains_key(key) ==> ledger[key].elapsed_before(retry_delay, now)
}

/// The ledger after every deposit of the batch, in order, had its key
/// stamped with `now`.
pub open spec fn stamped(
    ledger: Map<DepositKey, Timestamp>,
    deposits: Seq<Deposit>,
    now: Timestamp,
) -> Map<DepositKey, Timestamp>
    decreases deposits.len(),
{
    if deposits.len() == 0 {
        ledger
    } else {
        stamped(ledger, deposits.drop_last(), now).insert(deposits.last().key(), now)
    }
}

/// The deposits that may be dispatched, in the order of the batch. Each deposit
/// is judged against the ledger as the deposits before it have left it.
pub open spec fn selected(
    ledger: Map<DepositKey, Timestamp>,
    deposits: Seq<Deposit>,
    now: Timestamp,
    retry_delay: u64,
) -> Seq<Deposit>
    decreases deposits.len(),
{
    if deposits.len() == 0 {
        Seq::empty()
    } else {
        let earlier = deposits.drop_last();
        let passed = selected(ledger, earlier, now, retry_delay);
        if eligible(stamped(ledger, earlier, now), deposits.last().key(), now, retry_delay) {
            passed.push(deposits.last())
        } else {
            passed
        }
    }
}

/// Decides a batch: stamps every key with `now` and returns the
/// deposits that may be dispatched.
pub fn retry_gate(
    ledger: &mut Ledger,
    deposits: &Vec<Deposit>,
    now: Timestamp,
    retry_delay: u64,
) -> (passed: Vec<Deposit>)
    ensures
        passed@ == selected(old(ledger)@, deposits@, now, retry_delay),
        final(ledger)@ == stamped(old(ledger)@, deposits@, now),
{
    let mut passed: Vec<Deposit> = Vec::new();
    let mut i: usize = 0;
    while i < deposits.len()
        invariant
            i <= deposits.len(),
            passed@ == selected(old(ledger)@, deposits@.take(i as int), now, retry_delay),
            ledger@ == stamped(old(ledger)@, deposits@.take(i as int), now),
        decreases deposits.len() - i,
    {
        let deposit = deposits[i];
        let may_go = match ledger.stamp_of(deposit.deposit_id, deposit.remaining_count) {
            Some(stamp) => stamp.has_elapsed_before(retry_delay, now),
            None => true,
        };
        if may_go {
            passed.push(deposit);
        }
        ledger.record(deposit.deposit_id, deposit.remaining_count, now);
        proof {
            let next = deposits@.take(i + 1);
            assert(next.drop_last() =~= deposits@.take(i as int));
            assert(next.last() == deposit);
        }
        i += 1;
    }
    assert(deposits@.take(i as int) =~= deposits@);
    passed
}

/// No more deposits are dispatched than the batch holds.
pub proof fn lemma_selected_len(
    ledger: Map<DepositKey, Timestamp>,
    deposits: Seq<Deposit>,
    now: Timestamp,
    retry_delay: u64,
)
    ensures
        selected(ledger, deposits, now, retry_delay).len() <= deposits.len(),
    decreases deposits.len(),
{
    if deposits.len() > 0 {
        lemma_selected_len(ledger, deposits.drop_last(), now, retry_delay);
    }
}

/// Whether some deposit of the batch has the given key.
pub open spec fn in_batch(deposits: Seq<Deposit>, key: DepositKey) -> bool {
    exists|i: int| 0 <= i < deposits.len() && #[trigger] deposits[i].key() == key
}

/// Whether the deposit at position `i` is the first of the batch with its key.
pub open spec fn first_of_key(deposits: Seq<Deposit>, i: int) -> bool {
    forall|j: int| 0 <= j < i ==> #[trigger] deposits[j].key() != deposits[i].key()
}

/// Whether `positions` lists, in rising order, places of `all` at which the
/// items of `part` stand.
pub open spec fn stands_at(part: Seq<Deposit>, all: Seq<Deposit>, positions: Seq<int>) -> bool {
    &&& positions.len() == part.len()
    &&& forall|k: int|
        0 <= k < part.len() ==> 0 <= #[trigger] positions[k] < all.len() && part[k]
            == all[positions[k]]
    &&& forall|k: int, l: int|
        0 <= k < l < part.len() ==> #[trigger] positions[k] < #[trigger] positions[l]
}

/// The batch stamps each of its keys with `now` and leaves every other key
/// of the ledger as it was.
pub proof fn law_batch_stamps_its_keys(
    ledger: Map<DepositKey, Timestamp>,
    deposits: Seq<Deposit>,
    now: Timestamp,
    key: DepositKey,
)
    ensures
        in_batch(deposits, key) ==> stamped(ledger, deposits, now).contains_key(key) && stamped(
            ledger,
            deposits,
            now,
        )[key] == now,
        !in_batch(deposits, key) ==> (stamped(ledger, deposits, now).contains_key(key)
            <==> ledger.contains_key(key)),
        !in_batch(deposits, key) && ledger.contains_key(key) ==> stamped(ledger, deposits, now)[key]
            == ledger[key],
    decreases deposits.len(),
{
    if deposits.len() > 0 {
        let earlier = deposits.drop_last();
        law_batch_stamps_its_keys(ledger, earlier, now, key);
        if in_batch(deposits, key) {
            let i = choose|i: int| 0 <= i < deposits.len() && #[trigger] deposits[i].key() == key;
            if i < earlier.len() {
                assert(earlier[i].key() == key);
            }
        } else {
            assert(deposits[deposits.len() - 1].key() != key);
            assert forall|i: int| 0 <= i < earlier.len() implies #[trigger] earlier[i].key()
                != key by {
                assert(deposits[i].key() != key);
            }
        }
    }
}

/// A batch removes no key from the ledger.
pub proof fn law_ledger_never_forgets(
    ledger: Map<DepositKey, Timestamp>,
    deposits: Seq<Deposit>,
    now: Timestamp,
    key: DepositKey,
)
    requires
        ledger.contains_key(key),
    ensures
        stamped(ledger, deposits, now).contains_key(key),
{
    law_batch_stamps_its_keys(ledger, deposits, now, key);
}

/// A stamp of `now` has not elapsed at `now`, whatever the delay.
pub proof fn lemma_fresh_stamp_is_held(now: Timestamp, retry_delay: u64)
    ensures
        !now.elapsed_before(retry_delay, now),
{
    assert(retry_delay * crate::time::NANOS_PER_SECOND >= 0) by (nonlinear_arith);
}

/// Within a batch, a key is judged as the ledger had it before the batch,
/// and only where no earlier deposit of the batch had the same key.
pub proof fn lemma_eligible_within_batch(
    ledger: Map<DepositKey, Timestamp>,
    earlier: Seq<Deposit>,
    now: Timestamp,
    retry_delay: u64,
    key: DepositKey,
)
    ensures
        eligible(stamped(ledger, earlier, now), key, now, retry_delay) <==> !in_batch(earlier, key)
            && eligible(ledger, key, now, retry_delay),
{
    law_batch_stamps_its_keys(ledger, earlier, now, key);
    lemma_fresh_stamp_is_held(now, retry_delay);
}

/// The places of the batch at which the dispatched deposits stand, in
/// rising order.
pub open spec fn selected_positions(
    ledger: Map<DepositKey, Timestamp>,
    deposits: Seq<Deposit>,
    now: Timestamp,
    retry_delay: u64,
) -> Seq<int>
    decreases deposits.len(),
{
    if deposits.len() == 0 {
        Seq::empty()
    } else {
        let earlier = deposits.drop_last();
        let before = selected_positions(ledger, earlier, now, retry_delay);
        if eligible(stamped(ledger, earlier, now), deposits.last().key(), now, retry_delay) {
            before.push(deposits.len() - 1)
        } else {
            before
        }
    }
}

/// The deposits that are dispatched stand in the batch in the same order:
/// `selected_positions` lists their places.
pub proof fn law_selection_keeps_order(
    ledger: Map<DepositKey, Timestamp>,
    deposits: Seq<Deposit>,
    now: Timestamp,
    retry_delay: u64,
)
    ensures
        stands_at(
            selected(ledger, deposits, now, retry_delay),
            deposits,
            selected_positions(ledger, deposits, now, retry_delay),
        ),
    decreases deposits.len(),
{
    if deposits.len() > 0 {
        let earlier = deposits.drop_last();
        let part = selected(ledger, earlier, now, retry_delay);
        let before = selected_positions(ledger, earlier, now, retry_delay);
        let all = selected(ledger, deposits, now, retry_delay);
        let positions = selected_positions(ledger, deposits, now, retry_delay);
        law_selection_keeps_order(ledger, earlier, now, retry_delay);
        assert forall|k: int| 0 <= k < all.len() implies 0 <= #[trigger] positions[k]
            < deposits.len() && all[k] == deposits[positions[k]] by {
            if k < before.len() {
                assert(0 <= before[k] < earlier.len());
                assert(part[k] == earlier[before[k]]);
            }
        }
        assert forall|k: int, l: int| 0 <= k < l < all.len() implies #[trigger] positions[k]
            < #[trigger] positions[l] by {
            assert(0 <= before[k] < earlier.len());
            if l < before.len() {
                assert(before[k] < before[l]);
            }
        }
    }
}

/// A deposit is dispatched exactly where its key occurs for the first time
/// in the batch and was eligible before the batch.
pub proof fn law_first_eligible_is_selected(
    ledger: Map<DepositKey, Timestamp>,
    deposits: Seq<Deposit>,
    now: Timestamp,
    retry_delay: u64,
    i: int,
)
    requires
        0 <= i < deposits.len(),
    ensures
        selected_positions(ledger, deposits, now, retry_delay).contains(i) <==> first_of_key(
            deposits,
            i,
        ) && eligible(ledger, deposits[i].key(), now, retry_delay),
    decreases deposits.len(),
{
    let earlier = deposits.drop_last();
    let last = deposits.len() - 1;
    let before = selected_positions(ledger, earlier, now, retry_delay);
    let positions = selected_positions(ledger, deposits, now, retry_delay);
    let goes = eligible(stamped(ledger, earlier, now), deposits[last].key(), now, retry_delay);
    law_selection_keeps_order(ledger, earlier, now, retry_delay);
    if i < last {
        law_first_eligible_is_selected(ledger, earlier, now, retry_delay, i);
        assert(deposits[i] == earlier[i]);
        assert(first_of_key(deposits, i) <==> first_of_key(earlier, i)) by {
            assert forall|j: int| 0 <= j < i implies deposits[j] == earlier[j] by {}
        }
        if before.contains(i) {
            let k = choose|k: int| 0 <= k < before.len() && before[k] == i;
            assert(positions[k] == i);
        }
        if positions.contains(i) {
            let k = choose|k: int| 0 <= k < positions.len() && positions[k] == i;
            assert(before[k] == i);
        }
    } else {
        let key = deposits[last].key();
        lemma_eligible_within_batch(ledger, earlier, now, retry_delay, key);
        assert(first_of_key(deposits, last) <==> !in_batch(earlier, key)) by {
            if in_batch(earlier, key) {
                let j = choose|j: int| 0 <= j < earlier.len() && #[trigger] earlier[j].key() == key;
                assert(deposits[j].key() == key);
            }
            if !first_of_key(deposits, last) {
                let j = choose|j: int|
                    0 <= j < last && #[trigger] deposits[j].key() == deposits[last].key();
                assert(earlier[j].key() == key);
            }
        }
        if goes {
            assert(positions[positions.len() - 1] == last);
        }
        if positions.contains(i) {
            let k = choose|k: int| 0 <= k < positions.len() && positions[k] == i;
            if k < before.len() {
                assert(0 <= before[k] < earlier.len());
            }
        }
    }
}

/// The first place of the batch at which the key of place `i` occurs.
pub proof fn lemma_first_place_of_key(deposits: Seq<Deposit>, i: int) -> (first: int)
    requires
        0 <= i < deposits.len(),
    ensures
        0 <= first <= i,
        deposits[first].key() == deposits[i].key(),
        first_of_key(deposits, first),
    decreases i,
{
    if first_of_key(deposits, i) {
        i
    } else {
        let j = choose|j: int| 0 <= j < i && #[trigger] deposits[j].key() == deposits[i].key();
        lemma_first_place_of_key(deposits, j)
    }
}

/// A key is dispatched by a batch exactly when the batch holds it and it
/// was eligible before the batch.
pub proof fn law_key_selected_iff_eligible(
    ledger: Map<DepositKey, Timestamp>,
    deposits: Seq<Deposit>,
    now: Timestamp,
    retry_delay: u64,
    key: DepositKey,
)
    ensures
        in_batch(selected(ledger, deposits, now, retry_delay), key) <==> in_batch(deposits, key)
            && eligible(ledger, key, now, retry_delay),
{
    let passed = selected(ledger, deposits, now, retry_delay);
    let positions = selected_positions(ledger, deposits, now, retry_delay);
    law_selection_keeps_order(ledger, deposits, now, retry_delay);
    if in_batch(passed, key) {
        let k = choose|k: int| 0 <= k < passed.len() && #[trigger] passed[k].key() == key;
        let i = positions[k];
        assert(deposits[i].key() == key);
        law_first_eligible_is_selected(ledger, deposits, now, retry_delay, i);
    }
    if in_batch(deposits, key) && eligible(ledger, key, now, retry_delay) {
        let i = choose|i: int| 0 <= i < deposits.len() && #[trigger] deposits[i].key() == key;
        let first = lemma_first_place_of_key(deposits, i);
        law_first_eligible_is_selected(ledger, deposits, now, retry_delay, first);
        let k = choose|k: int| 0 <= k < positions.len() && positions[k] == first;
        assert(passed[k].key() == key);
    }
}

/// A key that the ledger has never seen is dispatched by the first batch
/// that holds it, and stamped with the time of that batch.
pub proof fn law_new_key_is_selected(
    ledger: Map<DepositKey, Timestamp>,
    deposits: Seq<Deposit>,
    now: Timestamp,
    retry_delay: u64,
    key: DepositKey,
)
    requires
        !ledger.contains_key(key),
        in_batch(deposits, key),
    ensures
        in_batch(selected(ledger, deposits, now, retry_delay), key),
        stamped(ledger, deposits, now).contains_key(key),
        stamped(ledger, deposits, now)[key] == now,
{
    law_key_selected_iff_eligible(ledger, deposits, now, retry_delay, key);
    law_batch_stamps_its_keys(ledger, deposits, now, key);
}

/// A key whose stamp plus the retry delay lies before `now` is dispatched
/// again, and its stamp becomes `now`.
pub proof fn law_elapsed_key_is_selected(
    ledger: Map<DepositKey, Timestamp>,
    deposits: Seq<Deposit>,
    now: Timestamp,
    retry_delay: u64,
    key: DepositKey,
)
    requires
        ledger.contains_key(key),
        ledger[key].nanos + retry_delay * crate::time::NANOS_PER_SECOND < now.nanos,
        in_batch(deposits, key),
    ensures
        in_batch(selected(ledger, deposits, now, retry_delay), key),
        stamped(ledger, deposits, now)[key] == now,
{
    law_key_selected_iff_eligible(ledger, deposits, now, retry_delay, key);
    law_batch_stamps_its_keys(ledger, deposits, now, key);
}

/// A key whose stamp plus the retry delay is exactly `now` is not
/// dispatched, yet its stamp becomes `now`.
pub proof fn law_boundary_key_is_held(
    ledger: Map<DepositKey, Timestamp>,
    deposits: Seq<Deposit>,
    now: Timestamp,
    retry_delay: u64,
    key: DepositKey,
)
    requires
        ledger.contains_key(key),
        ledger[key].nanos + retry_delay * crate::time::NANOS_PER_SECOND == now.nanos,
        in_batch(deposits, key),
    ensures
        !in_batch(selected(ledger, deposits, now, retry_delay), key),
        stamped(ledger, deposits, now)[key] == now,
{
    law_key_selected_iff_eligible(ledger, deposits, now, retry_delay, key);
    law_batch_stamps_its_keys(ledger, deposits, now, key);
}

/// A key whose stamp plus the retry delay lies after `now` is not
/// dispatched, yet its stamp becomes `now`: the delay starts anew.
pub proof fn law_early_key_is_held(
    ledger: Map<DepositKey, Timestamp>,
    deposits: Seq<Deposit>,
    now: Timestamp,
    retry_delay: u64,
    key: DepositKey,
)
    requires
        ledger.contains_key(key),
        now.nanos < ledger[key].nanos + retry_delay * crate::time::NANOS_PER_SECOND,
        in_batch(deposits, key),
    ensures
        !in_batch(selected(ledger, deposits, now, retry_delay), key),
        stamped(ledger, deposits, now)[key] == now,
{
    law_key_selected_iff_eligible(ledger, deposits, now, retry_delay, key);
    law_batch_stamps_its_keys(ledger, deposits, now, key);
}

/// Nothing is dispatched exactly when no key of the batch was eligible
/// before the batch.
pub proof fn law_nothing_selected_iff_all_held(
    ledger: Map<DepositKey, Timestamp>,
    deposits: Seq<Deposit>,
    now: Timestamp,
    retry_delay: u64,
)
    ensures
        selected(ledger, deposits, now, retry_delay).len() == 0 <==> (forall|i: int|
            0 <= i < deposits.len() ==> !eligible(
                ledger,
                #[trigger] deposits[i].key(),
                now,
                retry_delay,
            )),
{
    let passed = selected(ledger, deposits, now, retry_delay);
    if passed.len() > 0 {
        let key = passed[0].key();
        law_key_selected_iff_eligible(ledger, deposits, now, retry_delay, key);
        let i = choose|i: int| 0 <= i < deposits.len() && #[trigger] deposits[i].key() == key;
        assert(eligible(ledger, deposits[i].key(), now, retry_delay));
    }
    if exists|i: int|
        0 <= i < deposits.len() && eligible(ledger, #[trigger] deposits[i].key(), now, retry_delay) {
        let i = choose|i: int|
            0 <= i < deposits.len() && eligible(
                ledger,
                #[trigger] deposits[i].key(),
                now,
                retry_delay,
            );
        law_key_selected_iff_eligible(ledger, deposits, now, retry_delay, deposits[i].key());
    }
}

} // verus!
