//! Editing the play queue. The first entry is the track playing now; the rest
//! plays after it, in order. These are the edits the queue commands make, each
//! stated over the queue as a sequence.
use vstd::prelude::*;
use std::collections::VecDeque;
use rand::rngs::ThreadRng;
use rand::RngExt;
use crate::errors::CrackedError;
use crate::text::{decimal, push_decimal};

verus! {

#[verifier::external_type_specification]
#[verifier::external_body]
pub struct ExThreadRng(ThreadRng);

/// `RngExt::random_range(0..bound)`: a uniformly drawn index below `bound`.
/// It panics on an empty range, so `bound` must be positive.
#[verifier::external_body]
fn random_below(rng: &mut ThreadRng, bound: usize) -> (r: usize)
    requires
        bound > 0,
    ensures
        r < bound,
{
    rng.random_range(0..bound)
}

/// `q` with the entries at `i` and `j` exchanged.
pub open spec fn swapped<T>(q: Seq<T>, i: int, j: int) -> Seq<T> {
    q.update(i, q[j]).update(j, q[i])
}

/// Exchanges the entries at `i` and `j`.
fn swap_entries<T>(q: &mut VecDeque<T>, i: usize, j: usize)
    requires
        i < old(q)@.len(),
        j < old(q)@.len(),
    ensures
        final(q)@ == swapped(old(q)@, i as int, j as int),
{
    let ghost orig = q@;
    if i == j {
        assert(swapped(orig, i as int, j as int) =~= orig);
        return ;
    }
    let (lo, hi) = if i < j {
        (i, j)
    } else {
        (j, i)
    };
    let b = q.remove(hi).unwrap();
    let a = q.remove(lo).unwrap();
    q.insert(lo, b);
    q.insert(hi, a);
    assert(q@ =~= swapped(orig, i as int, j as int));
}

/// The queue without its tail from `from` on. The removed tracks are handed
/// back so their playback can be stopped. `from` must not exceed the length
/// (draining past the end panics).
pub fn clear_from<T>(q: &mut VecDeque<T>, from: usize) -> (removed: VecDeque<T>)
    requires
        from <= old(q)@.len(),
    ensures
        final(q)@ == old(q)@.take(from as int),
        removed@ == old(q)@.skip(from as int),
{
    q.split_off(from)
}

/// Drop `count` tracks after the one playing, or all of them when fewer are
/// queued. The queue must have a track playing.
pub fn drain_after_current<T>(q: &mut VecDeque<T>, count: usize)
    requires
        old(q)@.len() >= 1,
    ensures
        final(q)@ == seq![old(q)@[0]] + old(q)@.skip(
            if count as int + 1 <= old(q)@.len() { count as int + 1 } else { old(q)@.len() as int },
        ),
{
    let ghost orig = q@;
    let end: usize = if count < q.len() - 1 { count + 1 } else { q.len() };
    let current = q.pop_front().unwrap();
    let mut dropped: usize = 1;
    while dropped < end
        invariant
            1 <= dropped <= end <= orig.len(),
            q@ == orig.skip(dropped as int),
        decreases end - dropped,
    {
        q.pop_front();
        assert(orig.skip(dropped as int).drop_first() =~= orig.skip(dropped + 1));
        dropped = dropped + 1;
    }
    q.push_front(current);
    assert(q@ =~= seq![orig[0]] + orig.skip(end as int));
}

/// Move the track at `at` to `to`. Both must be in range.
pub fn move_track<T>(q: &mut VecDeque<T>, at: usize, to: usize)
    requires
        at < old(q)@.len(),
        to < old(q)@.len(),
    ensures
        final(q)@ == old(q)@.remove(at as int).insert(to as int, old(q)@[at as int]),
{
    let song = q.remove(at).unwrap();
    q.insert(to, song);
}

/// Remove the track at `index`, handing it back so its playback can be
/// stopped. An index past the end removes nothing.
pub fn remove_at<T>(q: &mut VecDeque<T>, index: usize) -> (r: Option<T>)
    ensures
        index < old(q)@.len() ==> r == Some(old(q)@[index as int]) && final(q)@ == old(q)@.remove(
            index as int,
        ),
        index >= old(q)@.len() ==> r is None && final(q)@ == old(q)@,
{
    q.remove(index)
}

/// Move the most recently queued track (the last one) to position `to`, when
/// the queue is long enough for that to change anything: it must hold more
/// than `to + 1` tracks.
pub fn promote_last<T>(q: &mut VecDeque<T>, to: usize)
    ensures
        old(q)@.len() > to as int + 1 ==> final(q)@ == old(q)@.take(to as int).push(old(q)@.last())
            + old(q)@.subrange(to as int, old(q)@.len() - 1),
        old(q)@.len() <= to as int + 1 ==> final(q)@ == old(q)@,
{
    let ghost orig = q@;
    if q.len() > 1 && to < q.len() - 1 {
        let last = q.pop_back().unwrap();
        q.insert(to, last);
        assert(q@ =~= orig.take(to as int).push(orig.last()) + orig.subrange(
            to as int,
            orig.len() - 1,
        ));
    }
}

/// Where a newly queued track goes.
#[derive(Debug, Clone, Copy, PartialEq, Eq, Structural)]
pub enum QueuePosition {
    /// At the front of the queue.
    Front,
    /// Right after the track playing now.
    Next,
    /// At the end of the queue.
    End,
    /// At a specific index.
    At(usize),
}

/// Move a track just queued at the back to where `position` asks for it.
pub fn place_queued<T>(q: &mut VecDeque<T>, position: QueuePosition)
    ensures
        match position {
            QueuePosition::Front => old(q)@.len() > 1 ==> final(q)@ == seq![old(q)@.last()]
                + old(q)@.drop_last(),
            QueuePosition::Next => old(q)@.len() > 2 ==> final(q)@ == seq![old(q)@[0], old(q)@.last()]
                + old(q)@.subrange(1, old(q)@.len() - 1),
            QueuePosition::End => final(q)@ == old(q)@,
            QueuePosition::At(i) => old(q)@.len() > i as int + 1 ==> final(q)@ == old(q)@.take(
                i as int,
            ).push(old(q)@.last()) + old(q)@.subrange(i as int, old(q)@.len() - 1),
        },
        match position {
            QueuePosition::Front => old(q)@.len() <= 1 ==> final(q)@ == old(q)@,
            QueuePosition::Next => old(q)@.len() <= 2 ==> final(q)@ == old(q)@,
            QueuePosition::End => true,
            QueuePosition::At(i) => old(q)@.len() <= i as int + 1 ==> final(q)@ == old(q)@,
        },
{
    let ghost orig = q@;
    match position {
        QueuePosition::Front => {
            promote_last(q, 0);
            assert(orig.len() > 1 ==> q@ =~= seq![orig.last()] + orig.drop_last());
        },
        QueuePosition::Next => {
            promote_last(q, 1);
            assert(orig.len() > 2 ==> q@ =~= seq![orig[0], orig.last()] + orig.subrange(
                1,
                orig.len() - 1,
            ));
        },
        QueuePosition::End => {},
        QueuePosition::At(i) => promote_last(q, i),
    }
}

/// How many draws a Fisher-Yates pass over the tracks behind the one
/// playing takes: one per position from the last down to the third.
pub open spec fn draws_needed(len: nat) -> nat {
    if len >= 3 {
        (len - 2) as nat
    } else {
        0
    }
}

/// Whether `picks` are draws a Fisher-Yates pass can make on a queue of
/// `len` tracks: the right number of them, the `k`-th below `len - 1 - k`,
/// the number of positions from the second to the one being filled.
pub open spec fn valid_picks(len: nat, picks: Seq<usize>) -> bool {
    &&& picks.len() == draws_needed(len)
    &&& forall|k: int| 0 <= k < picks.len() ==> #[trigger] picks[k] < len - 1 - k
}

/// The queue after the first `k` steps of the pass: step `k` exchanges the
/// entry at position `len - 1 - k` with the one at `1 + picks[k]`.
pub open spec fn fisher_yates_steps<T>(q: Seq<T>, picks: Seq<usize>, k: nat) -> Seq<T>
    decreases k,
{
    if k == 0 {
        q
    } else {
        let before = fisher_yates_steps(q, picks, (k - 1) as nat);
        swapped(before, q.len() - k, 1 + picks[k - 1])
    }
}

/// The queue after a whole Fisher-Yates pass with the draws `picks` over the
/// tracks behind the one playing.
pub open spec fn fisher_yates_spec<T>(q: Seq<T>, picks: Seq<usize>) -> Seq<T> {
    fisher_yates_steps(q, picks, picks.len())
}

proof fn lemma_swap_keeps_multiset<T>(q: Seq<T>, i: int, j: int)
    requires
        0 <= i < q.len(),
        0 <= j < q.len(),
    ensures
        swapped(q, i, j).to_multiset() == q.to_multiset(),
        swapped(q, i, j).len() == q.len(),
{
    broadcast use vstd::multiset::group_multiset_axioms;
    broadcast use vstd::seq_lib::to_multiset_contains;

    let mid = q.update(i, q[j]);
    assert(q.to_multiset().count(q[i]) > 0) by {
        assert(q.contains(q[i]));
    }
    vstd::seq_lib::to_multiset_update(q, i, q[j]);
    vstd::seq_lib::to_multiset_update(mid, j, q[i]);
    assert(swapped(q, i, j).to_multiset() =~= q.to_multiset());
}

/// A Fisher-Yates pass behind the track playing keeps that track first and
/// the queue's tracks exactly as they were, whatever was drawn.
pub proof fn a_shuffle_keeps_the_playing_track_and_the_tracks<T>(q: Seq<T>, picks: Seq<usize>)
    requires
        q.len() >= 1,
        valid_picks(q.len(), picks),
    ensures
        fisher_yates_spec(q, picks).len() == q.len(),
        fisher_yates_spec(q, picks)[0] == q[0],
        fisher_yates_spec(q, picks).to_multiset() == q.to_multiset(),
{
    lemma_steps_keep(q, picks, picks.len());
}

proof fn lemma_steps_keep<T>(q: Seq<T>, picks: Seq<usize>, k: nat)
    requires
        q.len() >= 1,
        valid_picks(q.len(), picks),
        k <= picks.len(),
    ensures
        fisher_yates_steps(q, picks, k).len() == q.len(),
        fisher_yates_steps(q, picks, k)[0] == q[0],
        fisher_yates_steps(q, picks, k).to_multiset() == q.to_multiset(),
    decreases k,
{
    if k > 0 {
        lemma_steps_keep(q, picks, (k - 1) as nat);
        let before = fisher_yates_steps(q, picks, (k - 1) as nat);
        assert(picks[k - 1] < q.len() - 1 - (k - 1));
        lemma_swap_keeps_multiset(before, q.len() - k, 1 + picks[k - 1]);
    }
}

/// Reorders the queue behind the track playing now by a Fisher-Yates pass
/// with the draws `picks`: the `k`-th draw picks, among the positions from
/// the second to `len - 1 - k`, the track that goes to `len - 1 - k`.
pub fn shuffle_with<T>(q: &mut VecDeque<T>, picks: &Vec<usize>)
    requires
        valid_picks(old(q)@.len(), picks@),
    ensures
        final(q)@ == fisher_yates_spec(old(q)@, picks@),
{
    let ghost orig = q@;
    let mut k: usize = 0;
    while k < picks.len()
        invariant
            k <= picks@.len(),
            valid_picks(orig.len(), picks@),
            q@ == fisher_yates_steps(orig, picks@, k as nat),
            q@.len() == orig.len(),
        decreases picks@.len() - k,
    {
        let pick = picks[k];
        assert(pick < orig.len() - 1 - k);
        let index = q.len() - 1 - k;
        swap_entries(q, index, 1 + pick);
        k = k + 1;
    }
}

/// Reorder the queue behind the track playing now, by Fisher-Yates with
/// fresh random draws. The track playing stays first, and the queue keeps
/// exactly the tracks it had; the order is the pass with some valid draws.
pub fn shuffle_behind_current<T>(q: &mut VecDeque<T>, rng: &mut ThreadRng)
    requires
        old(q)@.len() >= 1,
    ensures
        exists|picks: Seq<usize>|
            valid_picks(old(q)@.len(), picks) && final(q)@ == fisher_yates_spec(old(q)@, picks),
        final(q)@.len() == old(q)@.len(),
        final(q)@[0] == old(q)@[0],
        final(q)@.to_multiset() == old(q)@.to_multiset(),
{
    let len = q.len();
    let mut picks: Vec<usize> = Vec::new();
    let mut index = len;
    while index >= 3
        invariant
            2 <= index <= len || (index == len && len < 3),
            len == old(q)@.len(),
            len >= 1,
            picks@.len() == len - index,
            forall|k: int| 0 <= k < picks@.len() ==> #[trigger] picks@[k] < len - 1 - k,
        decreases index,
    {
        index = index - 1;
        let draw = random_below(rng, index);
        picks.push(draw);
    }
    assert(valid_picks(len as nat, picks@));
    let ghost orig = q@;
    shuffle_with(q, &picks);
    proof {
        a_shuffle_keeps_the_playing_track_and_the_tracks(orig, picks@);
    }
}

/// Whether `index` names a track of a queue of `len` tracks: an empty queue
/// is refused first, then a position past the end.
pub open spec fn index_check(len: nat, index: nat) -> Result<(), CrackedError> {
    if len == 0 {
        Err(CrackedError::QueueEmpty)
    } else if index >= len {
        Err(CrackedError::IndexOutOfBounds)
    } else {
        Ok(())
    }
}

/// Checks that `index` names a track of a queue of `len` tracks.
pub fn check_queue_index(len: usize, index: usize) -> (r: Result<(), CrackedError>)
    ensures
        r == index_check(len as nat, index as nat),
{
    if len == 0 {
        Err(CrackedError::QueueEmpty)
    } else if index >= len {
        Err(CrackedError::IndexOutOfBounds)
    } else {
        Ok(())
    }
}

/// Removes the track at `index`, handing it back so its playback can be
/// stopped; an empty queue or a position past the end is refused and the
/// queue left as it was.
pub fn remove_track<T>(q: &mut VecDeque<T>, index: usize) -> (r: Result<T, CrackedError>)
    ensures
        index_check(old(q)@.len(), index as nat) is Ok ==> r == Ok::<T, CrackedError>(
            old(q)@[index as int],
        ) && final(q)@ == old(q)@.remove(index as int),
        index_check(old(q)@.len(), index as nat) is Err ==> final(q)@ == old(q)@ && r
            == Err::<T, CrackedError>(index_check(old(q)@.len(), index as nat)->Err_0),
{
    match check_queue_index(q.len(), index) {
        Err(e) => Err(e),
        Ok(()) => {
            let t = q.remove(index).unwrap();
            Ok(t)
        },
    }
}

/// Skipping to the track at `index` skips the track playing `index` times;
/// an empty queue or a position past the end is refused. Gives the number
/// of skips to make.
pub fn skips_to(len: usize, index: usize) -> (r: Result<usize, CrackedError>)
    ensures
        index_check(len as nat, index as nat) is Ok ==> r == Ok::<usize, CrackedError>(index),
        index_check(len as nat, index as nat) is Err ==> r == Err::<usize, CrackedError>(
            index_check(len as nat, index as nat)->Err_0,
        ),
{
    match check_queue_index(len, index) {
        Err(e) => Err(e),
        Ok(()) => Ok(index),
    }
}

/// The smaller of two lengths.
pub open spec fn min_len(a: nat, b: nat) -> nat {
    if a <= b {
        a
    } else {
        b
    }
}

/// Where a batch of tracks lands. At the end they follow the queue in order;
/// at the front they come before it in order; next they come right after the
/// track playing in order (into an empty queue the last one comes first,
/// then the others in order); at a position they are inserted there, last
/// one first, or at the end when the queue is shorter.
pub open spec fn batch_placed<T>(q: Seq<T>, batch: Seq<T>, position: QueuePosition) -> Seq<T> {
    match position {
        QueuePosition::End => q + batch,
        QueuePosition::Front => batch + q,
        QueuePosition::Next => if q.len() >= 1 {
            seq![q[0]] + batch + q.skip(1)
        } else if batch.len() >= 1 {
            seq![batch.last()] + batch.drop_last()
        } else {
            q
        },
        QueuePosition::At(index) => {
            let k = min_len(index as nat, q.len()) as int;
            q.take(k) + batch.reverse() + q.skip(k)
        },
    }
}

/// Whether a batch can be placed without a position past what the queue can
/// take: a position past the queue's end takes only as many tracks as it is
/// past it, plus one, and the position must leave room to count past it.
pub open spec fn batch_fits(len: nat, batch_len: nat, position: QueuePosition) -> bool {
    match position {
        QueuePosition::At(index) => index < usize::MAX && (index > len ==> batch_len <= index - len
            + 1),
        _ => true,
    }
}

/// Queues a batch of tracks at `position`, one track at a time: each is
/// queued at the back and then moved, the last track of the batch first
/// unless they go at the end.
pub fn place_batch<T>(q: &mut VecDeque<T>, batch: Vec<T>, position: QueuePosition)
    requires
        batch_fits(old(q)@.len(), batch@.len(), position),
    ensures
        final(q)@ == batch_placed(old(q)@, batch@, position),
{
    let ghost orig = q@;
    let ghost all = batch@;
    let mut rest = batch;
    if let QueuePosition::End = position {
        while rest.len() > 0
            invariant
                position == QueuePosition::End,
                rest@ == all.skip(all.len() - rest@.len()),
                rest@.len() <= all.len(),
                q@ == orig + all.take(all.len() - rest@.len()),
            decreases rest@.len(),
        {
            let ghost done = all.len() - rest@.len();
            let t = rest.remove(0);
            q.push_back(t);
            proof {
                assert(all.take(done + 1) =~= all.take(done).push(all[done]));
                assert(rest@ =~= all.skip(all.len() - rest@.len()));
                assert(q@ =~= orig + all.take(all.len() - rest@.len()));
            }
        }
        proof {
            assert(all.take(all.len() as int) =~= all);
        }
        return ;
    }
    let mut i: usize = 0;
    let total: usize = rest.len();
    while rest.len() > 0
        invariant
            position != QueuePosition::End,
            batch_fits(orig.len(), all.len(), position),
            rest@ == all.take(rest@.len() as int),
            rest@.len() <= all.len(),
            all.len() == total,
            i == all.len() - rest@.len(),
            q@ == batch_placed(orig, all.skip(rest@.len() as int), position),
        decreases rest@.len(),
    {
        let ghost done = all.skip(rest@.len() as int);
        let ghost before = q@;
        let t = rest.pop().unwrap();
        let ghost next = all.skip(rest@.len() as int);
        proof {
            assert(next =~= seq![t] + done);
            assert(rest@ =~= all.take(rest@.len() as int));
        }
        q.push_back(t);
        match position {
            QueuePosition::Front => {
                promote_last(q, 0);
                proof {
                    assert(q@ =~= batch_placed(orig, next, position));
                }
            },
            QueuePosition::Next => {
                promote_last(q, 1);
                proof {
                    if orig.len() >= 1 {
                        assert(q@ =~= batch_placed(orig, next, position));
                    } else if done.len() >= 1 {
                        assert(next.last() == done.last());
                        assert(next.drop_last() =~= seq![t] + done.drop_last());
                        assert(q@ =~= batch_placed(orig, next, position));
                    } else {
                        assert(q@ =~= batch_placed(orig, next, position));
                    }
                }
            },
            QueuePosition::End => {},
            QueuePosition::At(index) => {
                if q.len() > index + 1 {
                    let last = q.pop_back().unwrap();
                    q.insert(index + i, last);
                }
                proof {
                    let k = min_len(index as nat, orig.len()) as int;
                    assert(next.reverse() =~= done.reverse().push(t));
                    assert(q@ =~= batch_placed(orig, next, position));
                }
            },
        }
        i = i + 1;
    }
    proof {
        assert(all.skip(0) =~= all);
    }
}


/// What queueing a batch at a position does: into a queue of at most one
/// track the batch is simply appended; otherwise the position must lie in
/// `1..=len + 1`, or it is refused.
#[derive(Debug, Clone, Copy, PartialEq, Eq, Structural)]
pub enum OffsetPlan {
    AppendAll,
    InsertFrom(usize),
}

/// The plan for queueing at `offset` into a queue of `len` tracks.
pub open spec fn offset_plan_of(len: nat, offset: nat) -> Result<OffsetPlan, CrackedError> {
    if len <= 1 {
        Ok(OffsetPlan::AppendAll)
    } else if offset > 0 && offset <= len + 1 {
        Ok(OffsetPlan::InsertFrom(offset as usize))
    } else {
        Err(CrackedError::NotInRange { value: offset as u64, lower: 1, upper: len as u64 })
    }
}

/// Decides how to queue a batch at `offset` into a queue of `len` tracks.
pub fn offset_plan(len: usize, offset: usize) -> (r: Result<OffsetPlan, CrackedError>)
    ensures
        r == offset_plan_of(len as nat, offset as nat),
{
    if len <= 1 {
        Ok(OffsetPlan::AppendAll)
    } else if offset > 0 && offset - 1 <= len {
        Ok(OffsetPlan::InsertFrom(offset))
    } else {
        Err(CrackedError::NotInRange { value: offset as u64, lower: 1, upper: len as u64 })
    }
}

/// The queue after inserting the batch's tracks one by one, the `i`-th at
/// position `offset + i` or at the end when the queue is shorter. A track
/// that could not be built is skipped, but still counts for the positions
/// of those after it.
pub open spec fn offset_placed<T>(q: Seq<T>, items: Seq<Option<T>>, offset: nat) -> Seq<T>
    decreases items.len(),
{
    if items.len() == 0 {
        q
    } else {
        let before = offset_placed(q, items.drop_last(), offset);
        match items.last() {
            Some(t) => {
                let at = min_len((items.len() - 1 + offset) as nat, before.len()) as int;
                before.take(at) + seq![t] + before.skip(at)
            },
            None => before,
        }
    }
}

/// Inserts the batch's tracks one by one from position `offset` on.
pub fn place_at_offset<T>(q: &mut VecDeque<T>, items: Vec<Option<T>>, offset: usize)
    requires
        offset + items@.len() <= usize::MAX,
    ensures
        final(q)@ == offset_placed(old(q)@, items@, offset as nat),
{
    let ghost orig = q@;
    let ghost all = items@;
    let mut rest = items;
    let mut idx: usize = 0;
    while rest.len() > 0
        invariant
            offset + all.len() <= usize::MAX,
            idx <= all.len(),
            rest@ == all.skip(idx as int),
            q@ == offset_placed(orig, all.take(idx as int), offset as nat),
        decreases rest@.len(),
    {
        let ghost before = q@;
        let item = rest.remove(0);
        proof {
            assert(all.take(idx + 1).drop_last() =~= all.take(idx as int));
            assert(all.take(idx + 1).last() == item);
        }
        match item {
            Some(t) => {
                let at = if idx + offset < q.len() {
                    idx + offset
                } else {
                    q.len()
                };
                q.insert(at, t);
                proof {
                    assert(q@ =~= before.take(at as int) + seq![t] + before.skip(at as int));
                }
            },
            None => {},
        }
        idx = idx + 1;
        proof {
            assert(rest@ =~= all.skip(idx as int));
        }
    }
    proof {
        assert(all.take(idx as int) =~= all);
    }
}

/// The tracks of a batch in which every track was built.
pub open spec fn built<T>(items: Seq<Option<T>>) -> Seq<T> {
    items.map_values(|o: Option<T>| o->Some_0)
}

/// When every track of a batch is built, the batch lands in one block, in
/// order, at `offset`, or at the end when the queue is shorter.
pub proof fn a_built_batch_lands_in_one_block<T>(q: Seq<T>, items: Seq<Option<T>>, offset: nat)
    requires
        forall|i: int| 0 <= i < items.len() ==> #[trigger] items[i] is Some,
    ensures
        offset_placed(q, items, offset) == q.take(min_len(offset, q.len()) as int) + built(items)
            + q.skip(min_len(offset, q.len()) as int),
    decreases items.len(),
{
    let k = min_len(offset, q.len()) as int;
    if items.len() == 0 {
        assert(q.take(k) + built(items) + q.skip(k) =~= q);
    } else {
        let init = items.drop_last();
        assert forall|i: int| 0 <= i < init.len() implies #[trigger] init[i] is Some by {
            assert(init[i] == items[i]);
        }
        a_built_batch_lands_in_one_block(q, init, offset);
        let before = offset_placed(q, init, offset);
        assert(items[items.len() - 1] is Some);
        let t = items.last()->Some_0;
        let at = min_len((items.len() - 1 + offset) as nat, before.len()) as int;
        assert(before.len() == q.len() + init.len());
        assert(at == k + init.len());
        assert(built(items) =~= built(init).push(t));
        assert(before.take(at) =~= q.take(k) + built(init));
        assert(before.skip(at) =~= q.skip(k));
        assert(offset_placed(q, items, offset) =~= q.take(k) + built(items) + q.skip(k));
    }
}


/// How many tracks of a long list are queued at a time, after the first.
pub const QUEUE_BATCH_SIZE: usize = 24;

/// The progress note while a long list is queued: done once all `total`
/// tracks after the first are queued, a running count before.
pub open spec fn progress_text(queued: nat, total: nat) -> Seq<char> {
    if queued >= total {
        "Queued "@ + decimal(total) + " additional tracks."@
    } else {
        "Queuing playlist... "@ + decimal(queued) + "/"@ + decimal(total)
    }
}

/// The progress note after `queued` of `total` tracks.
pub fn queue_progress(queued: usize, total: usize) -> (r: String)
    ensures
        r@ == progress_text(queued as nat, total as nat),
{
    if queued >= total {
        let mut s = String::from_str("Queued ");
        push_decimal(&mut s, total as u64);
        s.append(" additional tracks.");
        proof {
            assert(s@ =~= progress_text(queued as nat, total as nat));
        }
        s
    } else {
        let mut s = String::from_str("Queuing playlist... ");
        push_decimal(&mut s, queued as u64);
        s.append("/");
        push_decimal(&mut s, total as u64);
        proof {
            assert(s@ =~= progress_text(queued as nat, total as nat));
        }
        s
    }
}

/// The sizes of the batches the tracks after the first are queued in:
/// full batches, then what is left.
pub open spec fn batch_sizes(n: nat) -> Seq<nat>
    decreases n,
{
    if n == 0 {
        Seq::empty()
    } else if n <= QUEUE_BATCH_SIZE {
        seq![n]
    } else {
        seq![QUEUE_BATCH_SIZE as nat] + batch_sizes((n - QUEUE_BATCH_SIZE) as nat)
    }
}

/// Splits `n` tracks into the batches they are queued in.
pub fn queue_batches(n: usize) -> (r: Vec<usize>)
    ensures
        r@.len() == batch_sizes(n as nat).len(),
        forall|i: int| 0 <= i < r@.len() ==> r@[i] == #[trigger] batch_sizes(n as nat)[i],
{
    let mut out: Vec<usize> = Vec::new();
    let mut left = n;
    while left > 0
        invariant
            left <= n,
            batch_sizes(n as nat) == out@.map_values(|x: usize| x as nat) + batch_sizes(left as nat),
        decreases left,
    {
        let size = if left <= QUEUE_BATCH_SIZE {
            left
        } else {
            QUEUE_BATCH_SIZE
        };
        let ghost before = out@;
        out.push(size);
        proof {
            assert(out@.map_values(|x: usize| x as nat) =~= before.map_values(|x: usize| x as nat).push(
                size as nat,
            ));
            if left <= QUEUE_BATCH_SIZE {
                assert(batch_sizes((left - size) as nat) =~= Seq::<nat>::empty());
            }
            assert(batch_sizes(left as nat) =~= seq![size as nat] + batch_sizes((left - size) as nat));
            assert(batch_sizes(n as nat) =~= out@.map_values(|x: usize| x as nat) + batch_sizes(
                (left - size) as nat,
            ));
        }
        left = left - size;
    }
    proof {
        assert(batch_sizes(0) =~= Seq::<nat>::empty());
        assert(batch_sizes(n as nat) =~= out@.map_values(|x: usize| x as nat));
        assert forall|i: int| 0 <= i < out@.len() implies out@[i] == #[trigger] batch_sizes(n as nat)[i] by {
            assert(out@.map_values(|x: usize| x as nat)[i] == out@[i] as nat);
        }
    }
    out
}


/// What one enqueue call put into the queue: only the tracks this call
/// added, in the order they were added, never the whole queue, so a reply
/// built from it cannot list what a concurrent call queued.
#[derive(Debug, Clone)]
pub struct Inserted<H> {
    pub handles: Vec<H>,
}

impl<H> Inserted<H> {
    /// How many tracks this call added.
    pub fn count(&self) -> (r: usize)
        ensures
            r == self.handles@.len(),
    {
        self.handles.len()
    }
}

/// How much of a track to play before the next one is prepared: its length
/// less five seconds (none of it when shorter), in milliseconds; unknown
/// when its length is.
pub open spec fn preload_of(duration_ms: Option<u64>) -> Option<u64> {
    match duration_ms {
        Some(d) => Some(if d >= 5000 {
            (d - 5000) as u64
        } else {
            0
        }),
        None => None,
    }
}

/// The preload time of a track of the given length.
pub fn preload_from_metadata(duration_ms: Option<u64>) -> (r: Option<u64>)
    ensures
        r == preload_of(duration_ms),
{
    match duration_ms {
        Some(d) => Some(d.saturating_sub(5000)),
        None => None,
    }
}

} // verus!
