use crack_core::errors::CrackedError;
use crack_core::queue::{
    check_queue_index, clear_from, drain_after_current, move_track, offset_plan, place_at_offset,
    place_batch, place_queued, promote_last, queue_batches, queue_progress, remove_at,
    remove_track, shuffle_behind_current, shuffle_with, skips_to, OffsetPlan, QueuePosition, Inserted,
    preload_from_metadata,
};
use std::collections::VecDeque;

fn q(items: &[u32]) -> VecDeque<u32> {
    items.iter().copied().collect()
}

#[test]
fn test_fisher_yates() {
    let mut values = q(&[100, 0, 1, 2, 3, 4, 5, 6, 7, 8, 9]);
    shuffle_behind_current(&mut values, &mut rand::rng());
    assert_eq!(values[0], 100);
    let behind: Vec<u32> = values.iter().skip(1).copied().collect();
    assert_ne!(behind, vec![0, 1, 2, 3, 4, 5, 6, 7, 8, 9]);
    let mut sorted = behind.clone();
    sorted.sort();
    assert_eq!(sorted, vec![0, 1, 2, 3, 4, 5, 6, 7, 8, 9]);
}

#[test]
fn shuffling_a_lone_track_leaves_it() {
    let mut values = q(&[7]);
    shuffle_behind_current(&mut values, &mut rand::rng());
    assert_eq!(values, q(&[7]));
}

#[test]
fn clearing_from_an_index_keeps_what_came_before() {
    let mut values = q(&[1, 2, 3, 4]);
    let removed = clear_from(&mut values, 1);
    assert_eq!(values, q(&[1]));
    assert_eq!(removed, q(&[2, 3, 4]));
    let mut all = q(&[1, 2]);
    assert_eq!(clear_from(&mut all, 2), q(&[]));
    assert_eq!(all, q(&[1, 2]));
}

#[test]
fn skipping_drains_after_the_current_track() {
    let mut values = q(&[1, 2, 3, 4, 5]);
    drain_after_current(&mut values, 2);
    assert_eq!(values, q(&[1, 4, 5]));
    let mut short = q(&[1, 2]);
    drain_after_current(&mut short, 10);
    assert_eq!(short, q(&[1]));
    let mut none = q(&[1, 2, 3]);
    drain_after_current(&mut none, 0);
    assert_eq!(none, q(&[1, 2, 3]));
}

#[test]
fn moving_a_track_reinserts_it() {
    let mut values = q(&[1, 2, 3, 4]);
    move_track(&mut values, 3, 1);
    assert_eq!(values, q(&[1, 4, 2, 3]));
    move_track(&mut values, 1, 3);
    assert_eq!(values, q(&[1, 2, 3, 4]));
}

#[test]
fn removing_past_the_end_removes_nothing() {
    let mut values = q(&[1, 2, 3]);
    assert_eq!(remove_at(&mut values, 1), Some(2));
    assert_eq!(values, q(&[1, 3]));
    assert_eq!(remove_at(&mut values, 5), None);
    assert_eq!(values, q(&[1, 3]));
}

#[test]
fn the_last_queued_track_moves_where_it_is_asked_to() {
    let mut values = q(&[1, 2, 3, 9]);
    place_queued(&mut values, QueuePosition::Next);
    assert_eq!(values, q(&[1, 9, 2, 3]));
    let mut values = q(&[1, 2, 3, 9]);
    place_queued(&mut values, QueuePosition::Front);
    assert_eq!(values, q(&[9, 1, 2, 3]));
    let mut values = q(&[1, 2, 3, 9]);
    place_queued(&mut values, QueuePosition::At(2));
    assert_eq!(values, q(&[1, 2, 9, 3]));
    let mut values = q(&[1, 2, 3, 9]);
    place_queued(&mut values, QueuePosition::End);
    assert_eq!(values, q(&[1, 2, 3, 9]));
    let mut short = q(&[1, 9]);
    place_queued(&mut short, QueuePosition::Next);
    assert_eq!(short, q(&[1, 9]));
    let mut values = q(&[1, 2, 3]);
    promote_last(&mut values, 5);
    assert_eq!(values, q(&[1, 2, 3]));
}

#[test]
fn a_queue_index_is_refused_on_an_empty_queue_before_its_range() {
    assert_eq!(check_queue_index(0, 0), Err(CrackedError::QueueEmpty));
    assert_eq!(check_queue_index(3, 3), Err(CrackedError::IndexOutOfBounds));
    assert_eq!(check_queue_index(3, 2), Ok(()));
    assert_eq!(CrackedError::QueueEmpty.to_text(), "Queue is empty");
    assert_eq!(CrackedError::IndexOutOfBounds.to_text(), "Index out of bounds");
}

#[test]
fn removing_a_track_hands_it_back_or_refuses() {
    let mut queue = q(&[1, 2, 3]);
    assert_eq!(remove_track(&mut queue, 1), Ok(2));
    assert_eq!(queue, q(&[1, 3]));
    assert_eq!(remove_track(&mut queue, 2), Err(CrackedError::IndexOutOfBounds));
    assert_eq!(queue, q(&[1, 3]));
    let mut empty = q(&[]);
    assert_eq!(remove_track(&mut empty, 0), Err(CrackedError::QueueEmpty));
}

#[test]
fn skipping_to_a_track_skips_once_per_track_before_it() {
    assert_eq!(skips_to(5, 3), Ok(3));
    assert_eq!(skips_to(5, 5), Err(CrackedError::IndexOutOfBounds));
    assert_eq!(skips_to(0, 0), Err(CrackedError::QueueEmpty));
}

#[test]
fn a_batch_lands_where_its_position_asks() {
    let mut end = q(&[1, 2]);
    place_batch(&mut end, vec![7, 8, 9], QueuePosition::End);
    assert_eq!(end, q(&[1, 2, 7, 8, 9]));

    let mut front = q(&[1, 2]);
    place_batch(&mut front, vec![7, 8, 9], QueuePosition::Front);
    assert_eq!(front, q(&[7, 8, 9, 1, 2]));

    let mut next = q(&[1, 2, 3]);
    place_batch(&mut next, vec![7, 8, 9], QueuePosition::Next);
    assert_eq!(next, q(&[1, 7, 8, 9, 2, 3]));

    let mut next_empty = q(&[]);
    place_batch(&mut next_empty, vec![7, 8, 9], QueuePosition::Next);
    assert_eq!(next_empty, q(&[9, 7, 8]));

    let mut at = q(&[1, 2, 3]);
    place_batch(&mut at, vec![7, 8, 9], QueuePosition::At(1));
    assert_eq!(at, q(&[1, 9, 8, 7, 2, 3]));

    let mut past = q(&[1]);
    place_batch(&mut past, vec![7, 8], QueuePosition::At(2));
    assert_eq!(past, q(&[1, 8, 7]));
}

#[test]
fn a_batch_position_is_checked_only_for_a_busy_queue() {
    assert_eq!(offset_plan(1, 0), Ok(OffsetPlan::AppendAll));
    assert_eq!(offset_plan(0, 9), Ok(OffsetPlan::AppendAll));
    assert_eq!(offset_plan(3, 1), Ok(OffsetPlan::InsertFrom(1)));
    assert_eq!(offset_plan(3, 4), Ok(OffsetPlan::InsertFrom(4)));
    assert_eq!(
        offset_plan(3, 5),
        Err(CrackedError::NotInRange { value: 5, lower: 1, upper: 3 })
    );
    assert_eq!(
        offset_plan(3, 0),
        Err(CrackedError::NotInRange { value: 0, lower: 1, upper: 3 })
    );
    assert_eq!(
        CrackedError::NotInRange { value: 5, lower: 1, upper: 3 }.to_text(),
        "index 5 is not in range 1 to 3"
    );
}

#[test]
fn a_batch_inserted_at_an_offset_keeps_its_order() {
    let mut queue = q(&[1, 2, 3]);
    place_at_offset(&mut queue, vec![Some(7), Some(8)], 1);
    assert_eq!(queue, q(&[1, 7, 8, 2, 3]));

    let mut short = q(&[1, 2]);
    place_at_offset(&mut short, vec![Some(7), Some(8)], 3);
    assert_eq!(short, q(&[1, 2, 7, 8]));
}

#[test]
fn a_track_that_failed_to_build_still_takes_its_place_in_the_count() {
    let mut queue = q(&[1, 2, 3]);
    place_at_offset(&mut queue, vec![Some(7), None, Some(9)], 1);
    assert_eq!(queue, q(&[1, 7, 2, 9, 3]));
}

#[test]
fn a_long_list_is_queued_in_batches_with_a_progress_note() {
    assert_eq!(queue_batches(50), vec![24, 24, 2]);
    assert_eq!(queue_batches(24), vec![24]);
    assert!(queue_batches(0).is_empty());
    assert_eq!(queue_progress(24, 50), "Queuing playlist... 24/50");
    assert_eq!(queue_progress(50, 50), "Queued 50 additional tracks.");
}

#[test]
fn a_track_is_prepared_five_seconds_before_its_end() {
    assert_eq!(preload_from_metadata(Some(180_000)), Some(175_000));
    assert_eq!(preload_from_metadata(Some(3_000)), Some(0));
    assert_eq!(preload_from_metadata(None), None);
}

#[test]
fn an_insert_counts_only_its_own_tracks() {
    let inserted = Inserted { handles: vec!["a", "b"] };
    assert_eq!(inserted.count(), 2);
}

#[test]
fn a_shuffle_with_given_draws_swaps_from_the_back() {
    let mut values = q(&[0, 1, 2, 3]);
    shuffle_with(&mut values, &vec![0, 0]);
    assert_eq!(values, q(&[0, 2, 3, 1]));
}

#[test]
fn a_shuffle_whose_draws_pick_each_last_place_keeps_the_order() {
    let mut values = q(&[5, 6, 7, 8]);
    shuffle_with(&mut values, &vec![2, 1]);
    assert_eq!(values, q(&[5, 6, 7, 8]));
}

#[test]
fn a_shuffle_of_two_tracks_draws_nothing() {
    let mut values = q(&[4, 9]);
    shuffle_with(&mut values, &vec![]);
    assert_eq!(values, q(&[4, 9]));
}
