use crack_core::track_end::{autoplay_off_notice, get_track_states_union, PlayMode};

#[test]
fn autoplay_off_says_nothing_more_than_it_needs_to() {
    assert_eq!(autoplay_off_notice(true), "Autoplay off");
    assert_eq!(
        autoplay_off_notice(false),
        "Autoplay needs crack-musicreco!"
    );
}

#[test]
fn the_union_names_every_state_that_occurs_and_no_other() {
    let u = get_track_states_union(&vec![PlayMode::Play, PlayMode::Errored, PlayMode::Other]);
    assert!(u.playing && u.errored);
    assert!(!u.paused && !u.stopped && !u.end);

    let u = get_track_states_union(&vec![]);
    assert!(!u.playing && !u.paused && !u.stopped && !u.errored && !u.end);

    let u = get_track_states_union(&vec![PlayMode::End, PlayMode::Stop, PlayMode::Pause]);
    assert!(u.end && u.stopped && u.paused && !u.playing && !u.errored);
}
