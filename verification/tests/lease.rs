use crack_core::errors::CrackedError;
use crack_core::ids::GuildId;
use crack_core::lease::{PlaybackLeases, PlaybackOwner};

const G: GuildId = GuildId(1);
const H: GuildId = GuildId(2);

#[test]
fn a_guild_with_no_claim_is_free() {
    assert_eq!(PlaybackLeases::new().playback_owner(G), PlaybackOwner::Free);
}

#[test]
fn claim_then_release_round_trips() {
    let mut d = PlaybackLeases::new();
    d.claim_playback(G, PlaybackOwner::Game)
        .expect("free guild accepts a claim");
    assert_eq!(d.playback_owner(G), PlaybackOwner::Game);
    d.release_playback(G);
    assert_eq!(d.playback_owner(G), PlaybackOwner::Free);
}

#[test]
fn releasing_a_guild_that_owns_nothing_is_a_no_op() {
    let mut d = PlaybackLeases::new();
    d.release_playback(G);
    d.release_playback(G);
    assert_eq!(d.playback_owner(G), PlaybackOwner::Free);
}

#[test]
fn re_claiming_as_the_same_owner_succeeds() {
    let mut d = PlaybackLeases::new();
    d.claim_playback(G, PlaybackOwner::Game).unwrap();
    d.claim_playback(G, PlaybackOwner::Game)
        .expect("same owner may re-claim");
}

#[test]
fn a_claim_is_per_guild() {
    let mut d = PlaybackLeases::new();
    d.claim_playback(G, PlaybackOwner::Game).unwrap();
    assert_eq!(d.playback_owner(H), PlaybackOwner::Free);
}

#[test]
fn a_game_owned_guild_refuses_a_non_owner_immediately() {
    let mut d = PlaybackLeases::new();
    d.claim_playback(G, PlaybackOwner::Game).unwrap();
    let err = d.check_queue_access(G, PlaybackOwner::Free).unwrap_err();
    assert!(matches!(err, CrackedError::GameInProgress));
}

#[test]
fn the_owner_can_still_lock_its_own_queue() {
    let mut d = PlaybackLeases::new();
    d.claim_playback(G, PlaybackOwner::Game).unwrap();
    d.check_queue_access(G, PlaybackOwner::Game)
        .expect("the owner may lock");
}

#[test]
fn a_free_guild_lets_anyone_lock() {
    let d = PlaybackLeases::new();
    assert!(d.check_queue_access(G, PlaybackOwner::Free).is_ok());
    assert!(d.check_queue_access(G, PlaybackOwner::Game).is_ok());
}

#[test]
fn a_different_owner_cannot_claim_a_held_guild() {
    let mut d = PlaybackLeases::new();
    d.claim_playback(G, PlaybackOwner::Game).unwrap();
    assert_eq!(
        d.claim_playback(G, PlaybackOwner::Free),
        Err(CrackedError::GameInProgress)
    );
    assert_eq!(d.playback_owner(G), PlaybackOwner::Game);
}

#[test]
fn a_claim_by_nobody_leaves_the_guild_free_to_claim() {
    let mut d = PlaybackLeases::new();
    d.claim_playback(G, PlaybackOwner::Free).unwrap();
    assert_eq!(d.playback_owner(G), PlaybackOwner::Free);
    d.claim_playback(G, PlaybackOwner::Game)
        .expect("a guild nobody owns accepts a claim");
    assert_eq!(d.playback_owner(G), PlaybackOwner::Game);
}
