use crack_core::autoplay::{
    raw_track, recommender_lineup, to_query, AutoplayBuffer, NextStep, Playable, Recommendation,
    RecommenderKind, REFILL_SIZE,
};
use crack_core::ids::GuildId;
use crack_core::query_type::QueryType;
use crack_core::track::TrackMetadata;

fn rec(title: &str) -> Recommendation {
    Recommendation {
        artist: "A".into(),
        title: title.into(),
        playable: Playable::SearchQuery(format!("A - {title}")),
        isrc: None,
        source: "test".into(),
    }
}

fn titles(n: usize) -> Vec<Recommendation> {
    (0..n).map(|i| rec(&format!("t{i}"))).collect()
}

/// Takes the guild's next recommendation, refilling with `refill` when the
/// buffer is empty, as the track-end handler does.
fn next(
    buffer: &mut AutoplayBuffer,
    guild: GuildId,
    refill: impl FnOnce(&mut AutoplayBuffer) -> Vec<Recommendation>,
) -> Option<Recommendation> {
    match buffer.begin_next(guild) {
        NextStep::Served(r) => Some(r),
        NextStep::Refill { generation } => {
            let fresh = refill(buffer);
            buffer.finish_refill(guild, generation, fresh)
        },
    }
}

#[test]
fn a_refill_is_served_most_similar_first() {
    let mut buffer = AutoplayBuffer::new();
    let guild = GuildId::new(1);
    let mut served = Vec::new();
    for _ in 0..3 {
        let n = next(&mut buffer, guild, |_| vec![rec("best"), rec("second"), rec("third")]);
        served.push(n.expect("buffered").title);
    }
    assert_eq!(served, ["best", "second", "third"]);
}

#[test]
fn one_refill_serves_twenty_track_ends() {
    let mut buffer = AutoplayBuffer::new();
    let guild = GuildId::new(1);
    let mut refills = 0;
    for _ in 0..REFILL_SIZE {
        let n = next(&mut buffer, guild, |_| {
            refills += 1;
            titles(REFILL_SIZE)
        });
        assert!(n.is_some());
    }
    assert_eq!(refills, 1);
    next(&mut buffer, guild, |_| {
        refills += 1;
        titles(REFILL_SIZE)
    });
    assert_eq!(refills, 2, "the 21st track end refills");
}

#[test]
fn a_guild_never_plays_another_guilds_recommendations() {
    let mut buffer = AutoplayBuffer::new();
    let (a, b) = (GuildId::new(1), GuildId::new(2));
    next(&mut buffer, a, |_| vec![rec("a1"), rec("a2")]);
    let mut refills = 0;
    let n = next(&mut buffer, b, |_| {
        refills += 1;
        vec![rec("b1")]
    });
    assert_eq!(n.map(|r| r.title), Some("b1".to_owned()));
    assert_eq!(refills, 1);
}

#[test]
fn an_empty_refill_yields_nothing_and_is_asked_again_next_time() {
    let mut buffer = AutoplayBuffer::new();
    let guild = GuildId::new(1);
    let mut refills = 0;
    for _ in 0..2 {
        let n = next(&mut buffer, guild, |_| {
            refills += 1;
            Vec::new()
        });
        assert!(n.is_none());
    }
    assert_eq!(refills, 2);
}

#[test]
fn clearing_drops_what_is_buffered() {
    let mut buffer = AutoplayBuffer::new();
    let guild = GuildId::new(1);
    next(&mut buffer, guild, |_| vec![rec("one"), rec("two")]);
    buffer.clear(guild);
    let n = next(&mut buffer, guild, |_| vec![rec("fresh")]);
    assert_eq!(n.map(|r| r.title), Some("fresh".to_owned()));
}

#[test]
fn a_clear_during_a_refill_keeps_none_of_its_rest() {
    let mut buffer = AutoplayBuffer::new();
    let guild = GuildId::new(1);
    let first = next(&mut buffer, guild, |b| {
        b.clear(guild);
        vec![rec("one"), rec("two")]
    });
    assert_eq!(first.map(|r| r.title), Some("one".to_owned()));
    let n = next(&mut buffer, guild, |_| vec![rec("fresh")]);
    assert_eq!(n.map(|r| r.title), Some("fresh".to_owned()));
}

#[test]
fn a_youtube_id_plays_directly_and_a_search_query_is_searched() {
    let mut youtube = rec("x");
    youtube.playable = Playable::YouTubeId("dQw4w9WgXcQ".into());
    assert!(matches!(
        to_query(&youtube),
        QueryType::VideoLink(ref url) if url == "https://www.youtube.com/watch?v=dQw4w9WgXcQ"
    ));
    assert!(matches!(
        to_query(&rec("Somebody to Love")),
        QueryType::Keywords(ref q) if q == "A - Somebody to Love"
    ));
}

fn meta(title: Option<&str>, artist: Option<&str>, channel: Option<&str>) -> TrackMetadata {
    TrackMetadata {
        title: title.map(str::to_owned),
        artist: artist.map(str::to_owned),
        channel: channel.map(str::to_owned),
        ..TrackMetadata::default()
    }
}

#[test]
fn yt_dlp_na_is_not_an_artist() {
    let raw = raw_track(
        &meta(Some("Queen – Bohemian Rhapsody"), Some("NA"), Some("NA")),
        None,
    )
    .expect("has a title");
    assert_eq!(raw.title, "Queen – Bohemian Rhapsody");
    assert_eq!(raw.artist, None, "NA would score 100 and spend metered calls");
    assert_eq!(raw.uploader, None);
}

#[test]
fn a_real_artist_and_uploader_are_kept_trimmed() {
    let raw = raw_track(
        &meta(Some(" Bohemian Rhapsody "), Some(" Queen "), Some("Queen Official")),
        None,
    )
    .expect("has a title");
    assert_eq!(raw.title, "Bohemian Rhapsody");
    assert_eq!(raw.artist.as_deref(), Some("Queen"));
    assert_eq!(raw.uploader.as_deref(), Some("Queen Official"));
}

#[test]
fn no_title_no_seed() {
    assert_eq!(raw_track(&meta(None, Some("Queen"), None), None), None);
    assert_eq!(raw_track(&meta(Some("   "), Some("Queen"), None), None), None);
}

#[test]
fn the_seed_carries_the_video_id_it_is_given() {
    let raw = raw_track(
        &meta(Some("The Offspring ~ Hit That"), None, Some("MrCalienteLP")),
        Some("NJKhbnSGLsQ".to_string()),
    )
    .expect("has a title");
    assert_eq!(raw.video_id.as_deref(), Some("NJKhbnSGLsQ"));
}

#[test]
fn the_mix_goes_first_and_musicatlas_last_given_a_key_and_a_database() {
    assert_eq!(
        recommender_lineup(Some("key"), true),
        vec![
            RecommenderKind::YouTubeMix,
            RecommenderKind::Deezer,
            RecommenderKind::MusicAtlas
        ]
    );
}

#[test]
fn musicatlas_is_left_out_without_a_database() {
    assert_eq!(
        recommender_lineup(Some("key"), false),
        vec![RecommenderKind::YouTubeMix, RecommenderKind::Deezer]
    );
}

#[test]
fn no_key_or_a_blank_one_leaves_musicatlas_out() {
    for key in [None, Some(""), Some("  ")] {
        assert_eq!(
            recommender_lineup(key, true),
            vec![RecommenderKind::YouTubeMix, RecommenderKind::Deezer]
        );
    }
}
