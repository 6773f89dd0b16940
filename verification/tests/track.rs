use crack_core::ids::UserId;
use crack_core::spotify::MUSIC_SEARCH_SUFFIX;
use crack_core::track::{
    build_query_aux_metadata, build_query_lyric_aux_metadata, Attachment, Track, TrackCollection,
    TrackMetadata, TrackSource,
};

#[test]
fn a_new_track_knows_only_its_source() {
    let t = Track::new(TrackSource::YouTube("https://youtu.be/x".to_string()));
    assert!(t.user_id.is_none());
    assert!(t.metadata.title.is_none() && t.metadata.duration.is_none());
    assert!(matches!(t.source, TrackSource::YouTube(ref u) if u == "https://youtu.be/x"));
}

#[test]
fn builders_set_one_field_each() {
    let meta = TrackMetadata {
        title: Some("Song".to_string()),
        ..TrackMetadata::default()
    };
    let t = Track::new(TrackSource::Http("http://a".to_string()))
        .with_user_id(UserId::new(3))
        .with_metadata(meta);
    assert_eq!(t.user_id, Some(UserId::new(3)));
    assert_eq!(t.metadata.title.as_deref(), Some("Song"));
}

#[test]
fn a_collection_counts_what_is_added() {
    let mut c = TrackCollection::new();
    assert!(c.is_empty());
    c.add_track(Track::new(TrackSource::File(Attachment {
        filename: "x.mp3".to_string(),
        url: "https://cdn/x.mp3".to_string(),
    })));
    assert_eq!(c.len(), 1);
    assert!(!c.is_empty());
    let c = TrackCollection::with_tracks(vec![
        Track::new(TrackSource::Spotify("s".to_string())),
        Track::new(TrackSource::YouTubeSearch("q".to_string())),
    ]);
    assert_eq!(c.len(), 2);
}

#[test]
fn test_build_query_aux_metadata() {
    let aux_metadata = TrackMetadata {
        artist: Some("hello".to_string()),
        track: Some("world".to_string()),
        ..Default::default()
    };
    let res = build_query_aux_metadata(&aux_metadata);
    assert_eq!(res, "world hello");
}

#[test]
fn test_build_query_lyric_aux_metadata() {
    let aux_metadata = TrackMetadata {
        artist: Some("hello".to_string()),
        track: Some("world".to_string()),
        ..Default::default()
    };
    let res = build_query_lyric_aux_metadata(&aux_metadata);
    assert_eq!(res, format!("world hello {}", MUSIC_SEARCH_SUFFIX));
}
