use crack_core::query_type::QueryType;
use crack_core::spotify::{
    build_fake_spotify_track, parse_spotify_path, parse_spotify_url, songs_only, track_query,
    ListedTrack, MediaType, Spotify, SpotifyRelease, SpotifySearchHits, SpotifyTrack,
    resolve_listing,
};

#[test]
fn parses_canonical_links() {
    let parsed = parse_spotify_url("https://open.spotify.com/track/3Vr5jdQHibI2q0A0KW4RWk")
        .expect("canonical track link");
    assert_eq!(parsed.media_type(), MediaType::Track);
    assert_eq!(parsed.media_id(), "3Vr5jdQHibI2q0A0KW4RWk");
}

#[test]
fn drops_the_si_tracking_suffix() {
    let parsed = parse_spotify_url("https://open.spotify.com/album/1XkGORuUX2QGOEIL4EbJKm?si=x")
        .expect("album link with tracking suffix");
    assert_eq!(parsed.media_type(), MediaType::Album);
    assert_eq!(parsed.media_id(), "1XkGORuUX2QGOEIL4EbJKm");
}

#[test]
fn parses_locale_prefixed_links() {
    for input in [
        "https://open.spotify.com/intl-de/track/3Vr5jdQHibI2q0A0KW4RWk",
        "https://open.spotify.com/intl-pt/playlist/37i9dQZF1DXcBWIGoYBM5M?si=abc",
    ] {
        let parsed = parse_spotify_url(input).unwrap_or_else(|| panic!("should parse {input}"));
        assert!(!parsed.media_id().is_empty());
        assert!(!parsed.media_id().contains('/'));
    }
    assert_eq!(
        parse_spotify_url("https://open.spotify.com/intl-de/track/3Vr5jdQHibI2q0A0KW4RWk")
            .unwrap()
            .media_type(),
        MediaType::Track
    );
}

#[test]
fn parses_the_uri_form() {
    let parsed = parse_spotify_url("spotify:playlist:37i9dQZF1DXcBWIGoYBM5M").expect("uri form");
    assert_eq!(parsed.media_type(), MediaType::Playlist);
    assert_eq!(parsed.media_id(), "37i9dQZF1DXcBWIGoYBM5M");
}

#[test]
fn rejects_what_it_cannot_resolve() {
    for input in [
        "https://spotify.link/abc123",
        "https://open.spotify.com/artist/0OdUWJ0sBjDrqHygGUXeCF",
        "https://open.spotify.com/track/",
        "https://www.youtube.com/watch?v=dQw4w9WgXcQ",
        "spotify:track:",
        "not a url at all",
    ] {
        assert!(
            parse_spotify_url(input).is_none(),
            "should not parse: {input}"
        );
    }
}

#[test]
fn the_path_reader_finds_the_first_kind_and_id_pair() {
    let parsed = parse_spotify_path("/a/album/xyz/track/abc").expect("a pair");
    assert_eq!(parsed.media_type(), MediaType::Album);
    assert_eq!(parsed.media_id(), "xyz");
    assert!(parse_spotify_path("track/abc").is_none());
    assert!(parse_spotify_path("/track").is_none());
}

#[test]
fn builds_a_search_query_from_a_real_track() {
    let track = ListedTrack {
        name: "King Creole".to_string(),
        artists: vec!["Elvis Presley".to_string()],
        is_episode: false,
    };
    assert_eq!(track_query(&track), "King Creole Elvis Presley");
}

#[test]
fn a_track_without_artists_is_searched_by_title() {
    let track = ListedTrack {
        name: "Untitled".to_string(),
        artists: vec![],
        is_episode: false,
    };
    assert_eq!(track_query(&track), "Untitled");
    let track = ListedTrack {
        name: "Duet".to_string(),
        artists: vec!["A".to_string(), "B".to_string()],
        is_episode: false,
    };
    assert_eq!(track_query(&track), "Duet A B");
}

#[test]
fn a_playlist_drops_episodes_and_keeps_the_count() {
    let song = ListedTrack {
        name: "Oh Shit I'm Feeling It".to_string(),
        artists: vec!["DjCorny".to_string()],
        is_episode: false,
    };
    let episode = ListedTrack {
        name: "A podcast episode".to_string(),
        artists: vec![],
        is_episode: true,
    };
    let unresolved_items: u32 = 2;
    let (songs, episodes) = songs_only(vec![song, episode]);
    assert_eq!(episodes, 1);
    assert_eq!(songs.len(), 1);
    assert_eq!(track_query(&songs[0]), "Oh Shit I'm Feeling It DjCorny");
    assert_eq!(songs.len() + episodes + unresolved_items as usize, 4);
}

#[test]
fn media_type_nouns_read_in_a_sentence() {
    assert_eq!(MediaType::Track.noun(), "track");
    assert!(!MediaType::Track.is_collection());
    assert!(MediaType::Album.is_collection());
    assert!(MediaType::Playlist.is_collection());
    assert_eq!(MediaType::parse("album"), Some(MediaType::Album));
    assert_eq!(MediaType::parse("artist"), None);
}

#[test]
fn test_track_build_query() {
    let track = build_fake_spotify_track();
    let query = track.build_query();
    assert_eq!(query, r#"asdf qwer"#);
}

#[test]
fn test_track_build_query_lyric() {
    let track = build_fake_spotify_track();
    let query = track.build_query_lyric();
    assert_eq!(query, r#"asdf qwer \"topic\""#);
}

#[test]
fn a_search_query_puts_the_artists_first() {
    assert_eq!(Spotify::build_query("Elvis Presley", "King Creole"), "Elvis Presley King Creole");
    assert_eq!(
        Spotify::join_artist_names(&vec!["A".to_string(), "B".to_string()]),
        "A B"
    );
    let t = SpotifyTrack {
        name: "x".to_string(),
        artists: vec!["A".to_string(), "B".to_string()],
        album_name: String::new(),
        duration_secs: 0,
    };
    assert_eq!(t.artists_str(), "A, B");
}

#[test]
fn a_search_becomes_words_for_its_best_match() {
    let tracks = SpotifySearchHits::Tracks(vec![
        SpotifyRelease { name: "King Creole".to_string(), artists: vec!["Elvis Presley".to_string()] },
        SpotifyRelease { name: "Other".to_string(), artists: vec![] },
    ]);
    assert!(matches!(
        Spotify::extract_search_results(&tracks),
        Ok(QueryType::Keywords(ref k)) if k == "Elvis Presley King Creole"
    ));
    let artists = SpotifySearchHits::Artists(vec!["Queen".to_string()]);
    assert!(matches!(
        Spotify::extract_search_results(&artists),
        Ok(QueryType::Keywords(ref k)) if k == "Queen"
    ));
}

#[test]
fn the_fake_track_is_a_minute_of_asdf_by_qwer() {
    let t = build_fake_spotify_track();
    assert_eq!(t.name, "asdf");
    assert_eq!(t.artists, vec!["qwer".to_string()]);
    assert_eq!(t.album_name, "zxcv");
    assert_eq!(t.duration_secs, 60);
}

fn listed(name: &str, artists: &[&str], is_episode: bool) -> ListedTrack {
    ListedTrack {
        name: name.to_string(),
        artists: artists.iter().map(|a| a.to_string()).collect(),
        is_episode,
    }
}

#[test]
fn a_listing_resolves_to_its_songs_and_their_searches() {
    let listing = vec![
        listed("King Creole", &["Elvis Presley"], false),
        listed("Episode 1", &[], true),
        listed("Untitled", &[], false),
    ];
    let res = resolve_listing(MediaType::Playlist, "Mix".to_string(), listing, 2).unwrap();
    assert_eq!(res.len(), 2);
    assert!(!res.is_empty());
    assert_eq!(res.episodes_skipped, 1);
    assert_eq!(res.unresolved, 2);
    assert_eq!(res.name, "Mix");
    assert_eq!(res.queries(), vec!["King Creole Elvis Presley".to_string(), "Untitled".to_string()]);
}

#[test]
fn a_listing_of_episodes_only_resolves_to_nothing_playable() {
    let listing = vec![listed("Episode 1", &[], true)];
    assert!(resolve_listing(MediaType::Playlist, "Pod".to_string(), listing, 0).is_none());
    assert!(resolve_listing(MediaType::Album, "Empty".to_string(), vec![], 3).is_none());
}
