use crack_core::errors::CrackedError;
use crack_core::routing::{
    extract_spotify_info, query_route, resolve_plan, route_for, InputPlan, PlaylistVideo,
    QueryRoute, ResolveStep, TrackResolver,
};
use crack_core::track::{Attachment, Track, TrackMetadata, TrackSource};

#[test]
fn links_are_routed_by_their_host() {
    assert!(matches!(
        query_route("https://www.youtube.com/watch?v=x&list=PL1"),
        QueryRoute::PlaylistLink(ref l) if l == "PL1"
    ));
    assert!(matches!(
        query_route("https://www.youtube.com/watch?v=x"),
        QueryRoute::VideoLink(ref u) if u == "https://www.youtube.com/watch?v=x"
    ));
    assert!(matches!(
        query_route("https://open.spotify.com/track/abc"),
        QueryRoute::SpotifyLink
    ));
    assert!(matches!(query_route("https://spotify.link/abc"), QueryRoute::SpotifyLink));
    assert!(matches!(
        query_route("https://cdn.discordapp.com/attachments/a.mp3"),
        QueryRoute::Attachment
    ));
    assert!(matches!(query_route("https://soundcloud.com/x"), QueryRoute::YtDlp));
}

#[test]
fn a_spotify_uri_stands_for_its_track_link() {
    assert!(matches!(
        query_route("spotify:track:3Vr5jdQHibI2q0A0KW4RWk"),
        QueryRoute::SpotifyUri(ref u) if u == "https://open.spotify.com/track/3Vr5jdQHibI2q0A0KW4RWk"
    ));
}

#[test]
fn words_are_searched_for() {
    assert!(matches!(
        query_route("king creole"),
        QueryRoute::Keywords(ref k) if k == "king creole"
    ));
}

#[test]
fn the_route_follows_what_the_parser_found() {
    assert!(matches!(
        route_for("anything", Some(Some("www.youtube.com".to_string())), Some(vec![
            ("v".to_string(), "x".to_string()),
            ("playlist".to_string(), "P9".to_string()),
        ])),
        QueryRoute::PlaylistLink(ref l) if l == "P9"
    ));
    assert!(matches!(
        route_for("anything", None, None),
        QueryRoute::Keywords(ref k) if k == "anything"
    ));
    assert!(matches!(
        route_for("mailto:x", Some(None), None),
        QueryRoute::Keywords(_)
    ));
}

#[test]
fn a_spotify_link_says_what_it_is() {
    assert_eq!(
        extract_spotify_info("https://open.spotify.com/album/xyz"),
        Some(("spotify album xyz".to_string(), String::new()))
    );
    assert_eq!(
        extract_spotify_info("https://open.spotify.com/track/abc"),
        Some(("spotify track abc".to_string(), String::new()))
    );
    assert_eq!(
        extract_spotify_info("https://open.spotify.com/track/abc#Namesi=x"),
        Some(("Name".to_string(), String::new()))
    );
    assert_eq!(extract_spotify_info("https://open.spotify.com/show/abc"), None);
    assert_eq!(extract_spotify_info("https://open.spotify.com/track"), None);
    assert_eq!(extract_spotify_info("not a link"), None);
}

#[test]
fn a_track_is_fetched_by_its_source() {
    let t = Track::new(TrackSource::Spotify("https://open.spotify.com/track/abc".to_string()));
    assert!(matches!(resolve_plan(&t), InputPlan::Search(ref q) if q == "spotify track abc audio"));
    let t = Track::new(TrackSource::SpotifyPlaylist("https://x/y".to_string()));
    assert!(matches!(resolve_plan(&t), InputPlan::Search(ref q) if q == "https://x/y playlist"));
    let t = Track::new(TrackSource::YouTubePlaylist("https://yt/p".to_string()));
    assert!(matches!(resolve_plan(&t), InputPlan::Ytdl(ref u) if u == "https://yt/p"));
    let t = Track::new(TrackSource::Http("https://a/b.mp3".to_string()));
    assert!(matches!(resolve_plan(&t), InputPlan::Http(_)));
}

fn source_text(s: &TrackSource) -> (&'static str, String) {
    match s {
        TrackSource::YouTube(u) => ("youtube", u.clone()),
        TrackSource::YouTubeSearch(q) => ("search", q.clone()),
        TrackSource::YouTubePlaylist(u) => ("youtube playlist", u.clone()),
        TrackSource::Spotify(u) => ("spotify", u.clone()),
        TrackSource::SpotifyPlaylist(u) => ("spotify playlist", u.clone()),
        TrackSource::File(a) => ("file", a.url.clone()),
        TrackSource::Http(u) => ("http", u.clone()),
    }
}

#[test]
fn a_query_is_parsed_into_a_track_source() {
    let words = TrackResolver::parse_query("king creole");
    assert_eq!(source_text(&words.source), ("search", "king creole".to_string()));
    let video = TrackResolver::parse_query("https://youtu.be/abc");
    assert_eq!(source_text(&video.source), ("youtube", "https://youtu.be/abc".to_string()));
    let list = TrackResolver::parse_query("https://www.youtube.com/watch?v=a&list=PL1");
    assert_eq!(source_text(&list.source).0, "youtube playlist");
    let sp = TrackResolver::parse_query("https://open.spotify.com/playlist/37i9");
    assert_eq!(source_text(&sp.source).0, "spotify playlist");
    let st = TrackResolver::parse_query("https://open.spotify.com/track/3Vr5");
    assert_eq!(source_text(&st.source).0, "spotify");
    let other = TrackResolver::parse_query("HTTPS://Example.com");
    assert_eq!(source_text(&other.source), ("http", "https://example.com/".to_string()));
}

#[test]
fn resolving_turns_spotify_links_into_searches() {
    let mut t = Track::new(TrackSource::Spotify("https://open.spotify.com/track/x".to_string()));
    match TrackResolver::resolve(&mut t) {
        ResolveStep::Search(q) => assert_eq!(q, "https://open.spotify.com/track/x audio"),
        other => panic!("{other:?}"),
    }
    assert_eq!(source_text(&t.source), ("search", "https://open.spotify.com/track/x audio".to_string()));

    let mut p = Track::new(TrackSource::SpotifyPlaylist("sp".to_string()));
    assert!(matches!(TrackResolver::resolve(&mut p), ResolveStep::Search(ref q) if q == "sp playlist"));

    let mut f = Track::new(TrackSource::File(Attachment {
        filename: "a.mp3".to_string(),
        url: "https://cdn/a.mp3".to_string(),
    }));
    assert!(matches!(TrackResolver::resolve(&mut f), ResolveStep::Done));
    assert_eq!(f.metadata.title.as_deref(), Some("a.mp3"));
    assert_eq!(f.metadata.source_url.as_deref(), Some("https://cdn/a.mp3"));

    let mut v = Track::new(TrackSource::YouTube("https://youtu.be/x".to_string()));
    assert!(matches!(TrackResolver::resolve(&mut v), ResolveStep::FetchVideo(ref u) if u == "https://youtu.be/x"));
}

#[test]
fn a_search_result_becomes_the_tracks_source() {
    let mut t = Track::new(TrackSource::YouTubeSearch("q".to_string()));
    let found = TrackMetadata {
        title: Some("Song".to_string()),
        source_url: Some("https://youtu.be/found".to_string()),
        ..TrackMetadata::default()
    };
    assert_eq!(TrackResolver::finish_search(&mut t, Some(found)), Ok(()));
    assert_eq!(source_text(&t.source), ("youtube", "https://youtu.be/found".to_string()));
    assert_eq!(t.metadata.title.as_deref(), Some("Song"));
    assert_eq!(
        TrackResolver::finish_search(&mut t, None),
        Err(CrackedError::NoSearchResults)
    );
    assert_eq!(CrackedError::NoSearchResults.to_text(), "No search results found");
}

#[test]
fn a_fetched_playlist_becomes_one_track_per_video() {
    let videos = vec![
        PlaylistVideo { title: "A".to_string(), url: "u1".to_string(), thumbnail: Some("t1".to_string()) },
        PlaylistVideo { title: "B".to_string(), url: "u2".to_string(), thumbnail: None },
    ];
    let c = TrackResolver::resolve_playlist(videos);
    assert_eq!(c.len(), 2);
    assert_eq!(source_text(&c.tracks[1].source), ("youtube", "u2".to_string()));
    assert_eq!(c.tracks[0].metadata.thumbnail.as_deref(), Some("t1"));
    assert_eq!(c.tracks[1].metadata.title.as_deref(), Some("B"));
}
