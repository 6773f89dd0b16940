use crack_core::query_type::{
    download_file_name, extracts_mp3, DownloadPlan, MetadataPlan, ModePlan, NamedBy, Queries,
    QueryType,
    SourcePlan,
};
use crack_core::spotify::SpotifyTrack;
use crack_core::track::TrackMetadata;

fn spotify(name: &str, artists: &[&str]) -> SpotifyTrack {
    SpotifyTrack {
        name: name.to_string(),
        artists: artists.iter().map(|a| a.to_string()).collect(),
        album_name: String::new(),
        duration_secs: 0,
    }
}

#[test]
fn a_query_searches_for_its_words_with_the_topic_suffix() {
    let q = QueryType::Keywords("king creole".to_string());
    assert_eq!(q.build_query_base().as_deref(), Some("king creole"));
    assert_eq!(q.build_query().as_deref(), Some(r#"king creole \"topic\""#));
    let q = QueryType::KeywordList(vec!["a".to_string(), "b".to_string()]);
    assert_eq!(q.build_query_base().as_deref(), Some("a b"));
    let q = QueryType::SpotifyTracks(vec![spotify("asdf", &["qwer"]), spotify("x", &["y", "z"])]);
    assert_eq!(q.build_query_base().as_deref(), Some("asdf qwer x y z"));
    assert_eq!(QueryType::NoQuery.build_query(), None);
    let q = QueryType::NewYoutubeDl(TrackMetadata {
        source_url: Some("https://youtu.be/x".to_string()),
        ..TrackMetadata::default()
    });
    assert_eq!(q.build_query_base().as_deref(), Some("https://youtu.be/x"));
    assert_eq!(
        QueryType::NewYoutubeDl(TrackMetadata::default()).build_query_base(),
        None
    );
    assert_eq!(
        q.build_query_explicit(Some("song".to_string())).as_deref(),
        Some("song explicit")
    );
    assert_eq!(q.build_query_explicit(None), None);
}

#[test]
fn a_download_is_named_by_title_and_video_id() {
    assert_eq!(
        download_file_name("Song", "https://www.youtube.com/watch?v=abc", true),
        "/data/downloads/Song [abc].mp3"
    );
    assert_eq!(
        download_file_name("Song", "https://x.org/a", false),
        "/data/downloads/Song [https://x.org/a].webm"
    );
    assert!(extracts_mp3("https://www.youtube.com/watch?v=abc", false));
    assert!(!extracts_mp3("https://x.org/a", false));
    assert!(extracts_mp3("https://x.org/a", true));
}

#[test]
fn downloads_are_planned_by_query_kind() {
    assert!(matches!(
        QueryType::YoutubeSearch("x".to_string()).download_plan(true),
        DownloadPlan::Refused(ref m) if m == "Download not valid with search results."
    ));
    assert!(matches!(
        QueryType::NoQuery.download_plan(true),
        DownloadPlan::Refused(ref m) if m == "No query provided!"
    ));
    assert!(matches!(
        QueryType::File("https://cdn/x.mp3".to_string()).download_plan(true),
        DownloadPlan::Ready(ref u) if u == "https://cdn/x.mp3"
    ));
    assert!(matches!(
        QueryType::Keywords("a b".to_string()).download_plan(false),
        DownloadPlan::Search { ref search, download_found: true } if search == "ytsearch:a b"
    ));
    assert!(matches!(
        QueryType::VideoLink("v".to_string()).download_plan(false),
        DownloadPlan::Download { ref url, named_by: NamedBy::ReportedUrl } if url == "v"
    ));
    let q = QueryType::NewYoutubeDl(TrackMetadata {
        title: Some("T".to_string()),
        source_url: Some("https://www.youtube.com/watch?v=id".to_string()),
        ..TrackMetadata::default()
    });
    assert!(matches!(
        q.download_plan(false),
        DownloadPlan::Named { ref file_name, .. } if file_name == "/data/downloads/T [id].webm"
    ));
}

#[test]
fn sources_are_planned_by_query_kind() {
    assert!(matches!(
        QueryType::Keywords("k".to_string()).source_and_metadata_plan(),
        SourcePlan::Search(ref q) if q == "k"
    ));
    assert!(matches!(
        QueryType::Keywords("k".to_string()).source_plan(),
        SourcePlan::Ytdl(ref q) if q == "k"
    ));
    assert!(matches!(
        QueryType::SpotifyTracks(vec![spotify("asdf", &["qwer"])]).source_and_metadata_plan(),
        SourcePlan::Ytdl(ref q) if q == "ytsearch:asdf qwer"
    ));
    assert!(matches!(
        QueryType::PlaylistLink("p".to_string()).source_and_metadata_plan(),
        SourcePlan::Playlist { ref url, limit: 30 } if url == "p"
    ));
    assert!(matches!(
        QueryType::File("f".to_string()).metadata_plan(),
        MetadataPlan::Blank
    ));
    assert!(matches!(
        QueryType::YoutubeSearch("s".to_string()).metadata_plan(),
        MetadataPlan::SearchMany { limit: 5, playlists: false, .. }
    ));
    assert!(matches!(
        QueryType::KeywordList(vec!["a".to_string()]).metadata_plan(),
        MetadataPlan::SearchEach { skip_misses: false, ref queries } if queries == &vec!["a".to_string()]
    ));
}

#[test]
fn each_mode_plans_by_query_kind() {
    let words = QueryType::Keywords("w".to_string());
    assert!(matches!(words.end_plan(), ModePlan::QueueBack));
    assert!(matches!(words.next_plan(), ModePlan::QueueFront));
    assert!(matches!(words.rest_plan(), ModePlan::SayPlayAllFailed));
    assert!(matches!(words.search_plan(), ModePlan::PickFromSearch(ref q) if q == "w"));

    let search = QueryType::YoutubeSearch("s".to_string());
    assert!(matches!(search.end_plan(), ModePlan::ShowSearchResults(ref q) if q == "s"));
    assert!(matches!(search.next_plan(), ModePlan::NotImplemented));

    let list = QueryType::KeywordList(vec!["a".to_string(), "b".to_string()]);
    assert!(matches!(
        list.next_plan(),
        ModePlan::QueueKeywordsAt { ref words, offset: 1 } if words == &vec!["a".to_string(), "b".to_string()]
    ));
    assert!(matches!(list.search_plan(), ModePlan::SaySearchFailed));

    let playlist = QueryType::PlaylistLink("p".to_string());
    assert!(matches!(playlist.end_plan(), ModePlan::QueuePlaylistBack(ref u) if u == "p"));
    assert!(matches!(playlist.rest_plan(), ModePlan::ResolveThenQueueBack(ref u) if u == "p"));

    let tracks = QueryType::SpotifyTracks(vec![spotify("a", &["x"]), spotify("b", &["y"])]);
    assert!(matches!(tracks.search_plan(), ModePlan::PickFromSearch(ref q) if q == "a x b y"));

    assert!(matches!(QueryType::NoQuery.end_plan(), ModePlan::SayNoQuery));
    assert!(matches!(QueryType::NoQuery.next_plan(), ModePlan::Nothing));
}

#[test]
fn queries_keep_their_order() {
    let qs = Queries::from_keywords(vec!["a".to_string(), "b".to_string()]);
    assert_eq!(qs.len(), 2);
    assert!(!qs.is_empty());
    let words: Vec<String> = qs
        .iter()
        .map(|q| match q {
            QueryType::Keywords(k) => k.clone(),
            _ => panic!("not a search"),
        })
        .collect();
    assert_eq!(words, vec!["a".to_string(), "b".to_string()]);
    assert!(Queries::new(vec![]).is_empty());

    let tracks = Queries::from_spotify_tracks(&vec![spotify("t", &["x", "y"])]).to_vec();
    assert!(matches!(&tracks[0], QueryType::Keywords(k) if k == "t x y"));
}
