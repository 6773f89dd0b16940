//! Where a play request goes: which resolver a link or a query is handed
//! to, and what a queued track's audio is fetched with.
use vstd::prelude::*;
use crate::text::{
    before_first, before_first_chars, chars_of, contains_chars, has_infix, same_chars,
    seq_starts_with, split_chars, split_on, starts_with, string_of, views_of,
};
use crate::track::{Track, TrackMetadata, TrackSource};
use crate::errors::CrackedError;
use crate::interface::text_or_empty;
use crate::urls::{
    opt_pairs_view, path_segments, path_segments_of, strings_view, url_fragment,
    url_fragment_of, url_host, url_host_of, url_path, url_path_of, url_query_pairs,
    url_query_pairs_of, opt_opt_string_view,
};

verus! {

broadcast use vstd::string::group_string_axioms;

/// Where a play request goes.
#[derive(Debug, Clone)]
pub enum QueryRoute {
    /// Words to search for.
    Keywords(String),
    /// A YouTube video.
    VideoLink(String),
    /// A YouTube playlist, by its list id.
    PlaylistLink(String),
    /// A Spotify link, to be followed and looked up.
    SpotifyLink,
    /// A Spotify URI, as the track link it stands for.
    SpotifyUri(String),
    /// A file attached to the message.
    Attachment,
    /// A link to another site, for yt-dlp to resolve.
    YtDlp,
}

/// A route, its texts taken by their characters.
pub enum QueryRouteView {
    Keywords(Seq<char>),
    VideoLink(Seq<char>),
    PlaylistLink(Seq<char>),
    SpotifyLink,
    SpotifyUri(Seq<char>),
    Attachment,
    YtDlp,
}

impl View for QueryRoute {
    type V = QueryRouteView;

    open spec fn view(&self) -> QueryRouteView {
        match self {
            QueryRoute::Keywords(k) => QueryRouteView::Keywords(k@),
            QueryRoute::VideoLink(u) => QueryRouteView::VideoLink(u@),
            QueryRoute::PlaylistLink(l) => QueryRouteView::PlaylistLink(l@),
            QueryRoute::SpotifyLink => QueryRouteView::SpotifyLink,
            QueryRoute::SpotifyUri(u) => QueryRouteView::SpotifyUri(u@),
            QueryRoute::Attachment => QueryRouteView::Attachment,
            QueryRoute::YtDlp => QueryRouteView::YtDlp,
        }
    }
}

/// The value of the first query pair keyed `list` or `playlist`.
pub open spec fn playlist_in(pairs: Seq<(Seq<char>, Seq<char>)>) -> Option<Seq<char>>
    decreases pairs.len(),
{
    if pairs.len() == 0 {
        None
    } else if pairs[0].0 == "list"@ || pairs[0].0 == "playlist"@ {
        Some(pairs[0].1)
    } else {
        playlist_in(pairs.drop_first())
    }
}

/// Where a request for `url` goes, given the host and the query pairs the
/// URL parser found in it: a Spotify host is looked up, Discord's file host
/// is an attachment, YouTube is a playlist when the query names one and a
/// video otherwise, any other host goes to yt-dlp; a `spotify:` URI stands
/// for the track link with its last part; anything that does not parse, or
/// parses without a host, is searched for.
pub open spec fn route_of(
    url: Seq<char>,
    host: Option<Option<Seq<char>>>,
    pairs: Option<Seq<(Seq<char>, Seq<char>)>>,
) -> QueryRouteView {
    match host {
        None => QueryRouteView::Keywords(url),
        Some(None) => if starts_with(url, "spotify:"@) {
            QueryRouteView::SpotifyUri("https://open.spotify.com/track/"@ + split_on(url, ':').last())
        } else {
            QueryRouteView::Keywords(url)
        },
        Some(Some(h)) => if h == "open.spotify.com"@ || h == "spotify.link"@ {
            QueryRouteView::SpotifyLink
        } else if h == "cdn.discordapp.com"@ {
            QueryRouteView::Attachment
        } else if h == "www.youtube.com"@ {
            match playlist_in(
                match pairs {
                    Some(p) => p,
                    None => Seq::empty(),
                },
            ) {
                Some(list) => QueryRouteView::PlaylistLink(list),
                None => QueryRouteView::VideoLink(url),
            }
        } else {
            QueryRouteView::YtDlp
        },
    }
}

fn is_word(v: &Vec<char>, w: &str) -> (r: bool)
    ensures
        r == (v@ == w@),
{
    same_chars(v, &chars_of(w))
}

fn find_playlist(pairs: &Vec<(String, String)>) -> (r: Option<String>)
    ensures
        crate::urls::opt_string_view(r) == playlist_in(crate::urls::pairs_view(pairs@)),
{
    let ghost all = crate::urls::pairs_view(pairs@);
    let mut i: usize = 0;
    assert(all.skip(0) =~= all);
    while i < pairs.len()
        invariant
            i <= pairs@.len(),
            all == crate::urls::pairs_view(pairs@),
            playlist_in(all) == playlist_in(all.skip(i as int)),
        decreases pairs@.len() - i,
    {
        let ghost rest = all.skip(i as int);
        assert(rest[0] == (pairs@[i as int].0@, pairs@[i as int].1@));
        let key = chars_of(pairs[i].0.as_str());
        if is_word(&key, "list") || is_word(&key, "playlist") {
            return Some(pairs[i].1.clone());
        }
        assert(rest.drop_first() =~= all.skip(i + 1));
        i = i + 1;
    }
    assert(all.skip(i as int).len() == 0);
    None
}

/// Where a request for `url` goes, given what the URL parser found in it.
/// This is the part of [`query_route`] that follows the parser.
pub fn route_for(url: &str, host: Option<Option<String>>, pairs: Option<Vec<(String, String)>>) -> (r: QueryRoute)
    ensures
        r@ == route_of(url@, opt_opt_string_view(host), opt_pairs_view(pairs)),
{
    match host {
        None => QueryRoute::Keywords(String::from_str(url)),
        Some(None) => {
            let chars = chars_of(url);
            if seq_starts_with(&chars, &chars_of("spotify:")) {
                let parts = split_chars(&chars, ':');
                proof {
                    crate::text::lemma_split_on_nonempty(url@, ':');
                    assert(views_of(parts@).last() == parts@.last()@);
                }
                let last = string_of(&parts[parts.len() - 1]);
                let mut target = String::from_str("https://open.spotify.com/track/");
                target.append(last.as_str());
                QueryRoute::SpotifyUri(target)
            } else {
                QueryRoute::Keywords(String::from_str(url))
            }
        },
        Some(Some(h)) => {
            let host = chars_of(h.as_str());
            if is_word(&host, "open.spotify.com") || is_word(&host, "spotify.link") {
                QueryRoute::SpotifyLink
            } else if is_word(&host, "cdn.discordapp.com") {
                QueryRoute::Attachment
            } else if is_word(&host, "www.youtube.com") {
                let found = match &pairs {
                    Some(p) => find_playlist(p),
                    None => {
                        let empty: Vec<(String, String)> = Vec::new();
                        proof {
                            assert(crate::urls::pairs_view(empty@) =~= Seq::<(Seq<char>, Seq<char>)>::empty());
                        }
                        find_playlist(&empty)
                    },
                };
                match found {
                    Some(list) => QueryRoute::PlaylistLink(list),
                    None => QueryRoute::VideoLink(String::from_str(url)),
                }
            } else {
                QueryRoute::YtDlp
            }
        },
    }
}

/// Where a request for `url` goes: it is parsed as a URL, and the host and
/// query the parser finds decide.
pub fn query_route(url: &str) -> (r: QueryRoute)
    ensures
        r@ == route_of(url@, url_host_of(url@), url_query_pairs_of(url@)),
{
    let host = url_host(url);
    let pairs = url_query_pairs(url);
    route_for(url, host, pairs)
}

/// What a Spotify link says of itself, as search words and an artist: a
/// track's title when its fragment carries one before `si=`, else the kind
/// and id of the entity; nothing for a link that is not to a track, album,
/// artist or playlist.
pub open spec fn spotify_info_of(
    path: Option<Seq<char>>,
    fragment: Option<Option<Seq<char>>>,
) -> Option<(Seq<char>, Seq<char>)> {
    match path {
        None => None,
        Some(p) => match path_segments(p) {
            None => None,
            Some(segs) => if segs.len() < 2 {
                None
            } else {
                let kind = segs[0];
                let id = segs[1];
                let frag = match fragment {
                    Some(Some(f)) => f,
                    _ => Seq::empty(),
                };
                if kind == "track"@ {
                    if has_infix(frag, "si="@) {
                        Some((before_first(frag, "si="@), Seq::empty()))
                    } else {
                        Some(("spotify track "@ + id, Seq::empty()))
                    }
                } else if kind == "album"@ {
                    Some(("spotify album "@ + id, Seq::empty()))
                } else if kind == "artist"@ {
                    Some(("spotify artist "@ + id, Seq::empty()))
                } else if kind == "playlist"@ {
                    Some(("spotify playlist "@ + id, Seq::empty()))
                } else {
                    None
                }
            },
        },
    }
}

pub open spec fn info_view(r: Option<(String, String)>) -> Option<(Seq<char>, Seq<char>)> {
    match r {
        Some((a, b)) => Some((a@, b@)),
        None => None,
    }
}

fn labelled(label: &str, id: &String) -> (r: (String, String))
    ensures
        r.0@ == label@ + id@,
        r.1@ == Seq::<char>::empty(),
{
    let mut s = String::from_str(label);
    s.append(id.as_str());
    (s, String::new())
}

/// What a Spotify link says of itself, given the path and the fragment the
/// URL parser found in it.
pub fn spotify_info_for(path: Option<String>, fragment: Option<Option<String>>) -> (r: Option<(String, String)>)
    ensures
        info_view(r) == spotify_info_of(crate::urls::opt_string_view(path), opt_opt_string_view(fragment)),
{
    let p = match path {
        None => {
            return None;
        },
        Some(p) => p,
    };
    let segs = match path_segments_of(p.as_str()) {
        None => {
            return None;
        },
        Some(s) => s,
    };
    if segs.len() < 2 {
        return None;
    }
    assert(strings_view(segs@)[0] == segs@[0]@);
    assert(strings_view(segs@)[1] == segs@[1]@);
    let kind = chars_of(segs[0].as_str());
    let frag = match fragment {
        Some(Some(f)) => f,
        _ => String::new(),
    };
    if is_word(&kind, "track") {
        let fc = chars_of(frag.as_str());
        let marker = chars_of("si=");
        if contains_chars(&fc, &marker) {
            let name = string_of(&before_first_chars(&fc, &marker));
            Some((name, String::new()))
        } else {
            Some(labelled("spotify track ", &segs[1]))
        }
    } else if is_word(&kind, "album") {
        Some(labelled("spotify album ", &segs[1]))
    } else if is_word(&kind, "artist") {
        Some(labelled("spotify artist ", &segs[1]))
    } else if is_word(&kind, "playlist") {
        Some(labelled("spotify playlist ", &segs[1]))
    } else {
        None
    }
}

/// What a Spotify link says of itself.
pub fn extract_spotify_info(url: &str) -> (r: Option<(String, String)>)
    ensures
        info_view(r) == spotify_info_of(url_path_of(url@), url_fragment_of(url@)),
{
    let path = url_path(url);
    let fragment = url_fragment(url);
    spotify_info_for(path, fragment)
}

/// What a queued track's audio is fetched with.
#[derive(Debug, Clone)]
pub enum InputPlan {
    /// YouTube's own client on the video, with yt-dlp behind it.
    Video(String),
    /// A YouTube search for the words.
    Search(String),
    /// A plain HTTP fetch of the URL.
    Http(String),
    /// yt-dlp on the URL.
    Ytdl(String),
}

/// An input plan, its texts taken by their characters.
pub enum InputPlanView {
    Video(Seq<char>),
    Search(Seq<char>),
    Http(Seq<char>),
    Ytdl(Seq<char>),
}

impl View for InputPlan {
    type V = InputPlanView;

    open spec fn view(&self) -> InputPlanView {
        match self {
            InputPlan::Video(u) => InputPlanView::Video(u@),
            InputPlan::Search(q) => InputPlanView::Search(q@),
            InputPlan::Http(u) => InputPlanView::Http(u@),
            InputPlan::Ytdl(u) => InputPlanView::Ytdl(u@),
        }
    }
}

/// The search words for a Spotify track link: what the link says of itself
/// and "audio", or the link itself and "audio".
pub open spec fn spotify_track_search(url: Seq<char>, info: Option<(Seq<char>, Seq<char>)>) -> Seq<char> {
    match info {
        Some((title, artist)) => if artist.len() == 0 {
            title + " audio"@
        } else {
            title + " "@ + artist + " audio"@
        },
        None => url + " audio"@,
    }
}

/// The search words for a Spotify playlist link: what the link says of
/// itself, or the link itself and "playlist".
pub open spec fn spotify_playlist_search(url: Seq<char>, info: Option<(Seq<char>, Seq<char>)>) -> Seq<char> {
    match info {
        Some((title, _)) => title,
        None => url + " playlist"@,
    }
}

/// How a track's audio is fetched: a YouTube video by YouTube's client, a
/// search by YouTube's search, a file or other link over HTTP, a YouTube
/// playlist by yt-dlp, and a Spotify link by searching YouTube for what the
/// link says of itself.
pub open spec fn input_plan_of(source: TrackSource) -> InputPlanView {
    match source {
        TrackSource::YouTube(u) => InputPlanView::Video(u@),
        TrackSource::YouTubeSearch(q) => InputPlanView::Search(q@),
        TrackSource::File(a) => InputPlanView::Http(a.url@),
        TrackSource::Http(u) => InputPlanView::Http(u@),
        TrackSource::Spotify(u) => InputPlanView::Search(spotify_track_search(
            u@,
            spotify_info_of(url_path_of(u@), url_fragment_of(u@)),
        )),
        TrackSource::SpotifyPlaylist(u) => InputPlanView::Search(spotify_playlist_search(
            u@,
            spotify_info_of(url_path_of(u@), url_fragment_of(u@)),
        )),
        TrackSource::YouTubePlaylist(u) => InputPlanView::Ytdl(u@),
    }
}

/// How a queued track's audio is fetched.
pub fn resolve_plan(track: &Track) -> (r: InputPlan)
    ensures
        r@ == input_plan_of(track.source),
{
    match &track.source {
        TrackSource::YouTube(u) => InputPlan::Video(u.clone()),
        TrackSource::YouTubeSearch(q) => InputPlan::Search(q.clone()),
        TrackSource::File(a) => InputPlan::Http(a.url.clone()),
        TrackSource::Http(u) => InputPlan::Http(u.clone()),
        TrackSource::Spotify(u) => {
            let q = match extract_spotify_info(u.as_str()) {
                Some((title, artist)) => {
                    let mut q = title;
                    if chars_of(artist.as_str()).len() == 0 {
                        q.append(" audio");
                    } else {
                        q.append(" ");
                        q.append(artist.as_str());
                        q.append(" audio");
                    }
                    q
                },
                None => {
                    let mut q = u.clone();
                    q.append(" audio");
                    q
                },
            };
            InputPlan::Search(q)
        },
        TrackSource::SpotifyPlaylist(u) => {
            let q = match extract_spotify_info(u.as_str()) {
                Some((title, _)) => title,
                None => {
                    let mut q = u.clone();
                    q.append(" playlist");
                    q
                },
            };
            InputPlan::Search(q)
        },
        TrackSource::YouTubePlaylist(u) => InputPlan::Ytdl(u.clone()),
    }
}


/// A track source, its texts taken by their characters.
pub enum SourceView {
    YouTube(Seq<char>),
    YouTubeSearch(Seq<char>),
    YouTubePlaylist(Seq<char>),
    Spotify(Seq<char>),
    SpotifyPlaylist(Seq<char>),
    File(Seq<char>, Seq<char>),
    Http(Seq<char>),
}

pub open spec fn source_view(s: TrackSource) -> SourceView {
    match s {
        TrackSource::YouTube(u) => SourceView::YouTube(u@),
        TrackSource::YouTubeSearch(q) => SourceView::YouTubeSearch(q@),
        TrackSource::YouTubePlaylist(u) => SourceView::YouTubePlaylist(u@),
        TrackSource::Spotify(u) => SourceView::Spotify(u@),
        TrackSource::SpotifyPlaylist(u) => SourceView::SpotifyPlaylist(u@),
        TrackSource::File(a) => SourceView::File(a.filename@, a.url@),
        TrackSource::Http(u) => SourceView::Http(u@),
    }
}

/// YouTube's hosts.
pub open spec fn youtube_host(h: Seq<char>) -> bool {
    h == "www.youtube.com"@ || h == "youtube.com"@ || h == "youtu.be"@
}

/// Whether some query pair is keyed `key`.
pub open spec fn keyed_by(pairs: Option<Seq<(Seq<char>, Seq<char>)>>, key: Seq<char>) -> bool {
    match pairs {
        Some(p) => exists|i: int| #![trigger p[i]] 0 <= i < p.len() && p[i].0 == key,
        None => false,
    }
}

/// Whether a Spotify path is a playlist's: at least two segments, the first
/// `playlist`.
pub open spec fn spotify_playlist_path(path: Option<Seq<char>>) -> bool {
    path matches Some(p) && path_segments(p) matches Some(segs) && segs.len() >= 2 && segs[0]
        == "playlist"@
}

/// Where a queried track's audio comes from, given what the URL parser
/// found in the query: words that do not parse are searched for; a YouTube
/// link is a playlist when a query pair is keyed `list`, a video otherwise;
/// an `open.spotify.com` link is a playlist when its path starts with
/// `playlist`, a track otherwise; any other link is fetched over HTTP. A
/// link is kept as the parser serializes it (as typed, were the parser to
/// give no serialization).
pub open spec fn parsed_source(
    q: Seq<char>,
    host: Option<Option<Seq<char>>>,
    serial: Option<Seq<char>>,
    pairs: Option<Seq<(Seq<char>, Seq<char>)>>,
    path: Option<Seq<char>>,
) -> SourceView {
    let s = match serial {
        Some(s) => s,
        None => q,
    };
    match host {
        None => SourceView::YouTubeSearch(q),
        Some(Some(h)) => if youtube_host(h) {
            if keyed_by(pairs, "list"@) {
                SourceView::YouTubePlaylist(s)
            } else {
                SourceView::YouTube(s)
            }
        } else if h == "open.spotify.com"@ {
            if spotify_playlist_path(path) {
                SourceView::SpotifyPlaylist(s)
            } else {
                SourceView::Spotify(s)
            }
        } else {
            SourceView::Http(s)
        },
        Some(None) => SourceView::Http(s),
    }
}

proof fn lemma_keyed_by(all: Seq<(Seq<char>, Seq<char>)>, i: int, key: Seq<char>)
    requires
        0 <= i < all.len(),
        all[i].0 == key,
    ensures
        keyed_by(Some(all), key),
{
    let w = Some(all);
    assert(w matches Some(p) && p == all);
    assert(exists|k: int| 0 <= k < all.len() && #[trigger] all[k].0 == key);
}

fn has_list_key(pairs: &Option<Vec<(String, String)>>) -> (r: bool)
    ensures
        r == keyed_by(crate::urls::opt_pairs_view(*pairs), "list"@),
{
    match pairs {
        None => false,
        Some(p) => {
            let ghost all = crate::urls::pairs_view(p@);
            let mut i: usize = 0;
            while i < p.len()
                invariant
                    i <= p@.len(),
                    all == crate::urls::pairs_view(p@),
                    all.len() == p@.len(),
                    crate::urls::opt_pairs_view(*pairs) == Some(all),
                    forall|j: int| 0 <= j < i ==> #[trigger] all[j].0 != "list"@,
                decreases p@.len() - i,
            {
                assert(all[i as int] == (p@[i as int].0@, p@[i as int].1@));
                if is_word(&chars_of(p[i].0.as_str()), "list") {
                    proof {
                        lemma_keyed_by(all, i as int, "list"@);
                    }
                    return true;
                }
                i = i + 1;
            }
            false
        },
    }
}

fn is_spotify_playlist_path(path: &Option<String>) -> (r: bool)
    ensures
        r == spotify_playlist_path(crate::urls::opt_string_view(*path)),
{
    match path {
        None => false,
        Some(p) => match path_segments_of(p.as_str()) {
            None => false,
            Some(segs) => {
                if segs.len() >= 2 {
                    assert(strings_view(segs@)[0] == segs@[0]@);
                    is_word(&chars_of(segs[0].as_str()), "playlist")
                } else {
                    false
                }
            },
        },
    }
}

/// Resolves play queries to tracks, and tracks to what their audio is.
pub struct TrackResolver {}

impl TrackResolver {
    /// Where a queried track's audio comes from, given what the URL parser
    /// found in the query. This is the part of [`TrackResolver::parse_query`]
    /// that follows the parser.
    pub fn source_for(
        query: &str,
        host: Option<Option<String>>,
        serial: Option<String>,
        pairs: Option<Vec<(String, String)>>,
        path: Option<String>,
    ) -> (r: TrackSource)
        ensures
            source_view(r) == parsed_source(
                query@,
                opt_opt_string_view(host),
                crate::urls::opt_string_view(serial),
                crate::urls::opt_pairs_view(pairs),
                crate::urls::opt_string_view(path),
            ),
    {
        let s = match &serial {
            Some(s) => s.clone(),
            None => String::from_str(query),
        };
        match host {
            None => TrackSource::YouTubeSearch(String::from_str(query)),
            Some(Some(h)) => {
                let hc = chars_of(h.as_str());
                if is_word(&hc, "www.youtube.com") || is_word(&hc, "youtube.com") || is_word(&hc, "youtu.be") {
                    if has_list_key(&pairs) {
                        TrackSource::YouTubePlaylist(s)
                    } else {
                        TrackSource::YouTube(s)
                    }
                } else if is_word(&hc, "open.spotify.com") {
                    if is_spotify_playlist_path(&path) {
                        TrackSource::SpotifyPlaylist(s)
                    } else {
                        TrackSource::Spotify(s)
                    }
                } else {
                    TrackSource::Http(s)
                }
            },
            Some(None) => TrackSource::Http(s),
        }
    }

    /// A track for a play query: parsed as a URL first, searched for when it
    /// is not one.
    pub fn parse_query(query_str: &str) -> (r: Track)
        ensures
            source_view(r.source) == parsed_source(
                query_str@,
                url_host_of(query_str@),
                crate::urls::url_serialization_of(query_str@),
                url_query_pairs_of(query_str@),
                url_path_of(query_str@),
            ),
            r.metadata == crate::track::TrackMetadata::blank(),
            r.user_id is None,
    {
        let host = url_host(query_str);
        let serial = crate::urls::url_serialized(query_str);
        let pairs = url_query_pairs(query_str);
        let path = url_path(query_str);
        Track::new(TrackResolver::source_for(query_str, host, serial, pairs, path))
    }

    /// What resolving a track takes next. A YouTube video or playlist link
    /// is fetched as a video; a search is made; a Spotify track link becomes
    /// a search for the link and "audio", a Spotify playlist link one for
    /// the link and "playlist", and the track's source becomes that search;
    /// a file or any other link is described by its name (or URL) and URL,
    /// and needs nothing more.
    pub fn resolve(track: &mut Track) -> (r: ResolveStep)
        ensures
            final(track).user_id == old(track).user_id,
            resolve_outcome(*old(track), *final(track), r),
    {
        match &track.source {
            TrackSource::YouTube(u) => ResolveStep::FetchVideo(u.clone()),
            TrackSource::YouTubeSearch(q) => ResolveStep::Search(q.clone()),
            TrackSource::YouTubePlaylist(u) => ResolveStep::FetchVideo(u.clone()),
            TrackSource::Spotify(u) => {
                let mut q = u.clone();
                q.append(" audio");
                track.source = TrackSource::YouTubeSearch(q.clone());
                ResolveStep::Search(q)
            },
            TrackSource::SpotifyPlaylist(u) => {
                let mut q = u.clone();
                q.append(" playlist");
                track.source = TrackSource::YouTubeSearch(q.clone());
                ResolveStep::Search(q)
            },
            TrackSource::File(a) => {
                let m = TrackMetadata {
                    title: Some(a.filename.clone()),
                    source_url: Some(a.url.clone()),
                    ..TrackMetadata::default()
                };
                track.metadata = m;
                ResolveStep::Done
            },
            TrackSource::Http(u) => {
                let m = TrackMetadata {
                    title: Some(u.clone()),
                    source_url: Some(u.clone()),
                    ..TrackMetadata::default()
                };
                track.metadata = m;
                ResolveStep::Done
            },
        }
    }

    /// Takes in what a search for the track found: its metadata, and the
    /// found video as the track's source. A search that found nothing fails.
    pub fn finish_search(track: &mut Track, found: Option<TrackMetadata>) -> (r: Result<(), CrackedError>)
        ensures
            final(track).user_id == old(track).user_id,
            match found {
                Some(m) => r is Ok && final(track).metadata == m && source_view(final(track).source)
                    == SourceView::YouTube(text_or_empty(m.source_url)),
                None => r == Err::<(), CrackedError>(CrackedError::NoSearchResults) && *final(track)
                    == *old(track),
            },
    {
        match found {
            Some(m) => {
                let url = match &m.source_url {
                    Some(u) => u.clone(),
                    None => String::new(),
                };
                track.metadata = m;
                track.source = TrackSource::YouTube(url);
                Ok(())
            },
            None => Err(CrackedError::NoSearchResults),
        }
    }
}

/// What resolving a track takes next.
#[derive(Debug, Clone)]
pub enum ResolveStep {
    /// Fetch the video's details from YouTube.
    FetchVideo(String),
    /// Search YouTube for the words.
    Search(String),
    /// The track is described already.
    Done,
}

/// Metadata naming a title and a URL, and nothing else.
pub open spec fn titled_metadata(m: TrackMetadata, title: Seq<char>, url: Seq<char>) -> bool {
    &&& m.title matches Some(t) && t@ == title
    &&& m.source_url matches Some(u) && u@ == url
    &&& m.track is None
    &&& m.thumbnail is None
    &&& m.duration is None
    &&& m.artist is None
    &&& m.channel is None
}

/// How resolving changed the track, and the step it asks for.
pub open spec fn resolve_outcome(before: Track, after: Track, r: ResolveStep) -> bool {
    match before.source {
        TrackSource::YouTube(u) => r matches ResolveStep::FetchVideo(x) && x@ == u@ && after == before,
        TrackSource::YouTubePlaylist(u) => r matches ResolveStep::FetchVideo(x) && x@ == u@ && after
            == before,
        TrackSource::YouTubeSearch(q) => r matches ResolveStep::Search(x) && x@ == q@ && after == before,
        TrackSource::Spotify(u) => r matches ResolveStep::Search(x) && x@ == u@ + " audio"@
            && source_view(after.source) == SourceView::YouTubeSearch(x@) && after.metadata
            == before.metadata,
        TrackSource::SpotifyPlaylist(u) => r matches ResolveStep::Search(x) && x@ == u@ + " playlist"@
            && source_view(after.source) == SourceView::YouTubeSearch(x@) && after.metadata
            == before.metadata,
        TrackSource::File(a) => r is Done && titled_metadata(after.metadata, a.filename@, a.url@)
            && after.source == before.source,
        TrackSource::Http(u) => r is Done && titled_metadata(after.metadata, u@, u@) && after.source
            == before.source,
    }
}


/// A video of a YouTube playlist, as a playlist fetch lists it.
#[derive(Debug, Clone)]
pub struct PlaylistVideo {
    pub title: String,
    pub url: String,
    /// The URL of its first thumbnail, if it has any.
    pub thumbnail: Option<String>,
}

/// Whether `t` is the track a playlist video becomes: its video link as
/// the source, described by its title, link and thumbnail, asked for by
/// nobody.
pub open spec fn video_track(v: PlaylistVideo, t: Track) -> bool {
    &&& source_view(t.source) == SourceView::YouTube(v.url@)
    &&& t.user_id is None
    &&& t.metadata.title matches Some(x) && x@ == v.title@
    &&& t.metadata.source_url matches Some(x) && x@ == v.url@
    &&& crate::urls::opt_string_view(t.metadata.thumbnail) == crate::urls::opt_string_view(v.thumbnail)
    &&& t.metadata.track is None
    &&& t.metadata.duration is None
    &&& t.metadata.artist is None
    &&& t.metadata.channel is None
}

impl TrackResolver {
    /// The tracks of a fetched YouTube playlist, one per video, in order;
    /// each is described by what the listing says, not resolved further.
    pub fn resolve_playlist(videos: Vec<PlaylistVideo>) -> (r: crate::track::TrackCollection)
        ensures
            r@.len() == videos@.len(),
            forall|i: int| 0 <= i < videos@.len() ==> video_track(videos@[i], #[trigger] r@[i]),
    {
        let ghost all = videos@;
        let mut rest = videos;
        let mut tracks: Vec<Track> = Vec::new();
        while rest.len() > 0
            invariant
                rest@.len() <= all.len(),
                rest@ == all.skip(all.len() - rest@.len()),
                tracks@.len() == all.len() - rest@.len(),
                forall|i: int| 0 <= i < tracks@.len() ==> video_track(all[i], #[trigger] tracks@[i]),
            decreases rest@.len(),
        {
            let ghost k = tracks@.len();
            let v = rest.remove(0);
            proof {
                assert(v == all[k as int]);
            }
            let mut t = Track::new(TrackSource::YouTube(v.url.clone()));
            t.metadata = TrackMetadata {
                title: Some(v.title),
                source_url: Some(v.url),
                thumbnail: v.thumbnail,
                ..TrackMetadata::default()
            };
            tracks.push(t);
            proof {
                assert(rest@ =~= all.skip(all.len() - rest@.len()));
            }
        }
        crate::track::TrackCollection::with_tracks(tracks)
    }
}

} // verus!
