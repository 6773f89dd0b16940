//! What a play query is, and how it is fetched: the search text built from
//! it, and the plan for finding its audio, its metadata or a download of it.
//! The fetching itself is network and process work; what to fetch, and how
//! a download is named, is decided here.
use vstd::prelude::*;
use crate::spotify::{SpotifyTrack, MUSIC_SEARCH_SUFFIX};
use crate::text::{
    chars_of, has_infix, contains_chars, join, join_strings, split_chars, split_on, string_of,
    views_of,
};
use crate::track::TrackMetadata;
use crate::urls::{opt_string_view, strings_view};
use vstd::std_specs::iter::IteratorSpec;

verus! {

broadcast use vstd::string::group_string_axioms;

/// A play query, sorted by what it will be resolved with.
#[derive(Debug, Clone)]
pub enum QueryType {
    /// Words to search for.
    Keywords(String),
    /// Several searches' words.
    KeywordList(Vec<String>),
    /// A link to one video.
    VideoLink(String),
    /// Spotify tracks, to be found on YouTube.
    SpotifyTracks(Vec<SpotifyTrack>),
    /// A link to a playlist.
    PlaylistLink(String),
    /// A file attached to a message, by its download URL.
    File(String),
    /// A track yt-dlp has already resolved, described by what it resolved to.
    NewYoutubeDl(TrackMetadata),
    /// A query to hand to YouTube's search.
    YoutubeSearch(String),
    /// No query.
    NoQuery,
}

/// The search query for a Spotify track: its title, then its artists.
pub open spec fn spotify_query(t: SpotifyTrack) -> Seq<char> {
    t.name@ + " "@ + join(strings_view(t.artists@), " "@)
}

pub open spec fn spotify_queries(ts: Seq<SpotifyTrack>) -> Seq<Seq<char>> {
    ts.map_values(|t: SpotifyTrack| spotify_query(t))
}

/// The text a query searches for, before any suffix: its words, link or file
/// URL; several searches' words or several tracks' queries joined by spaces;
/// the resolved source URL of a resolved track; nothing for no query.
pub open spec fn query_base(q: QueryType) -> Option<Seq<char>> {
    match q {
        QueryType::Keywords(k) => Some(k@),
        QueryType::KeywordList(l) => Some(join(strings_view(l@), " "@)),
        QueryType::VideoLink(u) => Some(u@),
        QueryType::SpotifyTracks(ts) => Some(join(spotify_queries(ts@), " "@)),
        QueryType::PlaylistLink(u) => Some(u@),
        QueryType::File(u) => Some(u@),
        QueryType::NewYoutubeDl(m) => opt_string_view(m.source_url),
        QueryType::YoutubeSearch(q) => Some(q@),
        QueryType::NoQuery => None,
    }
}

pub open spec fn suffixed(base: Option<Seq<char>>, suffix: Seq<char>) -> Option<Seq<char>> {
    match base {
        Some(b) => Some(b + " "@ + suffix),
        None => None,
    }
}

fn spotify_query_strings(ts: &Vec<SpotifyTrack>) -> (r: Vec<String>)
    ensures
        strings_view(r@) == spotify_queries(ts@),
{
    let mut out: Vec<String> = Vec::new();
    let mut i: usize = 0;
    while i < ts.len()
        invariant
            i <= ts@.len(),
            strings_view(out@) == spotify_queries(ts@).take(i as int),
        decreases ts@.len() - i,
    {
        let q = ts[i].build_query();
        let ghost before = out@;
        out.push(q);
        assert(strings_view(out@) =~= strings_view(before).push(q@));
        assert(spotify_queries(ts@).take(i + 1) =~= spotify_queries(ts@).take(i as int).push(
            spotify_query(ts@[i as int]),
        ));
        i = i + 1;
    }
    assert(spotify_queries(ts@).take(ts@.len() as int) =~= spotify_queries(ts@));
    out
}

fn clone_opt_string(o: &Option<String>) -> (r: Option<String>)
    ensures
        opt_string_view(r) == opt_string_view(*o),
{
    match o {
        Some(s) => Some(s.clone()),
        None => None,
    }
}

impl QueryType {
    /// The text the query searches for, before any suffix.
    pub fn build_query_base(&self) -> (r: Option<String>)
        ensures
            opt_string_view(r) == query_base(*self),
    {
        match self {
            QueryType::Keywords(k) => Some(k.clone()),
            QueryType::KeywordList(l) => Some(join_strings(l, " ")),
            QueryType::VideoLink(u) => Some(u.clone()),
            QueryType::SpotifyTracks(ts) => {
                let qs = spotify_query_strings(ts);
                Some(join_strings(&qs, " "))
            },
            QueryType::PlaylistLink(u) => Some(u.clone()),
            QueryType::File(u) => Some(u.clone()),
            QueryType::NewYoutubeDl(m) => clone_opt_string(&m.source_url),
            QueryType::YoutubeSearch(q) => Some(q.clone()),
            QueryType::NoQuery => None,
        }
    }

    /// The search text for the query: its base and the search suffix that
    /// prefers a song's "topic" upload.
    pub fn build_query(&self) -> (r: Option<String>)
        ensures
            opt_string_view(r) == suffixed(query_base(*self), MUSIC_SEARCH_SUFFIX@),
    {
        match self.build_query_base() {
            Some(b) => {
                let mut q = b;
                q.append(" ");
                q.append(MUSIC_SEARCH_SUFFIX);
                Some(q)
            },
            None => None,
        }
    }

    /// The search text for an explicit version of `query`.
    pub fn build_query_explicit(&self, query: Option<String>) -> (r: Option<String>)
        ensures
            opt_string_view(r) == suffixed(opt_string_view(query), "explicit"@),
    {
        match query {
            Some(x) => {
                let mut q = x;
                q.append(" ");
                q.append("explicit");
                Some(q)
            },
            None => None,
        }
    }
}

/// Where downloads are saved.
pub const DOWNLOAD_DIR: &'static str = "/data/downloads";

/// The extension of a download: mp3 audio, or webm as fetched.
pub open spec fn extension(mp3: bool) -> Seq<char> {
    if mp3 {
        "mp3"@
    } else {
        "webm"@
    }
}

/// The id a download is named by: what follows the last `=` of the URL it
/// came from (the whole URL when it has none).
pub open spec fn download_id(url: Seq<char>) -> Seq<char> {
    split_on(url, '=').last()
}

/// Where a download is saved: `/data/downloads/<title> [<id>].<extension>`.
pub open spec fn download_file_name_of(title: Seq<char>, url: Seq<char>, mp3: bool) -> Seq<char> {
    DOWNLOAD_DIR@ + "/"@ + title + " ["@ + download_id(url) + "]."@ + extension(mp3)
}

/// Where a download of `url`, titled `title`, is saved.
pub fn download_file_name(title: &str, url: &str, mp3: bool) -> (r: String)
    ensures
        r@ == download_file_name_of(title@, url@, mp3),
{
    let pieces = split_chars(&chars_of(url), '=');
    proof {
        crate::text::lemma_split_on_nonempty(url@, '=');
        assert(views_of(pieces@).last() == pieces@.last()@);
    }
    let id = string_of(&pieces[pieces.len() - 1]);
    let mut r = String::from_str(DOWNLOAD_DIR);
    r.append("/");
    r.append(title);
    r.append(" [");
    r.append(id.as_str());
    r.append("].");
    if mp3 {
        r.append("mp3");
    } else {
        r.append("webm");
    }
    proof {
        assert(r@ =~= download_file_name_of(title@, url@, mp3));
    }
    r
}

/// Whether a download extracts mp3 audio: when asked to, and always for a
/// YouTube link.
pub open spec fn extracts_audio(url: Seq<char>, mp3: bool) -> bool {
    mp3 || has_infix(url, "youtube.com"@)
}

/// Whether downloading `url` extracts mp3 audio.
pub fn extracts_mp3(url: &str, mp3: bool) -> (r: bool)
    ensures
        r == extracts_audio(url@, mp3),
{
    mp3 || contains_chars(&chars_of(url), &chars_of("youtube.com"))
}

/// How a download is named.
#[derive(Debug, Clone, Copy, PartialEq, Eq, Structural)]
pub enum NamedBy {
    /// By the source URL the download reports.
    ReportedUrl,
    /// By the URL that was downloaded.
    DownloadedUrl,
}

/// What downloading a query takes.
#[derive(Debug, Clone)]
pub enum DownloadPlan {
    /// Downloading this query is refused, for this reason.
    Refused(String),
    /// The file is already at this URL; there is nothing to download.
    Ready(String),
    /// Download `url`; name the file by the title the download reports and
    /// by `named_by`.
    Download { url: String, named_by: NamedBy },
    /// Search for `search` first. With `download_found`, download what the
    /// search found and name it by the download's title and the found URL;
    /// without, download `search` itself and name it by the search's title
    /// and `search`.
    Search { search: String, download_found: bool },
    /// Download `url` and save it as `file_name`, known up front.
    Named { url: String, file_name: String },
}

/// The plan for downloading `q`, as audio when `mp3`.
pub open spec fn download_plan_of(q: QueryType, mp3: bool) -> DownloadPlanView {
    match q {
        QueryType::YoutubeSearch(_) => DownloadPlanView::Refused(
            "Download not valid with search results."@,
        ),
        QueryType::NoQuery => DownloadPlanView::Refused("No query provided!"@),
        QueryType::File(u) => DownloadPlanView::Ready(u@),
        QueryType::VideoLink(u) => DownloadPlanView::Download { url: u@, named_by: NamedBy::ReportedUrl },
        QueryType::PlaylistLink(u) => DownloadPlanView::Download { url: u@, named_by: NamedBy::DownloadedUrl },
        QueryType::Keywords(k) => DownloadPlanView::Search { search: "ytsearch:"@ + k@, download_found: true },
        QueryType::SpotifyTracks(ts) => DownloadPlanView::Search {
            search: "ytsearch:"@ + spotify_query(ts@[0]),
            download_found: false,
        },
        QueryType::KeywordList(l) => DownloadPlanView::Search {
            search: "ytsearch:"@ + join(strings_view(l@), " "@),
            download_found: false,
        },
        QueryType::NewYoutubeDl(m) => DownloadPlanView::Named {
            url: m.source_url->0@,
            file_name: download_file_name_of(m.title->0@, m.source_url->0@, mp3),
        },
    }
}

/// A download plan, its texts taken by their characters.
pub enum DownloadPlanView {
    Refused(Seq<char>),
    Ready(Seq<char>),
    Download { url: Seq<char>, named_by: NamedBy },
    Search { search: Seq<char>, download_found: bool },
    Named { url: Seq<char>, file_name: Seq<char> },
}

impl View for DownloadPlan {
    type V = DownloadPlanView;

    open spec fn view(&self) -> DownloadPlanView {
        match self {
            DownloadPlan::Refused(m) => DownloadPlanView::Refused(m@),
            DownloadPlan::Ready(u) => DownloadPlanView::Ready(u@),
            DownloadPlan::Download { url, named_by } => DownloadPlanView::Download {
                url: url@,
                named_by: *named_by,
            },
            DownloadPlan::Search { search, download_found } => DownloadPlanView::Search {
                search: search@,
                download_found: *download_found,
            },
            DownloadPlan::Named { url, file_name } => DownloadPlanView::Named {
                url: url@,
                file_name: file_name@,
            },
        }
    }
}

/// Whether a query can be planned for: a Spotify query needs a track, and a
/// resolved track needs its title and source URL.
pub open spec fn plannable(q: QueryType) -> bool {
    match q {
        QueryType::SpotifyTracks(ts) => ts@.len() > 0,
        QueryType::NewYoutubeDl(m) => m.title is Some && m.source_url is Some,
        _ => true,
    }
}

fn prefixed(prefix: &str, rest: &str) -> (r: String)
    ensures
        r@ == prefix@ + rest@,
{
    let mut s = String::from_str(prefix);
    s.append(rest);
    s
}

impl QueryType {
    /// How to download this query, as audio when `mp3`.
    pub fn download_plan(&self, mp3: bool) -> (r: DownloadPlan)
        requires
            plannable(*self),
        ensures
            r@ == download_plan_of(*self, mp3),
    {
        match self {
            QueryType::YoutubeSearch(_) => DownloadPlan::Refused(
                String::from_str("Download not valid with search results."),
            ),
            QueryType::NoQuery => DownloadPlan::Refused(String::from_str("No query provided!")),
            QueryType::File(u) => DownloadPlan::Ready(u.clone()),
            QueryType::VideoLink(u) => DownloadPlan::Download {
                url: u.clone(),
                named_by: NamedBy::ReportedUrl,
            },
            QueryType::PlaylistLink(u) => DownloadPlan::Download {
                url: u.clone(),
                named_by: NamedBy::DownloadedUrl,
            },
            QueryType::Keywords(k) => DownloadPlan::Search {
                search: prefixed("ytsearch:", k.as_str()),
                download_found: true,
            },
            QueryType::SpotifyTracks(ts) => {
                let q = ts[0].build_query();
                DownloadPlan::Search { search: prefixed("ytsearch:", q.as_str()), download_found: false }
            },
            QueryType::KeywordList(l) => {
                let words = join_strings(l, " ");
                DownloadPlan::Search {
                    search: prefixed("ytsearch:", words.as_str()),
                    download_found: false,
                }
            },
            QueryType::NewYoutubeDl(m) => {
                let url = match &m.source_url {
                    Some(u) => u.clone(),
                    None => String::new(),
                };
                let title = match &m.title {
                    Some(t) => t.clone(),
                    None => String::new(),
                };
                let file_name = download_file_name(title.as_str(), url.as_str(), mp3);
                DownloadPlan::Named { url, file_name }
            },
        }
    }
}


/// The most playlist results a playlist link is searched for.
pub const PLAYLIST_SEARCH_LIMIT: u64 = 30;

/// How many results a YouTube search for metadata asks for.
pub const METADATA_SEARCH_LIMIT: u64 = 5;

/// What finding a query's audio takes.
#[derive(Debug, Clone)]
pub enum SourcePlan {
    /// yt-dlp searching for the query.
    YtdlSearch(String),
    /// yt-dlp on this URL, or on this yt-dlp search.
    Ytdl(String),
    /// A YouTube search for the query, with yt-dlp behind it.
    Search(String),
    /// The file at this URL, fetched over HTTP.
    Http(String),
    /// The audio yt-dlp already resolved for the query.
    Resolved,
    /// A YouTube playlist search for the link, for at most `limit` results.
    Playlist { url: String, limit: u64 },
}

/// A source plan, its texts taken by their characters.
pub enum SourcePlanView {
    YtdlSearch(Seq<char>),
    Ytdl(Seq<char>),
    Search(Seq<char>),
    Http(Seq<char>),
    Resolved,
    Playlist { url: Seq<char>, limit: u64 },
}

impl View for SourcePlan {
    type V = SourcePlanView;

    open spec fn view(&self) -> SourcePlanView {
        match self {
            SourcePlan::YtdlSearch(q) => SourcePlanView::YtdlSearch(q@),
            SourcePlan::Ytdl(u) => SourcePlanView::Ytdl(u@),
            SourcePlan::Search(q) => SourcePlanView::Search(q@),
            SourcePlan::Http(u) => SourcePlanView::Http(u@),
            SourcePlan::Resolved => SourcePlanView::Resolved,
            SourcePlan::Playlist { url, limit } => SourcePlanView::Playlist { url: url@, limit: *limit },
        }
    }
}

/// How the audio and the metadata of a query are found together: a search
/// query is searched with yt-dlp, a video link and several searches' words
/// go to yt-dlp, plain words to a YouTube search, a file is fetched over
/// HTTP, a playlist link is searched as a playlist, and Spotify tracks are
/// searched for by their first track's query.
pub open spec fn source_and_metadata_plan_of(q: QueryType) -> SourcePlanView {
    match q {
        QueryType::YoutubeSearch(x) => SourcePlanView::YtdlSearch(x@),
        QueryType::VideoLink(u) => SourcePlanView::Ytdl(u@),
        QueryType::Keywords(k) => SourcePlanView::Search(k@),
        QueryType::File(u) => SourcePlanView::Http(u@),
        QueryType::NewYoutubeDl(_) => SourcePlanView::Resolved,
        QueryType::PlaylistLink(u) => SourcePlanView::Playlist { url: u@, limit: PLAYLIST_SEARCH_LIMIT },
        QueryType::SpotifyTracks(ts) => SourcePlanView::Ytdl("ytsearch:"@ + spotify_query(ts@[0])),
        QueryType::KeywordList(l) => SourcePlanView::Ytdl("ytsearch:"@ + join(strings_view(l@), " "@)),
        QueryType::NoQuery => SourcePlanView::Resolved,
    }
}

/// How only the audio of a query is found: as with its metadata, except that
/// plain words go straight to yt-dlp. Playlists, Spotify tracks and several
/// searches have no single source.
pub open spec fn source_plan_of(q: QueryType) -> SourcePlanView {
    match q {
        QueryType::YoutubeSearch(x) => SourcePlanView::YtdlSearch(x@),
        QueryType::VideoLink(u) => SourcePlanView::Ytdl(u@),
        QueryType::Keywords(k) => SourcePlanView::Ytdl(k@),
        QueryType::File(u) => SourcePlanView::Http(u@),
        _ => SourcePlanView::Resolved,
    }
}

/// Whether a query has a single source of audio.
pub open spec fn has_single_source(q: QueryType) -> bool {
    q is YoutubeSearch || q is VideoLink || q is Keywords || q is File || q is NewYoutubeDl
}

/// What finding a query's metadata takes.
#[derive(Debug, Clone)]
pub enum MetadataPlan {
    /// A YouTube search for `query`, for at most `limit` results, of
    /// playlists when `playlists`.
    SearchMany { query: String, limit: u64, playlists: bool },
    /// The video's own information.
    VideoInfo(String),
    /// The first result of a YouTube search; none is an error.
    SearchOne(String),
    /// One blank entry: a file says nothing of itself.
    Blank,
    /// No entries.
    NoMetadata,
    /// The first result of a search for each query, in order; with
    /// `skip_misses`, a query that finds nothing or fails is left out,
    /// without, a failure is an error.
    SearchEach { queries: Vec<String>, skip_misses: bool },
}

/// A metadata plan, its texts taken by their characters.
pub enum MetadataPlanView {
    SearchMany { query: Seq<char>, limit: u64, playlists: bool },
    VideoInfo(Seq<char>),
    SearchOne(Seq<char>),
    Blank,
    NoMetadata,
    SearchEach { queries: Seq<Seq<char>>, skip_misses: bool },
}

impl View for MetadataPlan {
    type V = MetadataPlanView;

    open spec fn view(&self) -> MetadataPlanView {
        match self {
            MetadataPlan::SearchMany { query, limit, playlists } => MetadataPlanView::SearchMany {
                query: query@,
                limit: *limit,
                playlists: *playlists,
            },
            MetadataPlan::VideoInfo(u) => MetadataPlanView::VideoInfo(u@),
            MetadataPlan::SearchOne(q) => MetadataPlanView::SearchOne(q@),
            MetadataPlan::Blank => MetadataPlanView::Blank,
            MetadataPlan::NoMetadata => MetadataPlanView::NoMetadata,
            MetadataPlan::SearchEach { queries, skip_misses } => MetadataPlanView::SearchEach {
                queries: strings_view(queries@),
                skip_misses: *skip_misses,
            },
        }
    }
}

/// How the metadata of a query is found.
pub open spec fn metadata_plan_of(q: QueryType) -> MetadataPlanView {
    match q {
        QueryType::YoutubeSearch(x) => MetadataPlanView::SearchMany {
            query: x@,
            limit: METADATA_SEARCH_LIMIT,
            playlists: false,
        },
        QueryType::VideoLink(u) => MetadataPlanView::VideoInfo(u@),
        QueryType::Keywords(k) => MetadataPlanView::SearchOne(k@),
        QueryType::File(_) => MetadataPlanView::Blank,
        QueryType::NewYoutubeDl(_) => MetadataPlanView::NoMetadata,
        QueryType::PlaylistLink(u) => MetadataPlanView::SearchMany {
            query: u@,
            limit: PLAYLIST_SEARCH_LIMIT,
            playlists: true,
        },
        QueryType::SpotifyTracks(ts) => MetadataPlanView::SearchEach {
            queries: spotify_queries(ts@),
            skip_misses: true,
        },
        QueryType::KeywordList(l) => MetadataPlanView::SearchEach {
            queries: strings_view(l@),
            skip_misses: false,
        },
        QueryType::NoQuery => MetadataPlanView::NoMetadata,
    }
}

fn clone_strings(v: &Vec<String>) -> (r: Vec<String>)
    ensures
        strings_view(r@) == strings_view(v@),
{
    let mut out: Vec<String> = Vec::new();
    let mut i: usize = 0;
    while i < v.len()
        invariant
            i <= v@.len(),
            strings_view(out@) == strings_view(v@).take(i as int),
        decreases v@.len() - i,
    {
        let s = v[i].clone();
        let ghost before = out@;
        out.push(s);
        assert(strings_view(out@) =~= strings_view(before).push(s@));
        assert(strings_view(v@).take(i + 1) =~= strings_view(v@).take(i as int).push(v@[i as int]@));
        i = i + 1;
    }
    assert(strings_view(v@).take(v@.len() as int) =~= strings_view(v@));
    out
}

impl QueryType {
    /// How to find this query's audio and metadata together.
    pub fn source_and_metadata_plan(&self) -> (r: SourcePlan)
        requires
            !(self is NoQuery),
            plannable(*self),
        ensures
            r@ == source_and_metadata_plan_of(*self),
    {
        match self {
            QueryType::YoutubeSearch(x) => SourcePlan::YtdlSearch(x.clone()),
            QueryType::VideoLink(u) => SourcePlan::Ytdl(u.clone()),
            QueryType::Keywords(k) => SourcePlan::Search(k.clone()),
            QueryType::File(u) => SourcePlan::Http(u.clone()),
            QueryType::NewYoutubeDl(_) => SourcePlan::Resolved,
            QueryType::PlaylistLink(u) => SourcePlan::Playlist {
                url: u.clone(),
                limit: PLAYLIST_SEARCH_LIMIT,
            },
            QueryType::SpotifyTracks(ts) => {
                let q = ts[0].build_query();
                SourcePlan::Ytdl(prefixed("ytsearch:", q.as_str()))
            },
            QueryType::KeywordList(l) => {
                let words = join_strings(l, " ");
                SourcePlan::Ytdl(prefixed("ytsearch:", words.as_str()))
            },
            QueryType::NoQuery => SourcePlan::Resolved,
        }
    }

    /// How to find only this query's audio.
    pub fn source_plan(&self) -> (r: SourcePlan)
        requires
            has_single_source(*self),
        ensures
            r@ == source_plan_of(*self),
    {
        match self {
            QueryType::YoutubeSearch(x) => SourcePlan::YtdlSearch(x.clone()),
            QueryType::VideoLink(u) => SourcePlan::Ytdl(u.clone()),
            QueryType::Keywords(k) => SourcePlan::Ytdl(k.clone()),
            QueryType::File(u) => SourcePlan::Http(u.clone()),
            _ => SourcePlan::Resolved,
        }
    }

    /// How to find this query's metadata.
    pub fn metadata_plan(&self) -> (r: MetadataPlan)
        requires
            !(self is NoQuery),
        ensures
            r@ == metadata_plan_of(*self),
    {
        match self {
            QueryType::YoutubeSearch(x) => MetadataPlan::SearchMany {
                query: x.clone(),
                limit: METADATA_SEARCH_LIMIT,
                playlists: false,
            },
            QueryType::VideoLink(u) => MetadataPlan::VideoInfo(u.clone()),
            QueryType::Keywords(k) => MetadataPlan::SearchOne(k.clone()),
            QueryType::File(_) => MetadataPlan::Blank,
            QueryType::NewYoutubeDl(_) => MetadataPlan::NoMetadata,
            QueryType::PlaylistLink(u) => MetadataPlan::SearchMany {
                query: u.clone(),
                limit: PLAYLIST_SEARCH_LIMIT,
                playlists: true,
            },
            QueryType::SpotifyTracks(ts) => MetadataPlan::SearchEach {
                queries: spotify_query_strings(ts),
                skip_misses: true,
            },
            QueryType::KeywordList(l) => MetadataPlan::SearchEach {
                queries: clone_strings(l),
                skip_misses: false,
            },
            QueryType::NoQuery => MetadataPlan::NoMetadata,
        }
    }
}

/// What a play mode does with a query.
#[derive(Debug, Clone)]
pub enum ModePlan {
    /// Show the results of a YouTube search for the words and let the user
    /// pick.
    ShowSearchResults(String),
    /// Queue the query itself at the back.
    QueueBack,
    /// Queue the query itself right after the track playing.
    QueueFront,
    /// Queue a search for each of these words at the back, in order.
    QueueKeywordsBack(Vec<String>),
    /// Queue a search for each of these words from `offset` on, in order.
    QueueKeywordsAt { words: Vec<String>, offset: usize },
    /// Queue each video of the playlist at the back, in order.
    QueuePlaylistBack(String),
    /// Queue each video of the playlist from `offset` on, in order.
    QueuePlaylistAt { url: String, offset: usize },
    /// Let yt-dlp resolve the link, and queue what it resolves to at the back.
    ResolveThenQueueBack(String),
    /// Search YouTube for the words, let the user pick, and queue the pick.
    PickFromSearch(String),
    /// Say that no query was given.
    SayNoQuery,
    /// Say that the mode cannot play this query.
    SayPlayAllFailed,
    /// Say that the search could not be made.
    SaySearchFailed,
    /// Refuse: this mode does not handle this query yet.
    NotImplemented,
    /// Do nothing.
    Nothing,
}

/// A mode plan, its texts taken by their characters.
pub enum ModePlanView {
    ShowSearchResults(Seq<char>),
    QueueBack,
    QueueFront,
    QueueKeywordsBack(Seq<Seq<char>>),
    QueueKeywordsAt { words: Seq<Seq<char>>, offset: usize },
    QueuePlaylistBack(Seq<char>),
    QueuePlaylistAt { url: Seq<char>, offset: usize },
    ResolveThenQueueBack(Seq<char>),
    PickFromSearch(Seq<char>),
    SayNoQuery,
    SayPlayAllFailed,
    SaySearchFailed,
    NotImplemented,
    Nothing,
}

impl View for ModePlan {
    type V = ModePlanView;

    open spec fn view(&self) -> ModePlanView {
        match self {
            ModePlan::ShowSearchResults(q) => ModePlanView::ShowSearchResults(q@),
            ModePlan::QueueBack => ModePlanView::QueueBack,
            ModePlan::QueueFront => ModePlanView::QueueFront,
            ModePlan::QueueKeywordsBack(w) => ModePlanView::QueueKeywordsBack(strings_view(w@)),
            ModePlan::QueueKeywordsAt { words, offset } => ModePlanView::QueueKeywordsAt {
                words: strings_view(words@),
                offset: *offset,
            },
            ModePlan::QueuePlaylistBack(u) => ModePlanView::QueuePlaylistBack(u@),
            ModePlan::QueuePlaylistAt { url, offset } => ModePlanView::QueuePlaylistAt {
                url: url@,
                offset: *offset,
            },
            ModePlan::ResolveThenQueueBack(u) => ModePlanView::ResolveThenQueueBack(u@),
            ModePlan::PickFromSearch(q) => ModePlanView::PickFromSearch(q@),
            ModePlan::SayNoQuery => ModePlanView::SayNoQuery,
            ModePlan::SayPlayAllFailed => ModePlanView::SayPlayAllFailed,
            ModePlan::SaySearchFailed => ModePlanView::SaySearchFailed,
            ModePlan::NotImplemented => ModePlanView::NotImplemented,
            ModePlan::Nothing => ModePlanView::Nothing,
        }
    }
}

/// Queueing at the end: a search is shown for picking, a single track is
/// queued, a playlist's videos and several searches are queued one by one.
pub open spec fn end_plan_of(q: QueryType) -> ModePlanView {
    match q {
        QueryType::YoutubeSearch(x) => ModePlanView::ShowSearchResults(x@),
        QueryType::Keywords(_) => ModePlanView::QueueBack,
        QueryType::VideoLink(_) => ModePlanView::QueueBack,
        QueryType::NewYoutubeDl(_) => ModePlanView::QueueBack,
        QueryType::File(_) => ModePlanView::QueueBack,
        QueryType::PlaylistLink(u) => ModePlanView::QueuePlaylistBack(u@),
        QueryType::SpotifyTracks(ts) => ModePlanView::QueueKeywordsBack(spotify_queries(ts@)),
        QueryType::KeywordList(l) => ModePlanView::QueueKeywordsBack(strings_view(l@)),
        QueryType::NoQuery => ModePlanView::SayNoQuery,
    }
}

/// The queue position right after the track playing.
pub const NEXT_OFFSET: usize = 1;

/// Queueing next: a single track goes right after the track playing, and a
/// playlist or several searches go there in order; a search to pick from is
/// not handled.
pub open spec fn next_plan_of(q: QueryType) -> ModePlanView {
    match q {
        QueryType::Keywords(_) => ModePlanView::QueueFront,
        QueryType::VideoLink(_) => ModePlanView::QueueFront,
        QueryType::File(_) => ModePlanView::QueueFront,
        QueryType::NewYoutubeDl(_) => ModePlanView::QueueFront,
        QueryType::PlaylistLink(u) => ModePlanView::QueuePlaylistAt { url: u@, offset: NEXT_OFFSET },
        QueryType::KeywordList(l) => ModePlanView::QueueKeywordsAt { words: strings_view(l@), offset: NEXT_OFFSET },
        QueryType::SpotifyTracks(ts) => ModePlanView::QueueKeywordsAt {
            words: spotify_queries(ts@),
            offset: NEXT_OFFSET,
        },
        QueryType::YoutubeSearch(_) => ModePlanView::NotImplemented,
        QueryType::NoQuery => ModePlanView::Nothing,
    }
}

/// Queueing "all the rest": a link is resolved by yt-dlp and queued, several
/// searches are queued one by one; anything else cannot be played this way.
pub open spec fn rest_plan_of(q: QueryType) -> ModePlanView {
    match q {
        QueryType::VideoLink(u) => ModePlanView::ResolveThenQueueBack(u@),
        QueryType::PlaylistLink(u) => ModePlanView::ResolveThenQueueBack(u@),
        QueryType::KeywordList(l) => ModePlanView::QueueKeywordsBack(strings_view(l@)),
        QueryType::SpotifyTracks(ts) => ModePlanView::QueueKeywordsBack(spotify_queries(ts@)),
        _ => ModePlanView::SayPlayAllFailed,
    }
}

/// Search mode: words, Spotify tracks' queries joined, or a search query are
/// searched for and picked from; anything else cannot be searched.
pub open spec fn search_plan_of(q: QueryType) -> ModePlanView {
    match q {
        QueryType::Keywords(k) => ModePlanView::PickFromSearch(k@),
        QueryType::SpotifyTracks(ts) => ModePlanView::PickFromSearch(join(spotify_queries(ts@), " "@)),
        QueryType::YoutubeSearch(x) => ModePlanView::PickFromSearch(x@),
        _ => ModePlanView::SaySearchFailed,
    }
}

impl QueryType {
    /// What queueing this query at the end does.
    pub fn end_plan(&self) -> (r: ModePlan)
        ensures
            r@ == end_plan_of(*self),
    {
        match self {
            QueryType::YoutubeSearch(x) => ModePlan::ShowSearchResults(x.clone()),
            QueryType::Keywords(_) => ModePlan::QueueBack,
            QueryType::VideoLink(_) => ModePlan::QueueBack,
            QueryType::NewYoutubeDl(_) => ModePlan::QueueBack,
            QueryType::File(_) => ModePlan::QueueBack,
            QueryType::PlaylistLink(u) => ModePlan::QueuePlaylistBack(u.clone()),
            QueryType::SpotifyTracks(ts) => ModePlan::QueueKeywordsBack(spotify_query_strings(ts)),
            QueryType::KeywordList(l) => ModePlan::QueueKeywordsBack(clone_strings(l)),
            QueryType::NoQuery => ModePlan::SayNoQuery,
        }
    }

    /// What queueing this query next does.
    pub fn next_plan(&self) -> (r: ModePlan)
        ensures
            r@ == next_plan_of(*self),
    {
        match self {
            QueryType::Keywords(_) => ModePlan::QueueFront,
            QueryType::VideoLink(_) => ModePlan::QueueFront,
            QueryType::File(_) => ModePlan::QueueFront,
            QueryType::NewYoutubeDl(_) => ModePlan::QueueFront,
            QueryType::PlaylistLink(u) => ModePlan::QueuePlaylistAt { url: u.clone(), offset: NEXT_OFFSET },
            QueryType::KeywordList(l) => ModePlan::QueueKeywordsAt { words: clone_strings(l), offset: NEXT_OFFSET },
            QueryType::SpotifyTracks(ts) => ModePlan::QueueKeywordsAt {
                words: spotify_query_strings(ts),
                offset: NEXT_OFFSET,
            },
            QueryType::YoutubeSearch(_) => ModePlan::NotImplemented,
            QueryType::NoQuery => ModePlan::Nothing,
        }
    }

    /// What queueing "all the rest" of this query does.
    pub fn rest_plan(&self) -> (r: ModePlan)
        ensures
            r@ == rest_plan_of(*self),
    {
        match self {
            QueryType::VideoLink(u) => ModePlan::ResolveThenQueueBack(u.clone()),
            QueryType::PlaylistLink(u) => ModePlan::ResolveThenQueueBack(u.clone()),
            QueryType::KeywordList(l) => ModePlan::QueueKeywordsBack(clone_strings(l)),
            QueryType::SpotifyTracks(ts) => ModePlan::QueueKeywordsBack(spotify_query_strings(ts)),
            _ => ModePlan::SayPlayAllFailed,
        }
    }

    /// What searching for this query does.
    pub fn search_plan(&self) -> (r: ModePlan)
        ensures
            r@ == search_plan_of(*self),
    {
        match self {
            QueryType::Keywords(k) => ModePlan::PickFromSearch(k.clone()),
            QueryType::SpotifyTracks(ts) => {
                let qs = spotify_query_strings(ts);
                ModePlan::PickFromSearch(join_strings(&qs, " "))
            },
            QueryType::YoutubeSearch(x) => ModePlan::PickFromSearch(x.clone()),
            _ => ModePlan::SaySearchFailed,
        }
    }
}


/// A list of play queries, in the order they are queued.
#[derive(Debug, Clone)]
pub struct Queries {
    queries: Vec<QueryType>,
}

impl View for Queries {
    type V = Seq<QueryType>;

    closed spec fn view(&self) -> Seq<QueryType> {
        self.queries@
    }
}

/// Whether query `q` searches for exactly the words `words`.
pub open spec fn is_keywords(q: QueryType, words: Seq<char>) -> bool {
    q matches QueryType::Keywords(k) && k@ == words
}

impl Queries {
    /// Wraps a list of queries.
    pub fn new(queries: Vec<QueryType>) -> (r: Queries)
        ensures
            r@ == queries@,
    {
        Queries { queries }
    }

    /// Whether there are no queries.
    pub fn is_empty(&self) -> (r: bool)
        ensures
            r == (self@.len() == 0),
    {
        self.queries.len() == 0
    }

    /// How many queries there are.
    pub fn len(&self) -> (r: usize)
        ensures
            r == self@.len(),
    {
        self.queries.len()
    }

    /// The queries, in order.
    pub fn iter(&self) -> (r: std::slice::Iter<'_, QueryType>)
        ensures
            r.remaining() == self@.as_ref(),
    {
        broadcast use vstd::std_specs::slice::group_slice_axioms;

        self.queries.as_slice().iter()
    }

    /// The queries as a list.
    pub fn to_vec(self) -> (r: Vec<QueryType>)
        ensures
            r@ == self@,
    {
        self.queries
    }

    /// One search per entry, for the words of each.
    pub fn from_keywords(v: Vec<String>) -> (r: Queries)
        ensures
            r@.len() == v@.len(),
            forall|i: int| 0 <= i < v@.len() ==> is_keywords(#[trigger] r@[i], v@[i]@),
    {
        let ghost orig = v@;
        let mut rest = v;
        let mut out: Vec<QueryType> = Vec::new();
        while rest.len() > 0
            invariant
                rest@.len() <= orig.len(),
                rest@ == orig.skip(orig.len() - rest@.len()),
                out@.len() == orig.len() - rest@.len(),
                forall|i: int| 0 <= i < out@.len() ==> is_keywords(#[trigger] out@[i], orig[i]@),
            decreases rest@.len(),
        {
            let ghost done = out@.len();
            let w = rest.remove(0);
            out.push(QueryType::Keywords(w));
            proof {
                assert(rest@ =~= orig.skip(orig.len() - rest@.len()));
                assert(is_keywords(out@[done as int], orig[done as int]@));
            }
        }
        Queries { queries: out }
    }

    /// One search per Spotify track, for its title and artists.
    pub fn from_spotify_tracks(v: &Vec<SpotifyTrack>) -> (r: Queries)
        ensures
            r@.len() == v@.len(),
            forall|i: int| 0 <= i < v@.len() ==> is_keywords(#[trigger] r@[i], spotify_query(v@[i])),
    {
        let mut out: Vec<QueryType> = Vec::new();
        let mut i: usize = 0;
        while i < v.len()
            invariant
                i <= v@.len(),
                out@.len() == i,
                forall|j: int| 0 <= j < i ==> is_keywords(#[trigger] out@[j], spotify_query(v@[j])),
            decreases v@.len() - i,
        {
            out.push(QueryType::Keywords(v[i].build_query()));
            i = i + 1;
        }
        Queries { queries: out }
    }
}


/// A query that stands for a single track: words, a video link, a file or a
/// track yt-dlp resolved.
pub open spec fn is_single_track(q: QueryType) -> bool {
    q is Keywords || q is VideoLink || q is File || q is NewYoutubeDl
}

/// Under the next mode every single track goes right after the track
/// playing, and under the end mode at the back; lists go in order from the
/// position right after the track playing.
pub proof fn next_puts_a_single_track_right_after_the_one_playing(q: QueryType)
    ensures
        is_single_track(q) ==> next_plan_of(q) == ModePlanView::QueueFront,
        is_single_track(q) ==> end_plan_of(q) == ModePlanView::QueueBack,
        next_plan_of(q) is QueueKeywordsAt ==> next_plan_of(q)->QueueKeywordsAt_offset == 1,
        next_plan_of(q) is QueuePlaylistAt ==> next_plan_of(q)->QueuePlaylistAt_offset == 1,
        next_plan_of(q) is QueueFront ==> is_single_track(q),
{
}


/// Next and end queue a list of the same words, or the same playlist, and
/// differ only in where: right after the track playing or at the back.
pub proof fn next_and_end_queue_the_same_list(q: QueryType)
    ensures
        next_plan_of(q) is QueueKeywordsAt ==> end_plan_of(q) == ModePlanView::QueueKeywordsBack(
            next_plan_of(q)->QueueKeywordsAt_words,
        ),
        next_plan_of(q) is QueuePlaylistAt ==> end_plan_of(q) == ModePlanView::QueuePlaylistBack(
            next_plan_of(q)->QueuePlaylistAt_url,
        ),
        (q is KeywordList || q is SpotifyTracks) ==> next_plan_of(q) is QueueKeywordsAt,
        q is PlaylistLink ==> next_plan_of(q) is QueuePlaylistAt,
{
}

/// Without a query, the end mode says so and the next mode does nothing;
/// neither playing all nor searching can be done.
pub proof fn no_query_is_queued_by_no_mode()
    ensures
        end_plan_of(QueryType::NoQuery) == ModePlanView::SayNoQuery,
        next_plan_of(QueryType::NoQuery) == ModePlanView::Nothing,
        rest_plan_of(QueryType::NoQuery) == ModePlanView::SayPlayAllFailed,
        search_plan_of(QueryType::NoQuery) == ModePlanView::SaySearchFailed,
{
}

/// Searching picks from a search for the words or the search query given;
/// a link, a file or a resolved track cannot be searched for. Playing all
/// resolves a video or playlist link; a single search, file or resolved
/// track cannot be played that way.
pub proof fn search_and_play_all_take_what_they_can(q: QueryType)
    ensures
        q matches QueryType::Keywords(k) ==> search_plan_of(q) == ModePlanView::PickFromSearch(k@),
        q matches QueryType::YoutubeSearch(x) ==> search_plan_of(q) == ModePlanView::PickFromSearch(x@),
        (q is VideoLink || q is PlaylistLink || q is File || q is NewYoutubeDl || q is KeywordList)
            ==> search_plan_of(q) == ModePlanView::SaySearchFailed,
        q matches QueryType::VideoLink(u) ==> rest_plan_of(q) == ModePlanView::ResolveThenQueueBack(u@),
        q matches QueryType::PlaylistLink(u) ==> rest_plan_of(q) == ModePlanView::ResolveThenQueueBack(u@),
        (q is Keywords || q is File || q is NewYoutubeDl || q is YoutubeSearch) ==> rest_plan_of(q)
            == ModePlanView::SayPlayAllFailed,
        q matches QueryType::YoutubeSearch(x) ==> end_plan_of(q) == ModePlanView::ShowSearchResults(x@),
        q is YoutubeSearch ==> next_plan_of(q) == ModePlanView::NotImplemented,
{
}

} // verus!
