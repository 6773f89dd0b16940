//! Spotify links and tracks: reading an entity kind and id out of a link, and
//! turning Spotify tracks into YouTube search queries.
use vstd::prelude::*;
use crate::text::{
    chars_of, join, join_strings, same_chars, seq_starts_with, split_chars, split_on,
    starts_with, string_of, views_of,
};
use crate::urls::{path_segments, path_segments_of, strings_view, url_path, url_path_of};
use crate::errors::CrackedError;
use crate::query_type::QueryType;

verus! {

broadcast use vstd::string::group_string_axioms;

/// Which kind of Spotify entity a link points at.
#[derive(Clone, Copy, PartialEq, Eq, Structural, Debug)]
pub enum MediaType {
    /// A single song.
    Track,
    /// An album: many songs.
    Album,
    /// A playlist: many songs, possibly podcast episodes among them.
    Playlist,
}

/// The entity kind a link names with `word`, if it is one of the three.
pub open spec fn media_type_named(word: Seq<char>) -> Option<MediaType> {
    if word == "track"@ {
        Some(MediaType::Track)
    } else if word == "album"@ {
        Some(MediaType::Album)
    } else if word == "playlist"@ {
        Some(MediaType::Playlist)
    } else {
        None
    }
}

/// The word for an entity kind in a message to a user.
pub open spec fn noun_of(m: MediaType) -> Seq<char> {
    match m {
        MediaType::Track => "track"@,
        MediaType::Album => "album"@,
        MediaType::Playlist => "playlist"@,
    }
}

fn media_type_of_chars(word: &Vec<char>) -> (r: Option<MediaType>)
    ensures
        r == media_type_named(word@),
{
    if same_chars(word, &chars_of("track")) {
        Some(MediaType::Track)
    } else if same_chars(word, &chars_of("album")) {
        Some(MediaType::Album)
    } else if same_chars(word, &chars_of("playlist")) {
        Some(MediaType::Playlist)
    } else {
        None
    }
}

impl MediaType {
    /// The word to use for this entity in a message to a user.
    pub fn noun(self) -> (r: &'static str)
        ensures
            r@ == noun_of(self),
    {
        match self {
            MediaType::Track => "track",
            MediaType::Album => "album",
            MediaType::Playlist => "playlist",
        }
    }

    /// Whether this entity is a collection of songs rather than one song.
    pub fn is_collection(self) -> (r: bool)
        ensures
            r == !(self is Track),
    {
        !matches!(self, MediaType::Track)
    }

    /// The entity kind named by `word`: "track", "album" or "playlist".
    pub fn parse(word: &str) -> (r: Option<MediaType>)
        ensures
            r == media_type_named(word@),
    {
        media_type_of_chars(&chars_of(word))
    }
}

/// A Spotify link broken into the two things a lookup needs.
#[derive(Debug, Clone)]
pub struct ParsedSpotifyUrl {
    media_type: MediaType,
    media_id: String,
}

impl View for ParsedSpotifyUrl {
    type V = (MediaType, Seq<char>);

    closed spec fn view(&self) -> (MediaType, Seq<char>) {
        (self.media_type, self.media_id@)
    }
}

impl ParsedSpotifyUrl {
    /// Which kind of entity the link pointed at.
    pub fn media_type(&self) -> (r: MediaType)
        ensures
            r == self@.0,
    {
        self.media_type
    }

    /// The bare Spotify id.
    pub fn media_id(&self) -> (r: &str)
        ensures
            r@ == self@.1,
    {
        self.media_id.as_str()
    }
}

pub open spec fn parsed_view(r: Option<ParsedSpotifyUrl>) -> Option<(MediaType, Seq<char>)> {
    match r {
        Some(p) => Some(p@),
        None => None,
    }
}

/// The first neighbouring pair of path segments that reads "kind, id": an
/// entity word followed by a non-empty segment. Spotify's web player puts a
/// locale segment first (`/intl-de/track/<id>`), so the pair is searched for.
pub open spec fn entity_in_path(segs: Seq<Seq<char>>) -> Option<(MediaType, Seq<char>)>
    decreases segs.len(),
{
    if segs.len() < 2 {
        None
    } else if media_type_named(segs[0]) is Some && segs[1].len() > 0 {
        Some((media_type_named(segs[0])->0, segs[1]))
    } else {
        entity_in_path(segs.drop_first())
    }
}

/// The desktop client's URI form after its `spotify:` prefix: `kind:id`, with
/// anything after a further `:` ignored.
pub open spec fn entity_in_uri(rest: Seq<char>) -> Option<(MediaType, Seq<char>)> {
    let parts = split_on(rest, ':');
    if parts.len() >= 2 && media_type_named(parts[0]) is Some && parts[1].len() > 0 {
        Some((media_type_named(parts[0])->0, parts[1]))
    } else {
        None
    }
}

/// What a Spotify link names, given the path the URL parser read from it.
pub open spec fn spotify_link(input: Seq<char>) -> Option<(MediaType, Seq<char>)> {
    if starts_with(input, "spotify:"@) {
        entity_in_uri(input.skip("spotify:"@.len() as int))
    } else {
        match url_path_of(input) {
            None => None,
            Some(path) => match path_segments(path) {
                None => None,
                Some(segs) => entity_in_path(segs),
            },
        }
    }
}

fn find_entity(segs: &Vec<String>) -> (r: Option<ParsedSpotifyUrl>)
    ensures
        parsed_view(r) == entity_in_path(strings_view(segs@)),
{
    let ghost all = strings_view(segs@);
    let mut i: usize = 0;
    assert(all.skip(0) =~= all);
    while segs.len() > 1 && i < segs.len() - 1
        invariant
            i <= segs@.len(),
            all == strings_view(segs@),
            entity_in_path(all) == entity_in_path(all.skip(i as int)),
        decreases segs@.len() - i,
    {
        let ghost rest = all.skip(i as int);
        let word = chars_of(segs[i].as_str());
        let kind = media_type_of_chars(&word);
        assert(rest[0] == segs@[i as int]@);
        assert(rest[1] == segs@[i + 1]@);
        if let Some(m) = kind {
            let id = chars_of(segs[i + 1].as_str());
            if id.len() > 0 {
                return Some(ParsedSpotifyUrl { media_type: m, media_id: string_of(&id) });
            }
        }
        assert(rest.drop_first() =~= all.skip(i + 1));
        i = i + 1;
    }
    assert(all.skip(i as int).len() < 2);
    None
}

/// What a Spotify link's URL path names: the entity kind and id of its first
/// "kind, id" pair of segments. This is the part of [`parse_spotify_url`]
/// that follows the URL parser.
pub fn parse_spotify_path(path: &str) -> (r: Option<ParsedSpotifyUrl>)
    ensures
        parsed_view(r) == match path_segments(path@) {
            None => None,
            Some(segs) => entity_in_path(segs),
        },
{
    match path_segments_of(path) {
        None => None,
        Some(segs) => find_entity(&segs),
    }
}

/// Splits a Spotify URL or `spotify:` URI into an entity kind and an id.
/// Anything that is not a recognisable Spotify entity gives `None`, including
/// `spotify.link` shortlinks, which carry no id until followed.
pub fn parse_spotify_url(input: &str) -> (r: Option<ParsedSpotifyUrl>)
    ensures
        parsed_view(r) == spotify_link(input@),
{
    let chars = chars_of(input);
    let prefix = chars_of("spotify:");
    if seq_starts_with(&chars, &prefix) {
        let mut rest: Vec<char> = Vec::new();
        let mut i: usize = prefix.len();
        while i < chars.len()
            invariant
                prefix@.len() <= i <= chars@.len(),
                rest@ == chars@.subrange(prefix@.len() as int, i as int),
            decreases chars@.len() - i,
        {
            rest.push(chars[i]);
            assert(rest@ =~= chars@.subrange(prefix@.len() as int, i + 1));
            i = i + 1;
        }
        assert(rest@ =~= input@.skip("spotify:"@.len() as int));
        let parts = split_chars(&rest, ':');
        proof {
            crate::text::lemma_split_on_nonempty(rest@, ':');
        }
        if parts.len() < 2 {
            return None;
        }
        assert(views_of(parts@)[0] == parts@[0]@);
        assert(views_of(parts@)[1] == parts@[1]@);
        match media_type_of_chars(&parts[0]) {
            None => None,
            Some(m) => {
                if parts[1].len() == 0 {
                    None
                } else {
                    Some(ParsedSpotifyUrl { media_type: m, media_id: string_of(&parts[1]) })
                }
            },
        }
    } else {
        match url_path(input) {
            None => None,
            Some(path) => parse_spotify_path(path.as_str()),
        }
    }
}

/// A track as a Spotify listing gives it: its title, its artists in credit
/// order, and whether it is a podcast episode rather than a song.
#[derive(Debug, Clone)]
pub struct ListedTrack {
    pub name: String,
    pub artists: Vec<String>,
    pub is_episode: bool,
}

/// The YouTube search query for a listed track: the title, then the artists
/// separated by spaces; just the title when no artist is credited.
pub open spec fn listed_query(t: ListedTrack) -> Seq<char> {
    if t.artists@.len() == 0 {
        t.name@
    } else {
        t.name@ + " "@ + join(strings_view(t.artists@), " "@)
    }
}

/// The YouTube search query for one listed track.
pub fn track_query(track: &ListedTrack) -> (r: String)
    ensures
        r@ == listed_query(*track),
{
    if track.artists.len() == 0 {
        track.name.clone()
    } else {
        let artists = join_strings(&track.artists, " ");
        let mut q = track.name.clone();
        q.append(" ");
        q.append(artists.as_str());
        q
    }
}

/// The songs of a listing, in order, without its podcast episodes.
pub open spec fn songs_of(ts: Seq<ListedTrack>) -> Seq<ListedTrack>
    decreases ts.len(),
{
    if ts.len() == 0 {
        Seq::empty()
    } else if ts[0].is_episode {
        songs_of(ts.drop_first())
    } else {
        seq![ts[0]] + songs_of(ts.drop_first())
    }
}

/// Keeps the songs, drops the podcast episodes, and counts what was dropped:
/// searching YouTube for an episode title finds something that is not the
/// episode.
pub fn songs_only(tracks: Vec<ListedTrack>) -> (r: (Vec<ListedTrack>, usize))
    ensures
        r.0@ == songs_of(tracks@),
        r.1 + r.0@.len() == tracks@.len(),
{
    let ghost all = tracks@;
    let mut rest = tracks;
    let mut songs: Vec<ListedTrack> = Vec::new();
    let mut episodes: usize = 0;
    let total = rest.len();
    while rest.len() > 0
        invariant
            all.len() == total,
            songs@ + songs_of(rest@) == songs_of(all),
            episodes + songs@.len() + rest@.len() == all.len(),
        decreases rest@.len(),
    {
        let ghost before = rest@;
        let t = rest.remove(0);
        assert(rest@ =~= before.drop_first());
        if t.is_episode {
            episodes = episodes + 1;
        } else {
            let ghost old_songs = songs@;
            songs.push(t);
            assert(songs@ + songs_of(rest@) =~= old_songs + (seq![before[0]] + songs_of(
                before.drop_first(),
            )));
        }
    }
    assert(songs@ + songs_of(rest@) =~= songs@);
    (songs, episodes)
}

/// The suffix added to a search to prefer a song's "topic" upload.
pub const MUSIC_SEARCH_SUFFIX: &'static str = "\\\"topic\\\"";

/// A Spotify catalogue track: its title, its artists in credit order, its
/// album and its length in whole seconds.
#[derive(Debug, Clone)]
pub struct SpotifyTrack {
    pub name: String,
    pub artists: Vec<String>,
    pub album_name: String,
    pub duration_secs: i64,
}

impl SpotifyTrack {
    /// The artists' names separated by spaces.
    pub fn join_artist_names(&self) -> (r: String)
        ensures
            r@ == join(strings_view(self.artists@), " "@),
    {
        join_strings(&self.artists, " ")
    }

    /// The artists' names separated by commas.
    pub fn artists_str(&self) -> (r: String)
        ensures
            r@ == join(strings_view(self.artists@), ", "@),
    {
        join_strings(&self.artists, ", ")
    }

    /// A search query: the title, then the artists.
    pub fn build_query(&self) -> (r: String)
        ensures
            r@ == self.name@ + " "@ + join(strings_view(self.artists@), " "@),
    {
        let mut q = self.name.clone();
        q.append(" ");
        let a = self.join_artist_names();
        q.append(a.as_str());
        q
    }

    /// A search query that prefers the song's "topic" upload: the title, the
    /// artists and the search suffix.
    pub fn build_query_lyric(&self) -> (r: String)
        ensures
            r@ == self.name@ + " "@ + join(strings_view(self.artists@), " "@) + " "@
                + MUSIC_SEARCH_SUFFIX@,
    {
        let mut q = self.build_query();
        q.append(" ");
        q.append(MUSIC_SEARCH_SUFFIX);
        q
    }
}

/// What is left of the Spotify Web API source: building search queries.
#[derive(Debug, Clone)]
pub struct Spotify {}

impl Spotify {
    /// A search query from the artist names and the track name.
    pub fn build_query(artists: &str, track_name: &str) -> (r: String)
        ensures
            r@ == artists@ + " "@ + track_name@,
    {
        let mut q = String::from_str(artists);
        q.append(" ");
        q.append(track_name);
        q
    }

    /// A search query preferring "topic" uploads, from the artist names and
    /// the track name.
    pub fn build_query_lyric(artists: &str, track_name: &str) -> (r: String)
        ensures
            r@ == artists@ + " "@ + track_name@ + " "@ + MUSIC_SEARCH_SUFFIX@,
    {
        let mut q = Spotify::build_query(artists, track_name);
        q.append(" ");
        q.append(MUSIC_SEARCH_SUFFIX);
        q
    }

    /// The artist names separated by spaces.
    pub fn join_artist_names(artists: &Vec<String>) -> (r: String)
        ensures
            r@ == join(strings_view(artists@), " "@),
    {
        join_strings(artists, " ")
    }
}

/// A catalogue entry credited to artists: an album or a track.
#[derive(Debug, Clone)]
pub struct SpotifyRelease {
    pub name: String,
    pub artists: Vec<String>,
}

/// What a Spotify search found, by kind, best match first.
#[derive(Debug, Clone)]
pub enum SpotifySearchHits {
    Albums(Vec<SpotifyRelease>),
    Artists(Vec<String>),
    Playlists(Vec<String>),
    Tracks(Vec<SpotifyRelease>),
    Shows(Vec<String>),
    Episodes(Vec<String>),
}

/// Whether the search found anything at all.
pub open spec fn hits_nonempty(h: SpotifySearchHits) -> bool {
    match h {
        SpotifySearchHits::Albums(v) => v@.len() > 0,
        SpotifySearchHits::Artists(v) => v@.len() > 0,
        SpotifySearchHits::Playlists(v) => v@.len() > 0,
        SpotifySearchHits::Tracks(v) => v@.len() > 0,
        SpotifySearchHits::Shows(v) => v@.len() > 0,
        SpotifySearchHits::Episodes(v) => v@.len() > 0,
    }
}

/// The words to search YouTube for, from the best match: an album or a
/// track by its artists then its name; anything else by its name.
pub open spec fn search_words(h: SpotifySearchHits) -> Seq<char> {
    match h {
        SpotifySearchHits::Albums(v) => join(strings_view(v@[0].artists@), " "@) + " "@ + v@[0].name@,
        SpotifySearchHits::Tracks(v) => join(strings_view(v@[0].artists@), " "@) + " "@ + v@[0].name@,
        SpotifySearchHits::Artists(v) => v@[0]@,
        SpotifySearchHits::Playlists(v) => v@[0]@,
        SpotifySearchHits::Shows(v) => v@[0]@,
        SpotifySearchHits::Episodes(v) => v@[0]@,
    }
}

impl Spotify {
    /// Turns a search's best match into a YouTube search query.
    pub fn extract_search_results(hits: &SpotifySearchHits) -> (r: Result<QueryType, CrackedError>)
        requires
            hits_nonempty(*hits),
        ensures
            r matches Ok(QueryType::Keywords(k)) && k@ == search_words(*hits),
    {
        let words = match hits {
            SpotifySearchHits::Albums(v) => {
                let artists = Spotify::join_artist_names(&v[0].artists);
                Spotify::build_query(artists.as_str(), v[0].name.as_str())
            },
            SpotifySearchHits::Tracks(v) => {
                let artists = Spotify::join_artist_names(&v[0].artists);
                Spotify::build_query(artists.as_str(), v[0].name.as_str())
            },
            SpotifySearchHits::Artists(v) => v[0].clone(),
            SpotifySearchHits::Playlists(v) => v[0].clone(),
            SpotifySearchHits::Shows(v) => v[0].clone(),
            SpotifySearchHits::Episodes(v) => v[0].clone(),
        };
        Ok(QueryType::Keywords(words))
    }
}

/// A track to try things on: "asdf" by "qwer", from the album "zxcv", one
/// minute long.
pub fn build_fake_spotify_track() -> (t: SpotifyTrack)
    ensures
        t.name@ == "asdf"@,
        strings_view(t.artists@) == seq!["qwer"@],
        t.album_name@ == "zxcv"@,
        t.duration_secs == 60,
{
    let mut artists: Vec<String> = Vec::new();
    artists.push(String::from_str("qwer"));
    proof {
        assert(strings_view(artists@) =~= seq!["qwer"@]);
    }
    SpotifyTrack {
        name: String::from_str("asdf"),
        artists,
        album_name: String::from_str("zxcv"),
        duration_secs: 60,
    }
}

} // verus!

verus! {

proof fn lemma_entity_is_a_segment(segs: Seq<Seq<char>>)
    ensures
        entity_in_path(segs) matches Some((m, id)) ==> exists|k: int| 0 <= k < segs.len() && segs[k] == id
            && id.len() > 0,
    decreases segs.len(),
{
    if segs.len() >= 2 && !(media_type_named(segs[0]) is Some && segs[1].len() > 0) {
        lemma_entity_is_a_segment(segs.drop_first());
        if let Some((m, id)) = entity_in_path(segs) {
            let k = choose|k: int| 0 <= k < segs.drop_first().len() && segs.drop_first()[k] == id
                && id.len() > 0;
            assert(segs[k + 1] == id);
        }
    } else if segs.len() >= 2 {
        assert(segs[1] == segs[1]);
    }
}

/// An id read out of a link's path is one whole path segment: never empty,
/// and never holding a `/`.
pub proof fn a_parsed_id_is_one_path_segment(path: Seq<char>)
    ensures
        path_segments(path) matches Some(segs) ==> (entity_in_path(segs) matches Some((m, id))
            ==> id.len() > 0 && !id.contains('/')),
{
    if let Some(segs) = path_segments(path) {
        crate::text::lemma_split_pieces_lack_sep(path.drop_first(), '/');
        lemma_entity_is_a_segment(segs);
        if let Some((m, id)) = entity_in_path(segs) {
            let k = choose|k: int| 0 <= k < segs.len() && segs[k] == id && id.len() > 0;
            assert(!segs[k].contains('/'));
        }
    }
}

} // verus!

verus! {

/// A Spotify link resolved to the songs it holds.
#[derive(Debug, Clone)]
pub struct SpotifyResolution {
    /// Which kind of entity the link pointed at.
    pub media_type: MediaType,
    /// Display name of the entity.
    pub name: String,
    /// The playable songs, in listing order, podcast episodes removed.
    pub tracks: Vec<ListedTrack>,
    /// Items the lookup itself could not recover.
    pub unresolved: u32,
    /// Podcast episodes dropped from the listing.
    pub episodes_skipped: usize,
}

impl SpotifyResolution {
    /// One YouTube search query per song, in listing order.
    pub fn queries(&self) -> (r: Vec<String>)
        ensures
            strings_view(r@) == self.tracks@.map_values(|t: ListedTrack| listed_query(t)),
    {
        let mut out: Vec<String> = Vec::new();
        let mut i: usize = 0;
        while i < self.tracks.len()
            invariant
                i <= self.tracks@.len(),
                strings_view(out@) == self.tracks@.take(i as int).map_values(
                    |t: ListedTrack| listed_query(t),
                ),
            decreases self.tracks@.len() - i,
        {
            let q = track_query(&self.tracks[i]);
            let ghost before = out@;
            out.push(q);
            proof {
                assert(strings_view(out@) =~= strings_view(before).push(q@));
                assert(self.tracks@.take(i + 1).map_values(|t: ListedTrack| listed_query(t))
                    =~= self.tracks@.take(i as int).map_values(|t: ListedTrack| listed_query(t)).push(
                    listed_query(self.tracks@[i as int]),
                ));
            }
            i = i + 1;
        }
        proof {
            assert(self.tracks@.take(self.tracks@.len() as int) =~= self.tracks@);
        }
        out
    }

    /// How many songs came back.
    pub fn len(&self) -> (r: usize)
        ensures
            r == self.tracks@.len(),
    {
        self.tracks.len()
    }

    /// Whether nothing playable came back.
    pub fn is_empty(&self) -> (r: bool)
        ensures
            r == (self.tracks@.len() == 0),
    {
        self.tracks.len() == 0
    }
}

/// Builds the resolution of a looked-up entity from its listing: the songs
/// kept, the episodes counted. A listing with no song resolves to nothing
/// playable, and gives none.
pub fn resolve_listing(media_type: MediaType, name: String, listing: Vec<ListedTrack>, unresolved: u32) -> (r:
    Option<SpotifyResolution>)
    ensures
        songs_of(listing@).len() == 0 ==> r is None,
        songs_of(listing@).len() > 0 ==> (r matches Some(res) && res.media_type == media_type
            && res.name == name && res.tracks@ == songs_of(listing@) && res.unresolved == unresolved
            && res.episodes_skipped == listing@.len() - songs_of(listing@).len()),
{
    let (tracks, episodes_skipped) = songs_only(listing);
    if tracks.len() == 0 {
        None
    } else {
        Some(SpotifyResolution { media_type, name, tracks, unresolved, episodes_skipped })
    }
}


/// An album hit is searched for just as a track hit with the same name and
/// artists is: the artists' names, a space, then the release's name. The
/// other kinds of hit are searched for by the best match's name alone.
pub proof fn an_album_is_searched_for_as_a_track_is(v: Vec<SpotifyRelease>, names: Vec<String>)
    requires
        v@.len() > 0,
        names@.len() > 0,
    ensures
        search_words(SpotifySearchHits::Albums(v)) == search_words(SpotifySearchHits::Tracks(v)),
        search_words(SpotifySearchHits::Albums(v)).len() > v@[0].name@.len(),
        search_words(SpotifySearchHits::Albums(v)).skip(
            search_words(SpotifySearchHits::Albums(v)).len() - v@[0].name@.len(),
        ) == v@[0].name@,
        search_words(SpotifySearchHits::Albums(v)).take(
            search_words(SpotifySearchHits::Albums(v)).len() - v@[0].name@.len(),
        ) == join(strings_view(v@[0].artists@), " "@) + " "@,
        search_words(SpotifySearchHits::Tracks(v)).skip(
            search_words(SpotifySearchHits::Tracks(v)).len() - v@[0].name@.len(),
        ) == v@[0].name@,
        search_words(SpotifySearchHits::Tracks(v)).take(
            search_words(SpotifySearchHits::Tracks(v)).len() - v@[0].name@.len(),
        ) == join(strings_view(v@[0].artists@), " "@) + " "@,
        search_words(SpotifySearchHits::Artists(names)) == names@[0]@,
        search_words(SpotifySearchHits::Playlists(names)) == names@[0]@,
        search_words(SpotifySearchHits::Shows(names)) == names@[0]@,
        search_words(SpotifySearchHits::Episodes(names)) == names@[0]@,
{
    let a = join(strings_view(v@[0].artists@), " "@) + " "@;
    let w = a + v@[0].name@;
    reveal_strlit(" ");
    assert(a.len() >= 1);
    assert(w.skip(w.len() - v@[0].name@.len()) =~= v@[0].name@);
    assert(w.take(w.len() - v@[0].name@.len()) =~= a);
}

} // verus!
