//! The track model: what a queued song is, where it comes from and who asked
//! for it.
use vstd::prelude::*;
use crate::ids::UserId;
use crate::interface::text_or_empty;
use crate::spotify::MUSIC_SEARCH_SUFFIX;

verus! {

/// What is known about a track before it plays.
#[derive(Clone, Debug)]
pub struct TrackMetadata {
    /// Title of the track.
    pub title: Option<String>,
    /// Name of the song, as a music catalogue lists it.
    pub track: Option<String>,
    /// URL the track is played from.
    pub source_url: Option<String>,
    /// URL of a thumbnail image.
    pub thumbnail: Option<String>,
    /// Length of the track, in milliseconds.
    pub duration: Option<u64>,
    /// Artist of the track.
    pub artist: Option<String>,
    /// Channel or uploader of the track.
    pub channel: Option<String>,
}

impl TrackMetadata {
    /// Metadata that knows nothing.
    pub open spec fn blank() -> TrackMetadata {
        TrackMetadata {
            title: None,
            track: None,
            source_url: None,
            thumbnail: None,
            duration: None,
            artist: None,
            channel: None,
        }
    }
}

impl Default for TrackMetadata {
    fn default() -> (r: Self)
        ensures
            r == TrackMetadata::blank(),
    {
        TrackMetadata {
            title: None,
            track: None,
            source_url: None,
            thumbnail: None,
            duration: None,
            artist: None,
            channel: None,
        }
    }
}

/// A file attached to a message: its name, and the URL it is downloaded
/// from.
#[derive(Clone, Debug)]
pub struct Attachment {
    pub filename: String,
    pub url: String,
}

/// Where a track's audio comes from.
#[derive(Clone, Debug)]
pub enum TrackSource {
    /// A YouTube video link.
    YouTube(String),
    /// A YouTube search query.
    YouTubeSearch(String),
    /// A YouTube playlist link.
    YouTubePlaylist(String),
    /// A Spotify track link.
    Spotify(String),
    /// A Spotify playlist link.
    SpotifyPlaylist(String),
    /// A file attached to a message.
    File(Attachment),
    /// Any other HTTP URL.
    Http(String),
}

/// A track that can be queued.
#[derive(Clone, Debug)]
pub struct Track {
    /// What is known about it.
    pub metadata: TrackMetadata,
    /// Who asked for it; `None` for tracks nobody asked for.
    pub user_id: Option<UserId>,
    /// Where its audio comes from.
    pub source: TrackSource,
}

impl Track {
    /// A track from `source` with no metadata and no requester.
    pub fn new(source: TrackSource) -> (r: Self)
        ensures
            r.metadata == TrackMetadata::blank(),
            r.user_id is None,
            r.source == source,
    {
        Track { metadata: TrackMetadata::default(), user_id: None, source }
    }

    /// The same track, requested by `user_id`.
    pub fn with_user_id(self, user_id: UserId) -> (r: Self)
        ensures
            r.user_id == Some(user_id),
            r.metadata == self.metadata,
            r.source == self.source,
    {
        let mut t = self;
        t.user_id = Some(user_id);
        t
    }

    /// The same track, described by `metadata`.
    pub fn with_metadata(self, metadata: TrackMetadata) -> (r: Self)
        ensures
            r.metadata == metadata,
            r.user_id == self.user_id,
            r.source == self.source,
    {
        let mut t = self;
        t.metadata = metadata;
        t
    }
}

/// Tracks in order.
#[derive(Clone, Debug)]
pub struct TrackCollection {
    pub tracks: Vec<Track>,
}

impl View for TrackCollection {
    type V = Seq<Track>;

    open spec fn view(&self) -> Seq<Track> {
        self.tracks@
    }
}

impl TrackCollection {
    /// An empty collection.
    pub fn new() -> (r: Self)
        ensures
            r@ == Seq::<Track>::empty(),
    {
        TrackCollection { tracks: Vec::new() }
    }

    /// A collection holding `tracks`, in their order.
    pub fn with_tracks(tracks: Vec<Track>) -> (r: Self)
        ensures
            r@ == tracks@,
    {
        TrackCollection { tracks }
    }

    /// Appends `track`.
    pub fn add_track(&mut self, track: Track)
        ensures
            final(self)@ == old(self)@.push(track),
    {
        self.tracks.push(track);
    }

    /// How many tracks there are.
    pub fn len(&self) -> (r: usize)
        ensures
            r == self@.len(),
    {
        self.tracks.len()
    }

    /// Whether there are none.
    pub fn is_empty(&self) -> (r: bool)
        ensures
            r <==> self@.len() == 0,
    {
        self.tracks.len() == 0
    }
}

impl Default for TrackCollection {
    fn default() -> (r: Self)
        ensures
            r@ == Seq::<Track>::empty(),
    {
        TrackCollection::new()
    }
}


/// The search query for a track's metadata: its song name, then its artist.
pub open spec fn aux_query(m: TrackMetadata) -> Seq<char> {
    text_or_empty(m.track) + " "@ + text_or_empty(m.artist)
}

fn push_opt(s: &mut String, o: &Option<String>)
    ensures
        final(s)@ == old(s)@ + text_or_empty(*o),
{
    match o {
        Some(t) => s.append(t.as_str()),
        None => {},
    }
    proof {
        assert(s@ =~= old(s)@ + text_or_empty(*o));
    }
}

/// Builds a search query from a track's metadata.
pub fn build_query_aux_metadata(m: &TrackMetadata) -> (r: String)
    ensures
        r@ == aux_query(*m),
{
    let mut s = String::new();
    push_opt(&mut s, &m.track);
    s.append(" ");
    push_opt(&mut s, &m.artist);
    proof {
        assert(s@ =~= aux_query(*m));
    }
    s
}

/// Builds a lyrics search query from a track's metadata: the search query,
/// then the music search suffix.
pub fn build_query_lyric_aux_metadata(m: &TrackMetadata) -> (r: String)
    ensures
        r@ == aux_query(*m) + " "@ + MUSIC_SEARCH_SUFFIX@,
{
    let mut s = build_query_aux_metadata(m);
    s.append(" ");
    s.append(MUSIC_SEARCH_SUFFIX);
    proof {
        assert(s@ =~= aux_query(*m) + " "@ + MUSIC_SEARCH_SUFFIX@);
    }
    s
}

} // verus!
