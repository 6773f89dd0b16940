//! Autoplay: which recommendation plays next. Recommendations come in
//! refills of up to twenty, buffered per guild and served most similar
//! first; the seed for a refill is read off the track that ended.
//!
//! Refilling is a network call, so taking the next recommendation is two
//! steps: [`AutoplayBuffer::begin_next`] serves from the buffer or asks for a
//! refill, and [`AutoplayBuffer::finish_refill`] takes what the refill
//! brought.
use vstd::prelude::*;
use std::collections::HashMap;
use std::collections::VecDeque;
use crate::ids::GuildId;
use crate::query_type::QueryType;
use crate::text::{chars_of, same_chars, string_of, trim, trim_chars};
use crate::track::TrackMetadata;
use crate::urls::opt_string_view;

verus! {

broadcast use {vstd::std_specs::hash::group_hash_axioms, vstd::string::group_string_axioms};

/// Recommendations one refill asks for.
pub const REFILL_SIZE: usize = 20;

/// yt-dlp's placeholder for a field it does not have.
pub const YT_DLP_MISSING: &'static str = "NA";

/// How a recommendation is played.
#[derive(Debug, Clone)]
pub enum Playable {
    /// A YouTube video, by id.
    YouTubeId(String),
    /// A search to run.
    SearchQuery(String),
}

/// A track a recommender suggests.
#[derive(Debug, Clone)]
pub struct Recommendation {
    pub artist: String,
    pub title: String,
    pub playable: Playable,
    pub isrc: Option<String>,
    /// Which recommender suggested it.
    pub source: String,
}

/// The query a recommendation plays through: a YouTube id is a video to
/// play directly, a search query is searched for.
pub open spec fn rec_query(p: Playable) -> (bool, Seq<char>) {
    match p {
        Playable::YouTubeId(id) => (true, "https://www.youtube.com/watch?v="@ + id@),
        Playable::SearchQuery(q) => (false, q@),
    }
}

/// The query a recommendation plays through.
pub fn to_query(rec: &Recommendation) -> (q: QueryType)
    ensures
        match rec.playable {
            Playable::YouTubeId(id) => q matches QueryType::VideoLink(u) && u@ == "https://www.youtube.com/watch?v="@ + id@,
            Playable::SearchQuery(s) => q matches QueryType::Keywords(k) && k@ == s@,
        },
{
    match &rec.playable {
        Playable::YouTubeId(id) => {
            let mut u = String::from_str("https://www.youtube.com/watch?v=");
            u.append(id.as_str());
            QueryType::VideoLink(u)
        },
        Playable::SearchQuery(q) => QueryType::Keywords(q.clone()),
    }
}

/// A field as a seed may use it: trimmed, and only when something is left
/// that is not yt-dlp's placeholder for a missing value.
pub open spec fn present_of(field: Option<Seq<char>>) -> Option<Seq<char>> {
    match field {
        None => None,
        Some(s) => if trim(s).len() == 0 || trim(s) == YT_DLP_MISSING@ {
            None
        } else {
            Some(trim(s))
        },
    }
}

fn present(field: &Option<String>) -> (r: Option<String>)
    ensures
        opt_string_view(r) == present_of(opt_string_view(*field)),
{
    match field {
        None => None,
        Some(s) => {
            let t = trim_chars(&chars_of(s.as_str()));
            if t.len() == 0 || same_chars(&t, &chars_of(YT_DLP_MISSING)) {
                None
            } else {
                Some(string_of(&t))
            }
        },
    }
}

/// What a refill is seeded from.
#[derive(Debug, Clone, PartialEq, Eq)]
pub struct RawTrack {
    pub title: String,
    pub artist: Option<String>,
    pub uploader: Option<String>,
    /// The YouTube video id of the track, when it has one.
    pub video_id: Option<String>,
}

/// The seed read off the track that ended: its title, artist and uploader
/// as [`present_of`] keeps them, and its video id; none without a title.
/// The video id is read off the track's source URL by the recommender's
/// own URL reader and handed in.
pub fn raw_track(meta: &TrackMetadata, video_id: Option<String>) -> (r: Option<RawTrack>)
    ensures
        match r {
            None => present_of(opt_string_view(meta.title)) is None,
            Some(t) => {
                &&& present_of(opt_string_view(meta.title)) == Some(t.title@)
                &&& opt_string_view(t.artist) == present_of(opt_string_view(meta.artist))
                &&& opt_string_view(t.uploader) == present_of(opt_string_view(meta.channel))
                &&& t.video_id == video_id
            },
        },
{
    let title = match present(&meta.title) {
        Some(t) => t,
        None => {
            return None;
        },
    };
    Some(RawTrack {
        title,
        artist: present(&meta.artist),
        uploader: present(&meta.channel),
        video_id,
    })
}

/// The recommenders autoplay can use.
#[derive(Debug, Clone, Copy, PartialEq, Eq, Structural)]
pub enum RecommenderKind {
    /// YouTube's Mix: free, and needs no seed but a video id.
    YouTubeMix,
    /// Deezer's artist radio: free.
    Deezer,
    /// musicatlas: metered by a daily budget.
    MusicAtlas,
}

/// The recommenders, in the order they are asked: the Mix first, Deezer
/// next, and musicatlas last and only with a non-blank key and a database
/// to count its budget in.
pub open spec fn lineup_of(key: Option<Seq<char>>, has_database: bool) -> Seq<RecommenderKind> {
    if key matches Some(k) && trim(k).len() > 0 && has_database {
        seq![RecommenderKind::YouTubeMix, RecommenderKind::Deezer, RecommenderKind::MusicAtlas]
    } else {
        seq![RecommenderKind::YouTubeMix, RecommenderKind::Deezer]
    }
}

/// The recommenders to build, in the order they are asked.
pub fn recommender_lineup(musicatlas_key: Option<&str>, has_database: bool) -> (r: Vec<RecommenderKind>)
    ensures
        r@ == lineup_of(
            match musicatlas_key {
                Some(k) => Some(k@),
                None => None,
            },
            has_database,
        ),
{
    let mut r = vec![RecommenderKind::YouTubeMix, RecommenderKind::Deezer];
    let usable = match musicatlas_key {
        Some(k) => trim_chars(&chars_of(k)).len() > 0,
        None => false,
    };
    if usable && has_database {
        r.push(RecommenderKind::MusicAtlas);
    }
    proof {
        assert(r@ =~= lineup_of(
            match musicatlas_key {
                Some(k) => Some(k@),
                None => None,
            },
            has_database,
        ));
    }
    r
}

/// A generation after one more clear, wrapping.
pub open spec fn bumped(n: u64) -> u64 {
    if n == u64::MAX {
        0
    } else {
        (n + 1) as u64
    }
}

/// What taking the next recommendation found.
#[derive(Debug)]
pub enum NextStep {
    /// The buffer had one.
    Served(Recommendation),
    /// The buffer was empty: refill, then hand the refill and this
    /// generation to [`AutoplayBuffer::finish_refill`].
    Refill { generation: u64 },
}

/// Pending autoplay recommendations, per guild.
pub struct AutoplayBuffer {
    queues: HashMap<u64, VecDeque<Recommendation>>,
    /// Bumped by every clear, so a refill already under way when the buffer
    /// was cleared cannot put its stale rest back.
    generations: HashMap<u64, u64>,
}

impl AutoplayBuffer {
    /// The guild's buffered recommendations, in serving order.
    pub closed spec fn queue(&self, guild: GuildId) -> Seq<Recommendation> {
        if self.queues@.contains_key(guild.0) {
            self.queues@[guild.0]@
        } else {
            Seq::empty()
        }
    }

    /// How many times the guild's buffer has been cleared, wrapping.
    pub closed spec fn generation(&self, guild: GuildId) -> u64 {
        if self.generations@.contains_key(guild.0) {
            self.generations@[guild.0]
        } else {
            0
        }
    }

    /// An empty buffer for every guild.
    pub fn new() -> (r: Self)
        ensures
            forall|g: GuildId| r.queue(g) == Seq::<Recommendation>::empty() && r.generation(g) == 0,
    {
        AutoplayBuffer { queues: HashMap::new(), generations: HashMap::new() }
    }

    /// Serves the guild's next buffered recommendation, front first, or asks
    /// for a refill when there is none.
    pub fn begin_next(&mut self, guild: GuildId) -> (r: NextStep)
        ensures
            old(self).queue(guild).len() > 0 ==> (r matches NextStep::Served(rec) && rec
                == old(self).queue(guild)[0] && final(self).queue(guild)
                == old(self).queue(guild).drop_first()),
            old(self).queue(guild).len() == 0 ==> (r matches NextStep::Refill { generation }
                && generation == old(self).generation(guild) && final(self).queue(guild)
                == old(self).queue(guild)),
            forall|h: GuildId| h != guild ==> #[trigger] final(self).queue(h) == old(self).queue(h),
            forall|h: GuildId| #[trigger] final(self).generation(h) == old(self).generation(h),
    {
        let removed = self.queues.remove(&guild.0);
        match removed {
            Some(q) => {
                let mut q = q;
                match q.pop_front() {
                    Some(first) => {
                        self.queues.insert(guild.0, q);
                        proof {
                            assert forall|h: GuildId| h != guild implies #[trigger] self.queue(h)
                                == old(self).queue(h) by {
                                assert(h.0 != guild.0);
                            }
                        }
                        NextStep::Served(first)
                    },
                    None => {
                        self.queues.insert(guild.0, q);
                        proof {
                            assert forall|h: GuildId| h != guild implies #[trigger] self.queue(h)
                                == old(self).queue(h) by {
                                assert(h.0 != guild.0);
                            }
                            assert(self.queue(guild) =~= old(self).queue(guild));
                        }
                        NextStep::Refill { generation: self.generation_now(guild) }
                    },
                }
            },
            None => {
                proof {
                    assert(self.queues@ == old(self).queues@);
                }
                NextStep::Refill { generation: self.generation_now(guild) }
            },
        }
    }

    fn generation_now(&self, guild: GuildId) -> (r: u64)
        ensures
            r == self.generation(guild),
    {
        match self.generations.get(&guild.0) {
            Some(g) => *g,
            None => 0,
        }
    }

    /// Takes what a refill brought: its first recommendation is served, and
    /// the rest are buffered, unless the buffer was cleared since the refill
    /// was asked for.
    pub fn finish_refill(&mut self, guild: GuildId, generation: u64, fresh: Vec<Recommendation>) -> (r: Option<Recommendation>)
        ensures
            fresh@.len() == 0 ==> r is None,
            fresh@.len() > 0 ==> r == Some(fresh@[0]),
            final(self).queue(guild) == (if fresh@.len() > 1 && generation == old(self).generation(guild) {
                fresh@.drop_first()
            } else {
                old(self).queue(guild)
            }),
            forall|h: GuildId| h != guild ==> #[trigger] final(self).queue(h) == old(self).queue(h),
            forall|h: GuildId| #[trigger] final(self).generation(h) == old(self).generation(h),
    {
        let mut rest: VecDeque<Recommendation> = VecDeque::new();
        let mut fresh = fresh;
        let ghost all = fresh@;
        if fresh.len() == 0 {
            return None;
        }
        let first = fresh.remove(0);
        while fresh.len() > 0
            invariant
                rest@ + fresh@ == all.drop_first(),
            decreases fresh@.len(),
        {
            let ghost before = fresh@;
            let x = fresh.remove(0);
            let ghost old_rest = rest@;
            rest.push_back(x);
            assert(rest@ + fresh@ =~= old_rest + before);
        }
        assert(rest@ =~= all.drop_first());
        if rest.len() > 0 && self.generation_now(guild) == generation {
            self.queues.insert(guild.0, rest);
            proof {
                assert forall|h: GuildId| h != guild implies #[trigger] self.queue(h)
                    == old(self).queue(h) by {
                    assert(h.0 != guild.0);
                }
            }
        }
        Some(first)
    }

    /// Drops the guild's buffered recommendations and bumps its generation,
    /// so that a refill under way cannot put its rest back.
    pub fn clear(&mut self, guild: GuildId)
        ensures
            final(self).queue(guild) == Seq::<Recommendation>::empty(),
            final(self).generation(guild) == bumped(old(self).generation(guild)),
            forall|h: GuildId| h != guild ==> #[trigger] final(self).queue(h) == old(self).queue(h),
            forall|h: GuildId| h != guild ==> #[trigger] final(self).generation(h) == old(self).generation(h),
    {
        let g = self.generation_now(guild);
        self.queues.remove(&guild.0);
        let next = if g == u64::MAX { 0 } else { g + 1 };
        self.generations.insert(guild.0, next);
        proof {
            assert forall|h: GuildId| h != guild implies #[trigger] self.queue(h) == old(self).queue(h)
                && self.generation(h) == old(self).generation(h) by {
                assert(h.0 != guild.0);
            }
        }
    }
}


/// A clear during a refill keeps none of the refill's rest: the clear moves
/// the guild to a generation the refill did not start in, and a refill is
/// buffered only in the generation it started in.
pub proof fn a_clear_during_a_refill_keeps_none_of_its_rest(started_in: u64)
    ensures
        bumped(started_in) != started_in,
{
}

} // verus!
