//! What happens when a track ends: the decisions of the track-end handler,
//! stated over the states songbird reports and the facts the handler reads.
//!
//! Handling a track end takes several calls whose outcomes decide what comes
//! next, so the decisions live in [`TrackEnd`], a state machine: it names the
//! next action, is told how it went, and names the next action again until
//! it finishes.
use vstd::prelude::*;
use crate::ids::GenericChannelId;
use crate::messages::{AUTOPLAY_NEEDS_MUSICRECO, AUTOPLAY_STOPPED};

verus! {

/// What a track was doing when an event about it fired.
#[derive(Debug, Clone, Copy, PartialEq, Eq, Structural)]
pub enum PlayMode {
    Play,
    Pause,
    Stop,
    End,
    Errored,
    /// A state this handler does not act on.
    Other,
}

/// Which play states occur among the tracks an event is about.
#[derive(Debug, Clone, Copy, PartialEq, Eq, Structural)]
pub struct TrackStatesUnion {
    pub playing: bool,
    pub paused: bool,
    pub stopped: bool,
    pub errored: bool,
    pub end: bool,
}

/// The union of the play states in `states`.
pub open spec fn states_union(states: Seq<PlayMode>) -> TrackStatesUnion {
    TrackStatesUnion {
        playing: states.contains(PlayMode::Play),
        paused: states.contains(PlayMode::Pause),
        stopped: states.contains(PlayMode::Stop),
        errored: states.contains(PlayMode::Errored),
        end: states.contains(PlayMode::End),
    }
}

/// Which play states occur among `states`.
pub fn get_track_states_union(states: &Vec<PlayMode>) -> (u: TrackStatesUnion)
    ensures
        u == states_union(states@),
{
    let mut u = TrackStatesUnion {
        playing: false,
        paused: false,
        stopped: false,
        errored: false,
        end: false,
    };
    let mut i: usize = 0;
    while i < states.len()
        invariant
            i <= states@.len(),
            u == states_union(states@.take(i as int)),
        decreases states@.len() - i,
    {
        let ghost before = states@.take(i as int);
        let ghost after = states@.take(i + 1);
        assert(after =~= before.push(states@[i as int]));
        match states[i] {
            PlayMode::Play => u.playing = true,
            PlayMode::Pause => u.paused = true,
            PlayMode::Stop => u.stopped = true,
            PlayMode::End => u.end = true,
            PlayMode::Errored => u.errored = true,
            PlayMode::Other => {},
        }
        proof {
            assert forall|m: PlayMode| after.contains(m) <==> (before.contains(m) || m
                == states@[i as int]) by {
                if after.contains(m) {
                    let j = choose|j: int| 0 <= j < after.len() && after[j] == m;
                    if j < i {
                        assert(before[j] == m);
                    }
                }
                if before.contains(m) {
                    let j = choose|j: int| 0 <= j < before.len() && before[j] == m;
                    assert(after[j] == m);
                }
                if m == states@[i as int] {
                    assert(after[i as int] == m);
                }
            }
        }
        i = i + 1;
    }
    assert(states@.take(states@.len() as int) =~= states@);
    u
}

/// What the channel is told when autoplay is switched off: "Autoplay off",
/// unless this deployment has no recommender at all, the one reason worth
/// naming.
pub fn autoplay_off_notice(has_recommender: bool) -> (r: &'static str)
    ensures
        r@ == (if has_recommender {
            AUTOPLAY_STOPPED@
        } else {
            AUTOPLAY_NEEDS_MUSICRECO@
        }),
{
    if has_recommender {
        AUTOPLAY_STOPPED
    } else {
        AUTOPLAY_NEEDS_MUSICRECO
    }
}


/// What the handler knows when a track ends, read before it acts.
#[derive(Debug, Clone, Copy, PartialEq, Eq, Structural)]
pub struct TrackEndFacts {
    /// Whether autoplay is on in the guild.
    pub autoplay: bool,
    /// Whether the guild pauses after every track.
    pub autopause: bool,
    /// Whether a game owns playback in the guild.
    pub game_active: bool,
    /// The play states of the tracks the event is about, when the event is
    /// about tracks.
    pub track_states: Option<TrackStatesUnion>,
    /// The guild's music channel, if it has one.
    pub music_channel: Option<GenericChannelId>,
    /// Whether this deployment has a recommender to pick tracks with.
    pub has_recommender: bool,
}

/// What the handler does next.
#[derive(Debug, Clone, Copy, PartialEq, Eq, Structural)]
pub enum TrackEndAction {
    /// Forget the skip votes cast for the track that ended.
    ForgetSkipVotes,
    /// Collect a game parked by its end command, if there is one.
    CollectParkedGame,
    /// Pause the queue, holding the queue guard as nobody in particular.
    PauseQueue,
    /// Switch autoplay off, and say so in `notify` when there is a channel.
    SwitchAutoplayOff { notify: Option<GenericChannelId>, notice: OffNotice },
    /// Read the call: where it is connected and whether a track is queued.
    ReadCall,
    /// Send the now-playing message to `channel`.
    SendNowPlaying { channel: GenericChannelId },
    /// Ask the recommender for the next track.
    FetchPick,
    /// Resolve the recommended track and queue it.
    QueuePick,
    /// Nothing more to do.
    Finish,
}

/// What came of the last action.
#[derive(Debug, Clone, Copy, PartialEq, Eq, Structural)]
pub enum TrackEndEvent {
    /// The action was carried out (its outcome, if any, does not matter).
    Done,
    /// The call was read: the channel it is connected to, and whether a
    /// track is queued to play next.
    Call { connected: Option<GenericChannelId>, has_next: bool },
    /// The recommender answered, with a track or without one.
    Pick { found: bool },
    /// Queueing the recommended track succeeded or failed.
    Queued { ok: bool },
}

/// Where the handler is.
#[derive(Debug, Clone, Copy, PartialEq, Eq, Structural)]
pub enum TrackEndStage {
    ForgettingVotes,
    CollectingGame,
    Pausing,
    SwitchingOffErrored,
    ReadingCall,
    AnnouncingNext { channel: GenericChannelId },
    FetchingPick { channel: GenericChannelId },
    SwitchingOffNoPick { channel: GenericChannelId },
    QueueingPick { channel: GenericChannelId },
    SwitchingOffQueueFailed { channel: GenericChannelId },
    AnnouncingQueued { channel: GenericChannelId },
    Finished,
}

/// The track-end handler of one guild, for one track end.
#[derive(Debug, Clone, Copy, PartialEq, Eq, Structural)]
pub struct TrackEnd {
    pub facts: TrackEndFacts,
    pub stage: TrackEndStage,
}

/// Which message says that autoplay was switched off.
#[derive(Debug, Clone, Copy, PartialEq, Eq, Structural)]
pub enum OffNotice {
    /// "Autoplay off".
    Stopped,
    /// This deployment has no recommender at all.
    NeedsRecommender,
}

/// The notice for autoplay switched off for want of a pick: the missing
/// recommender is the one reason worth naming.
pub open spec fn off_notice(has_recommender: bool) -> OffNotice {
    if has_recommender {
        OffNotice::Stopped
    } else {
        OffNotice::NeedsRecommender
    }
}

impl OffNotice {
    /// The notice for autoplay switched off for want of a pick.
    pub fn for_deployment(has_recommender: bool) -> (r: OffNotice)
        ensures
            r == off_notice(has_recommender),
    {
        if has_recommender {
            OffNotice::Stopped
        } else {
            OffNotice::NeedsRecommender
        }
    }

    /// The words of the notice.
    pub fn text(self) -> (r: &'static str)
        ensures
            r@ == match self {
                OffNotice::Stopped => AUTOPLAY_STOPPED@,
                OffNotice::NeedsRecommender => AUTOPLAY_NEEDS_MUSICRECO@,
            },
    {
        match self {
            OffNotice::Stopped => AUTOPLAY_STOPPED,
            OffNotice::NeedsRecommender => AUTOPLAY_NEEDS_MUSICRECO,
        }
    }
}

/// After the votes (and, when the guild asks for it, the pause): stop when
/// autoplay is off, switch it off when a track errored, and otherwise go
/// and read the call.
pub open spec fn after_pause(f: TrackEndFacts) -> (TrackEndStage, TrackEndAction) {
    if !f.autoplay {
        (TrackEndStage::Finished, TrackEndAction::Finish)
    } else if f.track_states matches Some(u) && u.errored {
        (
            TrackEndStage::SwitchingOffErrored,
            TrackEndAction::SwitchAutoplayOff { notify: f.music_channel, notice: OffNotice::Stopped },
        )
    } else {
        (TrackEndStage::ReadingCall, TrackEndAction::ReadCall)
    }
}

/// One step: from a stage and what came of its action to the next stage
/// and action. An event that does not fit the stage changes nothing and
/// names the stage's action again.
pub open spec fn track_end_step(m: TrackEnd, e: TrackEndEvent) -> (TrackEndStage, TrackEndAction) {
    let f = m.facts;
    match (m.stage, e) {
        (TrackEndStage::ForgettingVotes, TrackEndEvent::Done) => if f.game_active {
            (TrackEndStage::CollectingGame, TrackEndAction::CollectParkedGame)
        } else if f.autopause {
            (TrackEndStage::Pausing, TrackEndAction::PauseQueue)
        } else {
            after_pause(f)
        },
        (TrackEndStage::CollectingGame, TrackEndEvent::Done) => (TrackEndStage::Finished, TrackEndAction::Finish),
        (TrackEndStage::Pausing, TrackEndEvent::Done) => after_pause(f),
        (TrackEndStage::SwitchingOffErrored, TrackEndEvent::Done) => (TrackEndStage::Finished, TrackEndAction::Finish),
        (TrackEndStage::ReadingCall, TrackEndEvent::Call { connected, has_next }) => {
            let channel = if f.music_channel is Some { f.music_channel } else { connected };
            match channel {
                None => (TrackEndStage::Finished, TrackEndAction::Finish),
                Some(c) => if has_next {
                    (TrackEndStage::AnnouncingNext { channel: c }, TrackEndAction::SendNowPlaying { channel: c })
                } else {
                    (TrackEndStage::FetchingPick { channel: c }, TrackEndAction::FetchPick)
                },
            }
        },
        (TrackEndStage::AnnouncingNext { .. }, TrackEndEvent::Done) => (TrackEndStage::Finished, TrackEndAction::Finish),
        (TrackEndStage::FetchingPick { channel }, TrackEndEvent::Pick { found }) => if found {
            (TrackEndStage::QueueingPick { channel }, TrackEndAction::QueuePick)
        } else {
            (
                TrackEndStage::SwitchingOffNoPick { channel },
                TrackEndAction::SwitchAutoplayOff {
                    notify: Some(channel),
                    notice: off_notice(f.has_recommender),
                },
            )
        },
        (TrackEndStage::SwitchingOffNoPick { .. }, TrackEndEvent::Done) => (TrackEndStage::Finished, TrackEndAction::Finish),
        (TrackEndStage::QueueingPick { channel }, TrackEndEvent::Queued { ok }) => if ok {
            (TrackEndStage::AnnouncingQueued { channel }, TrackEndAction::SendNowPlaying { channel })
        } else {
            (
                TrackEndStage::SwitchingOffQueueFailed { channel },
                TrackEndAction::SwitchAutoplayOff {
                    notify: Some(channel),
                    notice: off_notice(f.has_recommender),
                },
            )
        },
        (TrackEndStage::SwitchingOffQueueFailed { channel }, TrackEndEvent::Done) => (
            TrackEndStage::AnnouncingQueued { channel },
            TrackEndAction::SendNowPlaying { channel },
        ),
        (TrackEndStage::AnnouncingQueued { .. }, TrackEndEvent::Done) => (TrackEndStage::Finished, TrackEndAction::Finish),
        _ => (m.stage, stage_action(m)),
    }
}

/// Whether a handler's stage fits its facts: it pauses only for a guild no
/// game owns, and switches autoplay off for an errored track only when a
/// track did error, autoplay was on and no game owns playback.
pub open spec fn track_end_wf(m: TrackEnd) -> bool {
    &&& m.stage == TrackEndStage::Pausing ==> !m.facts.game_active
    &&& m.stage == TrackEndStage::SwitchingOffErrored ==> {
        &&& m.facts.autoplay
        &&& !m.facts.game_active
        &&& (m.facts.track_states matches Some(u) && u.errored)
    }
}

/// The action a stage is waiting on.
pub open spec fn stage_action(m: TrackEnd) -> TrackEndAction {
    let f = m.facts;
    match m.stage {
        TrackEndStage::ForgettingVotes => TrackEndAction::ForgetSkipVotes,
        TrackEndStage::CollectingGame => TrackEndAction::CollectParkedGame,
        TrackEndStage::Pausing => TrackEndAction::PauseQueue,
        TrackEndStage::SwitchingOffErrored => TrackEndAction::SwitchAutoplayOff {
            notify: f.music_channel,
            notice: OffNotice::Stopped,
        },
        TrackEndStage::ReadingCall => TrackEndAction::ReadCall,
        TrackEndStage::AnnouncingNext { channel } => TrackEndAction::SendNowPlaying { channel },
        TrackEndStage::FetchingPick { .. } => TrackEndAction::FetchPick,
        TrackEndStage::SwitchingOffNoPick { channel } => TrackEndAction::SwitchAutoplayOff {
            notify: Some(channel),
            notice: off_notice(f.has_recommender),
        },
        TrackEndStage::QueueingPick { .. } => TrackEndAction::QueuePick,
        TrackEndStage::SwitchingOffQueueFailed { channel } => TrackEndAction::SwitchAutoplayOff {
            notify: Some(channel),
            notice: off_notice(f.has_recommender),
        },
        TrackEndStage::AnnouncingQueued { channel } => TrackEndAction::SendNowPlaying { channel },
        TrackEndStage::Finished => TrackEndAction::Finish,
    }
}

impl TrackEnd {
    /// Starts handling a track end: the skip votes are forgotten first.
    pub fn start(facts: TrackEndFacts) -> (r: (TrackEnd, TrackEndAction))
        ensures
            r.0.facts == facts,
            r.0.stage == TrackEndStage::ForgettingVotes,
            track_end_wf(r.0),
            r.1 == TrackEndAction::ForgetSkipVotes,
    {
        (TrackEnd { facts, stage: TrackEndStage::ForgettingVotes }, TrackEndAction::ForgetSkipVotes)
    }

    fn after_pause(f: TrackEndFacts) -> (r: (TrackEndStage, TrackEndAction))
        ensures
            r == after_pause(f),
    {
        if !f.autoplay {
            return (TrackEndStage::Finished, TrackEndAction::Finish);
        }
        match f.track_states {
            Some(u) => {
                if u.errored {
                    return (
                        TrackEndStage::SwitchingOffErrored,
                        TrackEndAction::SwitchAutoplayOff {
                            notify: f.music_channel,
                            notice: OffNotice::Stopped,
                        },
                    );
                }
            },
            None => {},
        }
        (TrackEndStage::ReadingCall, TrackEndAction::ReadCall)
    }

    fn stage_action(&self) -> (r: TrackEndAction)
        ensures
            r == stage_action(*self),
    {
        match self.stage {
            TrackEndStage::ForgettingVotes => TrackEndAction::ForgetSkipVotes,
            TrackEndStage::CollectingGame => TrackEndAction::CollectParkedGame,
            TrackEndStage::Pausing => TrackEndAction::PauseQueue,
            TrackEndStage::SwitchingOffErrored => TrackEndAction::SwitchAutoplayOff {
                notify: self.facts.music_channel,
                notice: OffNotice::Stopped,
            },
            TrackEndStage::ReadingCall => TrackEndAction::ReadCall,
            TrackEndStage::AnnouncingNext { channel } => TrackEndAction::SendNowPlaying { channel },
            TrackEndStage::FetchingPick { .. } => TrackEndAction::FetchPick,
            TrackEndStage::SwitchingOffNoPick { channel } => TrackEndAction::SwitchAutoplayOff {
            notify: Some(channel),
            notice: OffNotice::for_deployment(self.facts.has_recommender),
        },
            TrackEndStage::QueueingPick { .. } => TrackEndAction::QueuePick,
            TrackEndStage::SwitchingOffQueueFailed { channel } => TrackEndAction::SwitchAutoplayOff {
                notify: Some(channel),
                notice: OffNotice::for_deployment(self.facts.has_recommender),
            },
            TrackEndStage::AnnouncingQueued { channel } => TrackEndAction::SendNowPlaying { channel },
            TrackEndStage::Finished => TrackEndAction::Finish,
        }
    }

    /// Takes what came of the last action and names the next one.
    pub fn step(&mut self, event: TrackEndEvent) -> (r: TrackEndAction)
        ensures
            final(self).facts == old(self).facts,
            (final(self).stage, r) == track_end_step(*old(self), event),
            track_end_wf(*old(self)) ==> track_end_wf(*final(self)),
    {
        let f = self.facts;
        let (stage, action) = match (self.stage, event) {
            (TrackEndStage::ForgettingVotes, TrackEndEvent::Done) => {
                if f.game_active {
                    (TrackEndStage::CollectingGame, TrackEndAction::CollectParkedGame)
                } else if f.autopause {
                    (TrackEndStage::Pausing, TrackEndAction::PauseQueue)
                } else {
                    TrackEnd::after_pause(f)
                }
            },
            (TrackEndStage::CollectingGame, TrackEndEvent::Done) => (TrackEndStage::Finished, TrackEndAction::Finish),
            (TrackEndStage::Pausing, TrackEndEvent::Done) => TrackEnd::after_pause(f),
            (TrackEndStage::SwitchingOffErrored, TrackEndEvent::Done) => (TrackEndStage::Finished, TrackEndAction::Finish),
            (TrackEndStage::ReadingCall, TrackEndEvent::Call { connected, has_next }) => {
                let channel = match f.music_channel {
                    Some(c) => Some(c),
                    None => connected,
                };
                match channel {
                    None => (TrackEndStage::Finished, TrackEndAction::Finish),
                    Some(c) => {
                        if has_next {
                            (TrackEndStage::AnnouncingNext { channel: c }, TrackEndAction::SendNowPlaying { channel: c })
                        } else {
                            (TrackEndStage::FetchingPick { channel: c }, TrackEndAction::FetchPick)
                        }
                    },
                }
            },
            (TrackEndStage::AnnouncingNext { .. }, TrackEndEvent::Done) => (TrackEndStage::Finished, TrackEndAction::Finish),
            (TrackEndStage::FetchingPick { channel }, TrackEndEvent::Pick { found }) => {
                if found {
                    (TrackEndStage::QueueingPick { channel }, TrackEndAction::QueuePick)
                } else {
                    (
                        TrackEndStage::SwitchingOffNoPick { channel },
                        TrackEndAction::SwitchAutoplayOff {
                            notify: Some(channel),
                            notice: OffNotice::for_deployment(f.has_recommender),
                        },
                    )
                }
            },
            (TrackEndStage::SwitchingOffNoPick { .. }, TrackEndEvent::Done) => (TrackEndStage::Finished, TrackEndAction::Finish),
            (TrackEndStage::QueueingPick { channel }, TrackEndEvent::Queued { ok }) => {
                if ok {
                    (TrackEndStage::AnnouncingQueued { channel }, TrackEndAction::SendNowPlaying { channel })
                } else {
                    (
                        TrackEndStage::SwitchingOffQueueFailed { channel },
                        TrackEndAction::SwitchAutoplayOff {
                            notify: Some(channel),
                            notice: OffNotice::for_deployment(f.has_recommender),
                        },
                    )
                }
            },
            (TrackEndStage::SwitchingOffQueueFailed { channel }, TrackEndEvent::Done) => (
                TrackEndStage::AnnouncingQueued { channel },
                TrackEndAction::SendNowPlaying { channel },
            ),
            (TrackEndStage::AnnouncingQueued { .. }, TrackEndEvent::Done) => (TrackEndStage::Finished, TrackEndAction::Finish),
            _ => (self.stage, self.stage_action()),
        };
        self.stage = stage;
        action
    }
}

} // verus!

verus! {

/// A guild a game owns: after the skip votes, the handler only collects a
/// parked game and finishes. No pause, no autoplay, no now-playing message.
pub proof fn a_game_owns_the_track_end(facts: TrackEndFacts)
    requires
        facts.game_active,
    ensures
        track_end_step(TrackEnd { facts, stage: TrackEndStage::ForgettingVotes }, TrackEndEvent::Done)
            == (TrackEndStage::CollectingGame, TrackEndAction::CollectParkedGame),
        track_end_step(TrackEnd { facts, stage: TrackEndStage::CollectingGame }, TrackEndEvent::Done)
            == (TrackEndStage::Finished, TrackEndAction::Finish),
{
}

/// With autoplay off, the handler does no more than forget the votes and,
/// when the guild asks for it, pause: it finishes right after.
pub proof fn autoplay_off_does_nothing_more(facts: TrackEndFacts)
    requires
        !facts.autoplay,
        !facts.game_active,
    ensures
        facts.autopause ==> track_end_step(
            TrackEnd { facts, stage: TrackEndStage::ForgettingVotes },
            TrackEndEvent::Done,
        ) == (TrackEndStage::Pausing, TrackEndAction::PauseQueue),
        facts.autopause ==> track_end_step(
            TrackEnd { facts, stage: TrackEndStage::Pausing },
            TrackEndEvent::Done,
        ) == (TrackEndStage::Finished, TrackEndAction::Finish),
        !facts.autopause ==> track_end_step(
            TrackEnd { facts, stage: TrackEndStage::ForgettingVotes },
            TrackEndEvent::Done,
        ) == (TrackEndStage::Finished, TrackEndAction::Finish),
{
}

/// Autoplay is never switched off silently when there is a channel to say
/// it in: a switch-off that notifies nobody happens only because a track
/// errored in a guild without a music channel.
pub proof fn autoplay_is_switched_off_silently_only_without_a_channel(m: TrackEnd, e: TrackEndEvent)
    requires
        track_end_wf(m),
    ensures
        track_end_step(m, e).1 matches TrackEndAction::SwitchAutoplayOff { notify: None, .. }
            ==> (m.facts.music_channel is None && (m.facts.track_states matches Some(u) && u.errored)),
{
}

/// When a track is queued to play next, it is announced; no recommendation
/// is fetched in its place.
pub proof fn a_queued_track_is_announced_not_replaced(m: TrackEnd, connected: Option<GenericChannelId>)
    requires
        m.stage == TrackEndStage::ReadingCall,
        m.facts.music_channel is Some || connected is Some,
    ensures
        track_end_step(m, TrackEndEvent::Call { connected, has_next: true }).1 matches TrackEndAction::SendNowPlaying { .. },
{
}

/// The now-playing message goes to the music channel when the guild has
/// one, and otherwise to the channel the call is connected to.
pub proof fn announcements_prefer_the_music_channel(m: TrackEnd, connected: Option<GenericChannelId>, has_next: bool)
    requires
        m.stage == TrackEndStage::ReadingCall,
    ensures
        m.facts.music_channel matches Some(c) ==> track_end_step(
            m,
            TrackEndEvent::Call { connected, has_next },
        ).1 == (if has_next {
            TrackEndAction::SendNowPlaying { channel: c }
        } else {
            TrackEndAction::FetchPick
        }),
        m.facts.music_channel is None && connected is None ==> track_end_step(
            m,
            TrackEndEvent::Call { connected, has_next },
        ).1 == TrackEndAction::Finish,
{
}

/// A pick that could not be queued still ends with a now-playing message,
/// after autoplay has been switched off with a notice.
pub proof fn a_failed_pick_is_announced_then_the_queue_is_shown(m: TrackEnd, channel: GenericChannelId)
    requires
        m.stage == (TrackEndStage::QueueingPick { channel }),
    ensures
        track_end_step(m, TrackEndEvent::Queued { ok: false }) == (
            TrackEndStage::SwitchingOffQueueFailed { channel },
            TrackEndAction::SwitchAutoplayOff {
                notify: Some(channel),
                notice: off_notice(m.facts.has_recommender),
            },
        ),
        track_end_step(
            TrackEnd { facts: m.facts, stage: TrackEndStage::SwitchingOffQueueFailed { channel } },
            TrackEndEvent::Done,
        ).1 == (TrackEndAction::SendNowPlaying { channel }),
{
}

} // verus!
