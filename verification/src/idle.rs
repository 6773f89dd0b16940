//! Leaving a voice channel after a while of silence. The bot's voice library
//! fires a periodic event with the play state of every queued track; each
//! firing counts one idle tick, and past the limit the bot leaves.
use vstd::prelude::*;
use crate::track_end::{get_track_states_union, PlayMode};

verus! {

/// What the caller does after an idle tick.
#[derive(Debug, Clone, Copy, PartialEq, Eq, Structural)]
pub enum IdleOutcome {
    /// Keep the periodic event running.
    Stay,
    /// Leave the call, post the idle alert in the channel once the call is
    /// left, and cancel the periodic event so it does not fire again.
    Leave,
}

/// The idle counter of one guild's call.
#[derive(Debug, Clone, Copy, PartialEq, Eq, Structural)]
pub struct IdleHandler {
    /// Ticks allowed without playback before leaving; 0 never leaves.
    pub limit: usize,
    /// Ticks counted since playback was last seen.
    pub count: usize,
    /// Whether idle ticks are counted at all.
    pub no_timeout: bool,
}

/// `count + 1`, wrapping to 0 past the largest `usize`, as an atomic
/// `fetch_add` does.
pub open spec fn tick_count(count: usize) -> usize {
    if count == usize::MAX {
        0
    } else {
        (count + 1) as usize
    }
}

/// The counter after one tick, and what to do: playback anywhere resets the
/// count; with counting off nothing changes; otherwise the tick is counted,
/// and the bot leaves when a limit is set and the count before this tick was
/// already past it.
pub open spec fn idle_step(h: IdleHandler, playing: bool) -> (IdleHandler, IdleOutcome) {
    if playing {
        (IdleHandler { count: 0, ..h }, IdleOutcome::Stay)
    } else if !h.no_timeout {
        (h, IdleOutcome::Stay)
    } else {
        (
            IdleHandler { count: tick_count(h.count), ..h },
            if h.limit > 0 && h.count > h.limit {
                IdleOutcome::Leave
            } else {
                IdleOutcome::Stay
            },
        )
    }
}

impl IdleHandler {
    /// A counter that has seen no idle tick yet.
    pub fn new(limit: usize, no_timeout: bool) -> (h: IdleHandler)
        ensures
            h == (IdleHandler { limit, count: 0, no_timeout }),
    {
        IdleHandler { limit, count: 0, no_timeout }
    }

    /// One idle tick, given the play state of every queued track (in no
    /// particular order: any playing track counts).
    pub fn act(&mut self, states: &Vec<PlayMode>) -> (r: IdleOutcome)
        ensures
            (*final(self), r) == idle_step(*old(self), states@.contains(PlayMode::Play)),
    {
        let union = get_track_states_union(states);
        if union.playing {
            self.count = 0;
            return IdleOutcome::Stay;
        }
        if !self.no_timeout {
            return IdleOutcome::Stay;
        }
        let before = self.count;
        self.count = before.wrapping_add(1);
        if self.limit > 0 && before > self.limit {
            IdleOutcome::Leave
        } else {
            IdleOutcome::Stay
        }
    }
}

/// Once the limit is passed, every further tick without playback leaves
/// again: the count only grows while nothing plays, until it wraps.
pub proof fn an_idle_bot_past_its_limit_keeps_leaving(h: IdleHandler)
    requires
        h.no_timeout,
        h.limit > 0,
        h.count > h.limit,
        h.count < usize::MAX,
    ensures
        idle_step(h, false).1 == IdleOutcome::Leave,
        idle_step(idle_step(h, false).0, false).1 == IdleOutcome::Leave,
{
}

/// Playback resets the count, so the next idle tick never leaves.
pub proof fn playback_resets_the_idle_count(h: IdleHandler)
    ensures
        idle_step(h, true) == (IdleHandler { count: 0, ..h }, IdleOutcome::Stay),
        idle_step(idle_step(h, true).0, false).1 == IdleOutcome::Stay,
{
}

/// A limit of 0 never leaves, whatever the count.
pub proof fn a_zero_limit_never_leaves(h: IdleHandler, playing: bool)
    requires
        h.limit == 0,
    ensures
        idle_step(h, playing).1 == IdleOutcome::Stay,
{
}

} // verus!
