//! Camera tracking for voice channels with a "camera on" rule.
//!
//! Each poll reports who sits in voice with their camera on or off. The
//! cams state remembers, per (user, channel), when the camera status last
//! changed, so "off for N milliseconds" can exceed a channel's limit.
use vstd::prelude::*;
use std::collections::HashMap;
use crate::ids::{ChannelId, GuildId, UserId};
use crate::text::{push_user_mention, user_mention};
use crate::urls::strings_view;

verus! {

broadcast use vstd::std_specs::hash::group_hash_axioms;

/// Whether acting on a user (deafening, muting, posting the disconnect
/// message) is switched on at all. Off, deliberately: the tracker reports whom
/// it would act on, and switching it on is a decision for the guilds it
/// applies to, not a setting.
pub const ENFORCE_CAMS: bool = false;

/// Whether a member's camera is on.
#[derive(Debug, Clone, Copy, PartialEq, Eq, Structural)]
pub enum CamStatus {
    On,
    Off,
}

pub open spec fn cam_status_text(s: CamStatus) -> Seq<char> {
    match s {
        CamStatus::On => "On"@,
        CamStatus::Off => "Off"@,
    }
}

impl CamStatus {
    /// "On" or "Off".
    pub fn to_text(&self) -> (s: String)
        ensures
            s@ == cam_status_text(*self),
    {
        match self {
            CamStatus::On => String::from_str("On"),
            CamStatus::Off => String::from_str("Off"),
        }
    }
}

impl From<bool> for CamStatus {
    fn from(status: bool) -> (r: Self) {
        if status {
            CamStatus::On
        } else {
            CamStatus::Off
        }
    }
}

impl vstd::std_specs::convert::FromSpecImpl<bool> for CamStatus {
    open spec fn obeys_from_spec() -> bool {
        true
    }

    open spec fn from_spec(v: bool) -> CamStatus {
        if v {
            CamStatus::On
        } else {
            CamStatus::Off
        }
    }
}

/// One member's camera status as a poll saw it, and since when it has held,
/// in milliseconds on the poller's clock.
#[derive(Debug, Clone, Copy, PartialEq, Eq, Structural)]
pub struct CamPollEvent {
    pub user_id: UserId,
    pub guild_id: GuildId,
    pub chan_id: ChannelId,
    pub status: CamStatus,
    pub last_change: u64,
}

impl CamPollEvent {
    /// The key the tracker files this event under.
    pub fn key(&self) -> (r: (UserId, ChannelId))
        ensures
            r == (self.user_id, self.chan_id),
    {
        (self.user_id, self.chan_id)
    }
}

pub open spec fn same_key(a: CamPollEvent, b: CamPollEvent) -> bool {
    a.user_id == b.user_id && a.chan_id == b.chan_id
}

/// No two cams events share a (user, channel) key.
pub open spec fn keys_unique(t: Seq<CamPollEvent>) -> bool {
    forall|i: int, j: int| 0 <= i < j < t.len() ==> !same_key(#[trigger] t[i], #[trigger] t[j])
}

pub open spec fn tracks_key(t: Seq<CamPollEvent>, e: CamPollEvent) -> bool {
    exists|i: int| 0 <= i < t.len() && same_key(#[trigger] t[i], e)
}

pub open spec fn key_index(t: Seq<CamPollEvent>, e: CamPollEvent) -> int {
    choose|i: int| 0 <= i < t.len() && same_key(#[trigger] t[i], e)
}

/// Fold one polled status into the cams state: an unchanged status keeps
/// the time it was first seen, a changed or new one starts its clock at `now`.
pub open spec fn poll_one(t: Seq<CamPollEvent>, p: CamPollEvent, now: u64) -> Seq<CamPollEvent> {
    let fresh = CamPollEvent { last_change: now, ..p };
    if tracks_key(t, p) {
        let i = key_index(t, p);
        if t[i].status == p.status {
            t
        } else {
            t.update(i, fresh)
        }
    } else {
        t.push(fresh)
    }
}

/// Fold a whole poll, in order.
pub open spec fn poll_all(t: Seq<CamPollEvent>, polled: Seq<CamPollEvent>, now: u64) -> Seq<
    CamPollEvent,
>
    decreases polled.len(),
{
    if polled.len() == 0 {
        t
    } else {
        poll_one(poll_all(t, polled.drop_last(), now), polled.last(), now)
    }
}

/// Whether a cams event's key was seen in this poll.
pub open spec fn seen_in(polled: Seq<CamPollEvent>, e: CamPollEvent) -> bool {
    tracks_key(polled, e)
}

/// The cams state after a poll: folded, then everyone no longer in voice
/// forgotten, so rejoining starts fresh.
pub open spec fn after_poll(t: Seq<CamPollEvent>, polled: Seq<CamPollEvent>, now: u64) -> Seq<
    CamPollEvent,
> {
    poll_all(t, polled, now).filter(|e: CamPollEvent| seen_in(polled, e))
}

/// Whether a cams camera is due: off, in a channel with a limit, and off
/// for strictly longer than that limit.
pub open spec fn is_due(e: CamPollEvent, timeouts: Map<u64, u64>, now: u64) -> bool {
    &&& e.status == CamStatus::Off
    &&& timeouts.contains_key(e.chan_id.0)
    &&& (if now >= e.last_change { now - e.last_change } else { 0 }) > timeouts[e.chan_id.0]
}

fn find_key(t: &Vec<CamPollEvent>, p: &CamPollEvent) -> (r: Option<usize>)
    ensures
        match r {
            Some(i) => i < t@.len() && same_key(t@[i as int], *p),
            None => !tracks_key(t@, *p),
        },
{
    let mut i: usize = 0;
    while i < t.len()
        invariant
            i <= t@.len(),
            forall|j: int| 0 <= j < i ==> !same_key(#[trigger] t@[j], *p),
        decreases t@.len() - i,
    {
        if t[i].user_id == p.user_id && t[i].chan_id == p.chan_id {
            return Some(i);
        }
        i = i + 1;
    }
    None
}

fn seen(polled: &Vec<CamPollEvent>, e: &CamPollEvent) -> (b: bool)
    ensures
        b == seen_in(polled@, *e),
{
    find_key(polled, e).is_some()
}

proof fn lemma_poll_one_unique(t: Seq<CamPollEvent>, p: CamPollEvent, now: u64)
    requires
        keys_unique(t),
    ensures
        keys_unique(poll_one(t, p, now)),
{
    let fresh = CamPollEvent { last_change: now, ..p };
    if tracks_key(t, p) {
        let i = key_index(t, p);
        let u = t.update(i, fresh);
        assert forall|a: int, b: int| 0 <= a < b < u.len() implies !same_key(
            #[trigger] u[a],
            #[trigger] u[b],
        ) by {
            if a == i {
                assert(!same_key(t[a], t[b]));
            } else if b == i {
                assert(!same_key(t[a], t[b]));
            }
        }
    } else {
        let u = t.push(fresh);
        assert forall|a: int, b: int| 0 <= a < b < u.len() implies !same_key(
            #[trigger] u[a],
            #[trigger] u[b],
        ) by {
            if b == t.len() {
                assert(!same_key(t[a], p));
            }
        }
    }
}

/// Fold one poll into the cams camera state, and return every cams user
/// whose camera has now been off for longer than their channel's rule allows.
///
/// An unchanged status keeps the time it was first seen; a change restarts the
/// clock; a user no longer in voice is forgotten. `timeouts` maps a channel id
/// to its limit in milliseconds; a channel without an entry has no rule.
pub fn apply_poll(
    cams: &mut Vec<CamPollEvent>,
    polled: Vec<CamPollEvent>,
    timeouts: &HashMap<u64, u64>,
    now: u64,
) -> (due: Vec<CamPollEvent>)
    requires
        keys_unique(old(cams)@),
    ensures
        final(cams)@ == after_poll(old(cams)@, polled@, now),
        keys_unique(final(cams)@),
        due@ == final(cams)@.filter(|e: CamPollEvent| is_due(e, timeouts@, now)),
{
    let mut i: usize = 0;
    while i < polled.len()
        invariant
            i <= polled@.len(),
            keys_unique(cams@),
            cams@ == poll_all(old(cams)@, polled@.take(i as int), now),
        decreases polled@.len() - i,
    {
        let p = polled[i];
        let ghost before = cams@;
        proof {
            lemma_poll_one_unique(before, p, now);
            assert(polled@.take(i + 1).drop_last() =~= polled@.take(i as int));
            assert(polled@.take(i + 1).last() == p);
        }
        match find_key(cams, &p) {
            Some(k) => {
                proof {
                    assert(tracks_key(before, p));
                    let c = key_index(before, p);
                    assert(same_key(before[c], p));
                    if c != k as int {
                        if c < k as int {
                            assert(!same_key(before[c], before[k as int]));
                        } else {
                            assert(!same_key(before[k as int], before[c]));
                        }
                    }
                }
                if cams[k].status != p.status {
                    cams.set(k, CamPollEvent { last_change: now, ..p });
                }
            },
            None => {
                cams.push(CamPollEvent { last_change: now, ..p });
            },
        }
        assert(cams@ =~= poll_one(before, p, now));
        i = i + 1;
    }
    assert(polled@.take(polled@.len() as int) =~= polled@);
    let ghost folded = cams@;
    let mut kept: Vec<CamPollEvent> = Vec::new();
    let mut j: usize = 0;
    while j < cams.len()
        invariant
            j <= cams@.len(),
            cams@ == folded,
            keys_unique(folded),
            kept@ == folded.take(j as int).filter(|e: CamPollEvent| seen_in(polled@, e)),
            keys_unique(kept@),
            forall|a: int|
                0 <= a < kept@.len() ==> exists|b: int| 0 <= b < j && #[trigger] kept@[a] == folded[b],
        decreases cams@.len() - j,
    {
        let e = cams[j];
        proof {
            assert forall|a: int| 0 <= a < kept@.len() implies !same_key(kept@[a], e) by {
                let b = choose|b: int| 0 <= b < j && kept@[a] == folded[b];
                assert(!same_key(folded[b], folded[j as int]));
            }
            assert(folded.take(j + 1).drop_last() =~= folded.take(j as int));
            reveal_with_fuel(Seq::filter, 1);
        }
        let ghost kept_before = kept@;
        if seen(&polled, &e) {
            kept.push(e);
            proof {
                assert forall|a: int|
                    0 <= a < kept@.len() implies exists|b: int| 0 <= b < j + 1 && #[trigger] kept@[a] == folded[b] by {
                    if a < kept_before.len() {
                        let b = choose|b: int| 0 <= b < j && kept_before[a] == folded[b];
                        assert(kept@[a] == folded[b]);
                    } else {
                        assert(kept@[a] == folded[j as int]);
                    }
                }
            }
        }
        j = j + 1;
    }
    assert(folded.take(folded.len() as int) =~= folded);
    *cams = kept;
    let mut due: Vec<CamPollEvent> = Vec::new();
    let mut k: usize = 0;
    while k < cams.len()
        invariant
            k <= cams@.len(),
            due@ == cams@.take(k as int).filter(|e: CamPollEvent| is_due(e, timeouts@, now)),
        decreases cams@.len() - k,
    {
        let e = cams[k];
        proof {
            assert(cams@.take(k + 1).drop_last() =~= cams@.take(k as int));
            reveal_with_fuel(Seq::filter, 1);
        }
        if e.status == CamStatus::Off {
            match timeouts.get(&e.chan_id.get()) {
                Some(limit) => {
                    let off_for = if now >= e.last_change { now - e.last_change } else { 0 };
                    if off_for > *limit {
                        due.push(e);
                    }
                },
                None => {},
            }
        }
        k = k + 1;
    }
    assert(cams@.take(cams@.len() as int) =~= cams@);
    due
}

} // verus!

verus! {

/// A camera whose status has not changed keeps the time it was first seen.
pub proof fn an_unchanged_status_keeps_its_clock(t: Seq<CamPollEvent>, p: CamPollEvent, now: u64)
    requires
        tracks_key(t, p),
        t[key_index(t, p)].status == p.status,
    ensures
        poll_one(t, p, now) == t,
{
}

/// A camera whose status changed starts its clock again at the poll.
pub proof fn a_status_change_restarts_the_clock(t: Seq<CamPollEvent>, p: CamPollEvent, now: u64)
    requires
        tracks_key(t, p),
        t[key_index(t, p)].status != p.status,
    ensures
        poll_one(t, p, now)[key_index(t, p)].last_change == now,
        poll_one(t, p, now)[key_index(t, p)].status == p.status,
        poll_one(t, p, now).len() == t.len(),
{
}

/// A camera seen for the first time starts its clock at the poll.
pub proof fn a_new_camera_starts_its_clock_at_the_poll(t: Seq<CamPollEvent>, p: CamPollEvent, now: u64)
    requires
        !tracks_key(t, p),
    ensures
        poll_one(t, p, now).last().last_change == now,
        poll_one(t, p, now).len() == t.len() + 1,
{
}

/// Whoever is no longer in voice is forgotten: everything tracked after a
/// poll was seen in that poll.
pub proof fn whoever_left_voice_is_forgotten(t: Seq<CamPollEvent>, polled: Seq<CamPollEvent>, now: u64)
    ensures
        forall|i: int|
            0 <= i < after_poll(t, polled, now).len() ==> seen_in(
                polled,
                #[trigger] after_poll(t, polled, now)[i],
            ),
{
    let all = poll_all(t, polled, now);
    let kept = all.filter(|e: CamPollEvent| seen_in(polled, e));
    assert forall|i: int| 0 <= i < kept.len() implies seen_in(polled, #[trigger] kept[i]) by {
        all.lemma_filter_pred(|e: CamPollEvent| seen_in(polled, e), i);
    }
}

/// Only a camera that is off, in a channel with a rule, and off for longer
/// than the rule allows is due; a camera that is on, or in a channel without
/// a rule, never is, and exactly reaching the limit is not yet past it.
pub proof fn only_an_overdue_camera_is_due(e: CamPollEvent, timeouts: Map<u64, u64>, now: u64)
    ensures
        is_due(e, timeouts, now) ==> e.status == CamStatus::Off && timeouts.contains_key(e.chan_id.0),
        e.status == CamStatus::On ==> !is_due(e, timeouts, now),
        !timeouts.contains_key(e.chan_id.0) ==> !is_due(e, timeouts, now),
        timeouts.contains_key(e.chan_id.0) && now >= e.last_change && now - e.last_change
            == timeouts[e.chan_id.0] ==> !is_due(e, timeouts, now),
{
}

} // verus!

verus! {

/// A guild's rule for one voice channel: cameras off there for longer than
/// `timeout` seconds are due, and what to say when acting on them.
#[derive(Debug, Clone)]
pub struct CamKickConfig {
    pub guild_id: u64,
    pub chan_id: u64,
    /// Seconds a camera may stay off.
    pub timeout: u64,
    pub msg_on_deafen: bool,
    pub msg_on_mute: bool,
    pub msg_on_dc: bool,
    pub dc_msg: String,
}

/// Whether some rule belongs to `guild`.
pub open spec fn has_rule(configs: Seq<CamKickConfig>, guild: GuildId) -> bool {
    exists|i: int| 0 <= i < configs.len() && #[trigger] configs[i].guild_id == guild.0
}

/// The guilds worth polling: those, in order, that some rule belongs to.
pub open spec fn ruled_guilds(guilds: Seq<GuildId>, configs: Seq<CamKickConfig>) -> Seq<GuildId> {
    guilds.filter(|g: GuildId| has_rule(configs, g))
}

fn rule_for_guild(configs: &Vec<CamKickConfig>, guild: GuildId) -> (r: bool)
    ensures
        r == has_rule(configs@, guild),
{
    let mut i: usize = 0;
    while i < configs.len()
        invariant
            i <= configs@.len(),
            forall|j: int| 0 <= j < i ==> configs@[j].guild_id != guild.0,
        decreases configs@.len() - i,
    {
        if configs[i].guild_id == guild.0 {
            return true;
        }
        i = i + 1;
    }
    false
}

/// The guilds worth polling: only those a rule exists for, in their order.
pub fn guilds_with_rules(guilds: &Vec<GuildId>, configs: &Vec<CamKickConfig>) -> (r: Vec<GuildId>)
    ensures
        r@ == ruled_guilds(guilds@, configs@),
{
    let mut out: Vec<GuildId> = Vec::new();
    let mut i: usize = 0;
    while i < guilds.len()
        invariant
            i <= guilds@.len(),
            out@ == ruled_guilds(guilds@.take(i as int), configs@),
        decreases guilds@.len() - i,
    {
        let g = guilds[i];
        proof {
            assert(guilds@.take(i + 1).drop_last() =~= guilds@.take(i as int));
            assert(guilds@.take(i + 1).last() == g);
            guilds@.take(i + 1).lemma_filter_len(|x: GuildId| has_rule(configs@, x));
        }
        if rule_for_guild(configs, g) {
            out.push(g);
        }
        proof {
            reveal_with_fuel(Seq::filter, 1);
            assert(out@ =~= ruled_guilds(guilds@.take(i + 1), configs@));
        }
        i = i + 1;
    }
    assert(guilds@.take(guilds@.len() as int) =~= guilds@);
    out
}

/// A rule's limit in milliseconds, saturating.
pub open spec fn limit_ms(secs: u64) -> u64 {
    if secs <= u64::MAX / 1000 {
        (secs * 1000) as u64
    } else {
        u64::MAX
    }
}

/// The limit per voice channel, in milliseconds; a later rule for the same
/// channel replaces an earlier one.
pub open spec fn timeouts_of(configs: Seq<CamKickConfig>) -> Map<u64, u64>
    decreases configs.len(),
{
    if configs.len() == 0 {
        Map::empty()
    } else {
        timeouts_of(configs.drop_last()).insert(configs.last().chan_id, limit_ms(configs.last().timeout))
    }
}

/// The limit per voice channel, in milliseconds, as [`apply_poll`] reads it.
pub fn rule_timeouts(configs: &Vec<CamKickConfig>) -> (r: HashMap<u64, u64>)
    ensures
        r@ == timeouts_of(configs@),
{
    let mut m: HashMap<u64, u64> = HashMap::new();
    let mut i: usize = 0;
    assert(m@ =~= timeouts_of(configs@.take(0)));
    while i < configs.len()
        invariant
            i <= configs@.len(),
            m@ == timeouts_of(configs@.take(i as int)),
        decreases configs@.len() - i,
    {
        let c = &configs[i];
        let ms: u64 = if c.timeout <= u64::MAX / 1000 {
            c.timeout * 1000
        } else {
            u64::MAX
        };
        m.insert(c.chan_id, ms);
        proof {
            assert(configs@.take(i + 1).drop_last() =~= configs@.take(i as int));
            assert(configs@.take(i + 1).last() == configs@[i as int]);
        }
        i = i + 1;
    }
    assert(configs@.take(configs@.len() as int) =~= configs@);
    m
}


/// A guild member's voice state as a camera poll reads it.
#[derive(Debug, Clone, Copy, PartialEq, Eq, Structural)]
pub struct VoiceSeen {
    pub user_id: UserId,
    /// The voice channel the member sits in, if any.
    pub channel: Option<ChannelId>,
    /// Whether the member's camera is on.
    pub self_video: bool,
}

/// The status a camera flag reads as.
pub open spec fn status_of(video: bool) -> CamStatus {
    if video {
        CamStatus::On
    } else {
        CamStatus::Off
    }
}

/// What a poll of one guild reports, in order: every member sitting in a
/// voice channel, with their camera status, seen at `now`.
pub open spec fn polled_of(guild: GuildId, states: Seq<VoiceSeen>, now: u64) -> Seq<CamPollEvent>
    decreases states.len(),
{
    if states.len() == 0 {
        Seq::empty()
    } else {
        let rest = polled_of(guild, states.drop_last(), now);
        let v = states.last();
        match v.channel {
            Some(c) => rest.push(
                CamPollEvent {
                    user_id: v.user_id,
                    guild_id: guild,
                    chan_id: c,
                    status: status_of(v.self_video),
                    last_change: now,
                },
            ),
            None => rest,
        }
    }
}

/// Reads one guild's voice states into poll events: members outside voice
/// are skipped.
pub fn poll_events(guild: GuildId, states: &Vec<VoiceSeen>, now: u64) -> (r: Vec<CamPollEvent>)
    ensures
        r@ == polled_of(guild, states@, now),
{
    let mut out: Vec<CamPollEvent> = Vec::new();
    let mut i: usize = 0;
    while i < states.len()
        invariant
            i <= states@.len(),
            out@ == polled_of(guild, states@.take(i as int), now),
        decreases states@.len() - i,
    {
        let v = states[i];
        proof {
            assert(states@.take(i + 1).drop_last() =~= states@.take(i as int));
            assert(states@.take(i + 1).last() == v);
        }
        match v.channel {
            Some(c) => {
                let status = if v.self_video {
                    CamStatus::On
                } else {
                    CamStatus::Off
                };
                out.push(
                    CamPollEvent { user_id: v.user_id, guild_id: guild, chan_id: c, status, last_change: now },
                );
            },
            None => {},
        }
        i = i + 1;
    }
    assert(states@.take(states@.len() as int) =~= states@);
    out
}

/// The position of the rule for voice channel `chan`: the last one naming
/// it, as a later rule replaces an earlier one.
pub open spec fn rule_index(configs: Seq<CamKickConfig>, chan: u64) -> Option<int>
    decreases configs.len(),
{
    if configs.len() == 0 {
        None
    } else if configs.last().chan_id == chan {
        Some(configs.len() - 1)
    } else {
        rule_index(configs.drop_last(), chan)
    }
}

/// Finds the rule for voice channel `chan`.
pub fn find_rule(configs: &Vec<CamKickConfig>, chan: u64) -> (r: Option<usize>)
    ensures
        match r {
            Some(i) => rule_index(configs@, chan) == Some(i as int),
            None => rule_index(configs@, chan) is None,
        },
{
    let mut i = configs.len();
    assert(configs@.take(i as int) =~= configs@);
    while i > 0
        invariant
            i <= configs@.len(),
            rule_index(configs@, chan) == rule_index(configs@.take(i as int), chan),
        decreases i,
    {
        proof {
            assert(configs@.take(i as int).drop_last() =~= configs@.take(i - 1));
        }
        if configs[i - 1].chan_id == chan {
            return Some(i - 1);
        }
        i = i - 1;
    }
    None
}

/// Who is acted on after a poll, with the position of the rule to act by:
/// every due camera whose channel has a rule, in order, and no one while
/// acting is switched off.
pub open spec fn targets_of(due: Seq<CamPollEvent>, configs: Seq<CamKickConfig>) -> Seq<
    (CamPollEvent, int),
>
    decreases due.len(),
{
    if !ENFORCE_CAMS || due.len() == 0 {
        Seq::empty()
    } else {
        let rest = targets_of(due.drop_last(), configs);
        match rule_index(configs, due.last().chan_id.0) {
            Some(i) => rest.push((due.last(), i)),
            None => rest,
        }
    }
}

/// Picks whom to act on among the due cameras, with their rules.
pub fn enforcement_targets(due: &Vec<CamPollEvent>, configs: &Vec<CamKickConfig>) -> (r: Vec<
    (CamPollEvent, usize),
>)
    ensures
        r@.len() == targets_of(due@, configs@).len(),
        forall|k: int|
            0 <= k < r@.len() ==> #[trigger] r@[k].0 == targets_of(due@, configs@)[k].0 && r@[k].1
                == targets_of(due@, configs@)[k].1,
{
    let mut out: Vec<(CamPollEvent, usize)> = Vec::new();
    if !ENFORCE_CAMS {
        return out;
    }
    let mut i: usize = 0;
    while i < due.len()
        invariant
            ENFORCE_CAMS,
            i <= due@.len(),
            out@.len() == targets_of(due@.take(i as int), configs@).len(),
            forall|k: int|
                0 <= k < out@.len() ==> #[trigger] out@[k].0 == targets_of(due@.take(i as int), configs@)[k].0
                    && out@[k].1 == targets_of(due@.take(i as int), configs@)[k].1,
        decreases due@.len() - i,
    {
        let cam = due[i];
        proof {
            assert(due@.take(i + 1).drop_last() =~= due@.take(i as int));
            assert(due@.take(i + 1).last() == cam);
        }
        match find_rule(configs, cam.chan_id.0) {
            Some(j) => out.push((cam, j)),
            None => {},
        }
        i = i + 1;
    }
    assert(due@.take(due@.len() as int) =~= due@);
    out
}

/// What acting on a member says: `<@user> message: deafen`.
pub open spec fn enforcement_notice(user: UserId, conf: CamKickConfig) -> Seq<char> {
    user_mention(user.0) + " "@ + conf.dc_msg@ + ": deafen"@
}

/// The notices to post after acting on a member, and whether to forget
/// their camera state. Both the deafen and the mute are reported under the
/// name "deafen", so each one that went through is announced when the rule
/// asks for deafen notices; any action that went through forgets the camera.
pub open spec fn enforcement_report(user: UserId, conf: CamKickConfig, deafened: bool, muted: bool) -> (
    Seq<Seq<char>>,
    bool,
) {
    let n = enforcement_notice(user, conf);
    let first = if deafened && conf.msg_on_deafen {
        seq![n]
    } else {
        Seq::empty()
    };
    let second = if muted && conf.msg_on_deafen {
        seq![n]
    } else {
        Seq::empty()
    };
    (first + second, deafened || muted)
}

fn enforcement_notice_text(user: UserId, conf: &CamKickConfig) -> (s: String)
    ensures
        s@ == enforcement_notice(user, *conf),
{
    let mut s = String::new();
    push_user_mention(&mut s, user.0);
    s.append(" ");
    s.append(conf.dc_msg.as_str());
    s.append(": deafen");
    proof {
        assert(s@ =~= enforcement_notice(user, *conf));
    }
    s
}

/// Given whether deafening and muting a member went through, the notices
/// to post in the rule's channel and whether to forget their camera state.
pub fn enforcement_notices(user: UserId, conf: &CamKickConfig, deafened: bool, muted: bool) -> (r: (
    Vec<String>,
    bool,
))
    ensures
        strings_view(r.0@) == enforcement_report(user, *conf, deafened, muted).0,
        r.1 == enforcement_report(user, *conf, deafened, muted).1,
{
    let mut out: Vec<String> = Vec::new();
    if deafened && conf.msg_on_deafen {
        out.push(enforcement_notice_text(user, conf));
    }
    if muted && conf.msg_on_deafen {
        out.push(enforcement_notice_text(user, conf));
    }
    proof {
        assert(strings_view(out@) =~= enforcement_report(user, *conf, deafened, muted).0);
    }
    (out, deafened || muted)
}


/// Enforcement ships switched off: whatever is due, no one is acted on.
pub proof fn no_one_is_acted_on_while_enforcement_is_off(
    due: Seq<CamPollEvent>,
    configs: Seq<CamKickConfig>,
)
    ensures
        targets_of(due, configs) == Seq::<(CamPollEvent, int)>::empty(),
{
}

} // verus!
