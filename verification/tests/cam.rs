use crack_core::cam::{
    apply_poll, enforcement_notices, enforcement_targets, find_rule, guilds_with_rules, poll_events,
    rule_timeouts, CamPollEvent, CamStatus, VoiceSeen, ENFORCE_CAMS,
};
use crack_core::ids::{ChannelId, GuildId, UserId};
use std::collections::HashMap;

#[test]
fn test_cam_status() {
    let on = CamStatus::On;
    let off = CamStatus::Off;
    assert_eq!(on, CamStatus::On);
    assert_eq!(off, CamStatus::Off);
}

#[test]
fn test_cam_status_display() {
    let on = CamStatus::On;
    let off = CamStatus::Off;
    assert_eq!(on.to_text(), "On");
    assert_eq!(off.to_text(), "Off");
}

#[test]
fn test_cam_status_from_bool() {
    let on = CamStatus::from(true);
    let off = CamStatus::from(false);
    assert_eq!(on, CamStatus::On);
    assert_eq!(off, CamStatus::Off);
}

#[test]
fn test_cam_poll_event_key() {
    let user_id = UserId::new(123);
    let chan_id = ChannelId::new(456);
    let cam = CamPollEvent {
        user_id,
        guild_id: GuildId::new(789),
        chan_id,
        status: CamStatus::On,
        last_change: 0,
    };
    assert_eq!(cam.key(), (user_id, chan_id));
}

const SEC: u64 = 1000;

fn cam(user: u64, chan: u64, status: CamStatus, at: u64) -> CamPollEvent {
    CamPollEvent {
        user_id: UserId::new(user),
        guild_id: GuildId::new(789),
        chan_id: ChannelId::new(chan),
        status,
        last_change: at,
    }
}

fn rule(chan: u64, secs: u64) -> HashMap<u64, u64> {
    HashMap::from([(chan, secs * SEC)])
}

#[test]
fn an_unchanged_status_keeps_the_time_it_was_first_seen() {
    let t0 = 5 * SEC;
    let rules = rule(10, 600);
    let mut cams = Vec::new();
    apply_poll(&mut cams, vec![cam(1, 10, CamStatus::Off, t0)], &rules, t0);
    let later = t0 + 120 * SEC;
    apply_poll(&mut cams, vec![cam(1, 10, CamStatus::Off, later)], &rules, later);
    let state = cams
        .iter()
        .find(|c| c.key() == (UserId::new(1), ChannelId::new(10)))
        .unwrap();
    assert_eq!(
        state.last_change, t0,
        "an unchanged Off must not restart its clock"
    );
}

#[test]
fn off_past_the_limit_is_due_and_on_never_is() {
    let t0 = 5 * SEC;
    let rules = rule(10, 60);
    let mut cams = Vec::new();
    let first = vec![cam(1, 10, CamStatus::Off, t0), cam(2, 10, CamStatus::On, t0)];
    assert!(
        apply_poll(&mut cams, first, &rules, t0).is_empty(),
        "nobody is past the limit yet"
    );
    let t1 = t0 + 61 * SEC;
    let second = vec![cam(1, 10, CamStatus::Off, t1), cam(2, 10, CamStatus::On, t1)];
    let due: Vec<u64> = apply_poll(&mut cams, second, &rules, t1)
        .iter()
        .map(|c| c.user_id.get())
        .collect();
    assert_eq!(due, vec![1], "only the camera that stayed off is due");
}

#[test]
fn exactly_at_the_limit_is_not_yet_due() {
    let t0 = 5 * SEC;
    let rules = rule(10, 60);
    let mut cams = Vec::new();
    apply_poll(&mut cams, vec![cam(1, 10, CamStatus::Off, t0)], &rules, t0);
    let at = t0 + 60 * SEC;
    assert!(apply_poll(&mut cams, vec![cam(1, 10, CamStatus::Off, at)], &rules, at).is_empty());
}

#[test]
fn a_status_change_restarts_the_clock() {
    let t0 = 5 * SEC;
    let rules = rule(10, 60);
    let mut cams = Vec::new();
    apply_poll(&mut cams, vec![cam(1, 10, CamStatus::Off, t0)], &rules, t0);
    let t1 = t0 + 50 * SEC;
    apply_poll(&mut cams, vec![cam(1, 10, CamStatus::On, t1)], &rules, t1);
    let t2 = t0 + 55 * SEC;
    apply_poll(&mut cams, vec![cam(1, 10, CamStatus::Off, t2)], &rules, t2);
    let t3 = t0 + 70 * SEC;
    assert!(
        apply_poll(&mut cams, vec![cam(1, 10, CamStatus::Off, t3)], &rules, t3).is_empty(),
        "the clock restarted when the camera came back on"
    );
}

#[test]
fn a_channel_without_a_rule_is_never_due() {
    let t0 = 5 * SEC;
    let rules = rule(10, 0);
    let mut cams = Vec::new();
    apply_poll(&mut cams, vec![cam(1, 99, CamStatus::Off, t0)], &rules, t0);
    let later = t0 + 3600 * SEC;
    assert!(apply_poll(&mut cams, vec![cam(1, 99, CamStatus::Off, later)], &rules, later).is_empty());
}

#[test]
fn a_user_who_left_voice_is_forgotten() {
    let t0 = 5 * SEC;
    let rules = rule(10, 60);
    let mut cams = Vec::new();
    apply_poll(&mut cams, vec![cam(1, 10, CamStatus::Off, t0)], &rules, t0);
    apply_poll(&mut cams, vec![], &rules, t0 + 30 * SEC);
    assert!(cams.is_empty(), "left voice, so no stale clock survives");
    let t2 = t0 + 31 * SEC;
    apply_poll(&mut cams, vec![cam(1, 10, CamStatus::Off, t2)], &rules, t2);
    let t3 = t0 + 61 * SEC;
    assert!(apply_poll(&mut cams, vec![cam(1, 10, CamStatus::Off, t3)], &rules, t3).is_empty());
}

#[test]
fn camera_enforcement_ships_switched_off() {
    assert!(!ENFORCE_CAMS);
}

#[test]
fn a_camera_off_past_its_limit_stays_due_until_it_comes_back_on() {
    let rules = rule(10, 10);
    let mut cams = Vec::new();
    apply_poll(&mut cams, vec![cam(4, 10, CamStatus::Off, 0)], &rules, 0);
    assert_eq!(apply_poll(&mut cams, vec![cam(4, 10, CamStatus::Off, 11 * SEC)], &rules, 11 * SEC).len(), 1);
    assert_eq!(apply_poll(&mut cams, vec![cam(4, 10, CamStatus::Off, 12 * SEC)], &rules, 12 * SEC).len(), 1);
    assert!(apply_poll(&mut cams, vec![cam(4, 10, CamStatus::On, 13 * SEC)], &rules, 13 * SEC).is_empty());
    assert_eq!(cams[0].last_change, 13 * SEC);
}

fn kick_rule(guild: u64, chan: u64, timeout: u64) -> crack_core::cam::CamKickConfig {
    crack_core::cam::CamKickConfig {
        guild_id: guild,
        chan_id: chan,
        timeout,
        msg_on_deafen: false,
        msg_on_mute: false,
        msg_on_dc: false,
        dc_msg: String::new(),
    }
}

#[test]
fn only_guilds_with_a_rule_are_polled() {
    let guilds = vec![GuildId(1), GuildId(2), GuildId(3)];
    let rules = vec![kick_rule(3, 30, 60), kick_rule(1, 10, 60)];
    assert_eq!(guilds_with_rules(&guilds, &rules), vec![GuildId(1), GuildId(3)]);
    assert!(guilds_with_rules(&guilds, &vec![]).is_empty());
}

#[test]
fn a_rules_limit_is_kept_in_milliseconds_and_the_last_rule_wins() {
    let t = rule_timeouts(&vec![kick_rule(1, 10, 60), kick_rule(1, 20, 5), kick_rule(1, 10, 2)]);
    assert_eq!(t.get(&10), Some(&2000));
    assert_eq!(t.get(&20), Some(&5000));
    assert_eq!(t.len(), 2);
    let t = rule_timeouts(&vec![kick_rule(1, 10, u64::MAX)]);
    assert_eq!(t.get(&10), Some(&u64::MAX));
}

#[test]
fn a_poll_reports_members_in_voice_with_their_camera() {
    let states = vec![
        VoiceSeen { user_id: UserId(1), channel: Some(ChannelId(10)), self_video: true },
        VoiceSeen { user_id: UserId(2), channel: None, self_video: true },
        VoiceSeen { user_id: UserId(3), channel: Some(ChannelId(11)), self_video: false },
    ];
    let polled = poll_events(GuildId(7), &states, 500);
    assert_eq!(polled.len(), 2);
    assert_eq!(polled[0].user_id, UserId(1));
    assert_eq!(polled[0].status, CamStatus::On);
    assert_eq!(polled[0].guild_id, GuildId(7));
    assert_eq!(polled[1].chan_id, ChannelId(11));
    assert_eq!(polled[1].status, CamStatus::Off);
    assert_eq!(polled[1].last_change, 500);
}

#[test]
fn a_channels_rule_is_its_last_one() {
    let rules = vec![kick_rule(1, 10, 60), kick_rule(1, 20, 5), kick_rule(1, 10, 2)];
    assert_eq!(find_rule(&rules, 10), Some(2));
    assert_eq!(find_rule(&rules, 20), Some(1));
    assert_eq!(find_rule(&rules, 30), None);
}

#[test]
fn nobody_is_targeted_while_enforcement_is_off() {
    let due = vec![CamPollEvent {
        user_id: UserId(1),
        guild_id: GuildId(1),
        chan_id: ChannelId(10),
        status: CamStatus::Off,
        last_change: 0,
    }];
    assert!(enforcement_targets(&due, &vec![kick_rule(1, 10, 60)]).is_empty());
}

#[test]
fn each_action_that_went_through_is_announced_as_a_deafen() {
    let mut rule = kick_rule(1, 10, 60);
    rule.msg_on_deafen = true;
    rule.dc_msg = "cameras on please".to_string();
    let (notices, forget) = enforcement_notices(UserId(5), &rule, true, true);
    assert_eq!(notices, vec!["<@5> cameras on please: deafen", "<@5> cameras on please: deafen"]);
    assert!(forget);

    rule.msg_on_deafen = false;
    rule.msg_on_mute = true;
    let (quiet, forget) = enforcement_notices(UserId(5), &rule, false, true);
    assert!(quiet.is_empty());
    assert!(forget);

    let (none, keep) = enforcement_notices(UserId(5), &rule, false, false);
    assert!(none.is_empty());
    assert!(!keep);
}
