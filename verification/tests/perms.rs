use crack_core::errors::{CrackedError, PermScope};
use crack_core::ids::{ChannelId, GenericChannelId, GuildId, RoleId, UserId};
use crack_core::perms::{
    dm_permissions,
    classify_join, classify_voice, compute, ensure_can_join, join_lookup, join_refusal, resolve,
    roles_resolvable, text_required, unreadable_refusal, voice_refusal, voice_required,
    ChannelGrant, GuildFacts, JoinLookup, Permissions, VoiceCheck, VoiceSeat,
};

fn text_ch() -> GenericChannelId {
    GenericChannelId::new(1)
}
fn voice_ch() -> ChannelId {
    ChannelId::new(2)
}

#[test]
fn everything_granted_is_whole_and_joinable() {
    let p = compute(
        text_ch(),
        text_required(),
        VoiceCheck::resolved(voice_ch(), voice_required()),
    );
    assert!(p.text.is_whole());
    assert!(p.text.missing().is_empty());
    let v = p.voice.perms().expect("voice was supplied");
    assert!(v.can_join());
    assert!(v.missing().is_empty());
}

#[test]
fn a_missing_speak_blocks_the_join_and_names_only_speak() {
    let granted = voice_required() - Permissions::speak();
    let p = compute(
        text_ch(),
        text_required(),
        VoiceCheck::resolved(voice_ch(), granted),
    );
    let v = p.voice.perms().expect("voice was supplied");
    assert!(!v.can_join());
    assert_eq!(v.missing(), Permissions::speak());
    assert!(
        v.connect(),
        "CONNECT was granted and must not be reported missing"
    );
    assert!(!v.speak());
}

#[test]
fn both_voice_perms_missing_are_reported_together() {
    let p = compute(
        text_ch(),
        text_required(),
        VoiceCheck::resolved(voice_ch(), Permissions::empty()),
    );
    let v = p.voice.perms().expect("voice was supplied");
    assert_eq!(v.missing(), voice_required());
    let rendered = v.missing().names();
    assert!(rendered.contains("Connect"), "got {rendered}");
    assert!(rendered.contains("Speak"), "got {rendered}");
}

#[test]
fn a_missing_embed_links_degrades_text_but_leaves_voice_joinable() {
    let granted = text_required() - Permissions::embed_links();
    let p = compute(
        text_ch(),
        granted,
        VoiceCheck::resolved(voice_ch(), voice_required()),
    );
    assert!(!p.text.is_whole());
    assert_eq!(p.text.missing(), Permissions::embed_links());
    assert!(p.text.view() && p.text.send() && !p.text.embed());
    assert!(p.voice.perms().expect("voice was supplied").can_join());
}

#[test]
fn no_voice_channel_is_its_own_state_not_a_denial() {
    let p = compute(text_ch(), text_required(), VoiceCheck::NotInVoice);
    assert_eq!(p.voice, VoiceCheck::NotInVoice);
    assert!(p.voice.perms().is_none());
    assert!(p.text.is_whole());
}

#[test]
fn an_unseeable_voice_channel_is_not_the_same_state_as_no_voice_channel() {
    let unreadable = compute(text_ch(), text_required(), VoiceCheck::Unreadable(voice_ch()));
    let absent = compute(text_ch(), text_required(), VoiceCheck::NotInVoice);
    assert!(unreadable.voice.perms().is_none());
    assert!(absent.voice.perms().is_none());
    assert_ne!(unreadable.voice, absent.voice);
    assert_eq!(unreadable.voice, VoiceCheck::Unreadable(voice_ch()));
}

#[test]
fn a_channel_we_cannot_see_earns_a_view_channel_refusal_and_names_nothing_else() {
    let err = unreadable_refusal(voice_ch());
    match &err {
        CrackedError::MissingBotPermissions {
            scope,
            channel,
            missing,
        } => {
            assert_eq!(*scope, PermScope::Voice);
            assert_eq!(*channel, voice_ch().widen());
            assert_eq!(*missing, Permissions::view_channel());
        },
        other => panic!("expected MissingBotPermissions, got {other:?}"),
    }
    let rendered = err.to_text();
    assert!(rendered.contains("View Channel"), "got {rendered}");
    assert!(
        rendered.contains(&format!("<#{}>", voice_ch().get())),
        "must name the channel: {rendered}"
    );
    assert!(
        !rendered.contains("Connect"),
        "Connect is unknown, not missing: {rendered}"
    );
    assert!(
        !rendered.contains("Speak"),
        "Speak is unknown, not missing: {rendered}"
    );
}

#[test]
fn no_voice_channel_classifies_as_not_in_voice() {
    let got = classify_voice(
        None,
        |_| panic!("nothing to look up"),
        |_| panic!("nothing to look up"),
    );
    assert_eq!(got, VoiceCheck::NotInVoice);
}

#[test]
fn a_channel_the_guild_does_not_list_classifies_as_unreadable() {
    let got = classify_voice(Some(voice_ch()), |_| false, |_| voice_required());
    assert_eq!(
        got,
        VoiceCheck::Unreadable(voice_ch()),
        "a channel we cannot see is not the same as no channel"
    );
    assert_ne!(
        got,
        VoiceCheck::NotInVoice,
        "collapsing these two is the bug this state exists to prevent"
    );
    match got {
        VoiceCheck::Unreadable(cid) => assert_eq!(cid, voice_ch(), "the id must survive"),
        other => panic!("expected Unreadable, got {other:?}"),
    }
}

#[test]
fn a_channel_the_guild_lists_classifies_as_resolved_carrying_its_bitset() {
    let granted = voice_required() - Permissions::speak();
    let got = classify_voice(Some(voice_ch()), |_| true, |_| granted);
    let v = got.perms().expect("a known channel resolves");
    assert_eq!(v.channel, voice_ch());
    assert_eq!(v.granted, granted);
    assert_eq!(v.missing(), Permissions::speak());
}

#[test]
fn granted_in_is_not_consulted_for_a_channel_we_cannot_see() {
    let got = classify_voice(
        Some(voice_ch()),
        |_| false,
        |_| panic!("granted_in must not be asked about a channel we cannot see"),
    );
    assert_eq!(got, VoiceCheck::Unreadable(voice_ch()));
}

#[test]
fn an_unreadable_guild_classifies_a_join_as_unknown() {
    let got = classify_join(
        voice_ch(),
        false,
        |_| panic!("nothing to look up"),
        |_| panic!("nothing to look up"),
    );
    assert_eq!(got, JoinLookup::Unknown, "fail open on genuine ignorance");
}

#[test]
fn a_join_target_the_guild_does_not_list_classifies_as_withheld() {
    let got = classify_join(voice_ch(), true, |_| false, |_| voice_required());
    assert_eq!(got, JoinLookup::Withheld);
    assert_ne!(got, JoinLookup::Unknown, "this is information, not a gap");
}

#[test]
fn a_join_target_the_guild_lists_classifies_as_granted_bit_exactly() {
    let granted = voice_required() - Permissions::connect();
    let got = classify_join(voice_ch(), true, |_| true, |_| granted);
    assert_eq!(got, JoinLookup::Granted(granted));
}

#[test]
fn a_role_the_cache_does_not_have_makes_the_bitset_untrustworthy() {
    let gid = GuildId::new(10);
    let everyone = RoleId::new(10);
    let extra = RoleId::new(11);
    let known = [everyone, extra];

    assert!(
        roles_resolvable(gid, &[extra], |r| known.contains(&r)),
        "every role resolves, so the bitset can be trusted"
    );
    assert!(
        !roles_resolvable(gid, &[RoleId::new(99)], |r| known.contains(&r)),
        "an unknown bot role must not be silently treated as no permissions"
    );
}

#[test]
fn a_missing_everyone_role_makes_the_bitset_untrustworthy() {
    let gid = GuildId::new(10);
    assert!(!roles_resolvable(gid, &[], |_| false));
    assert!(roles_resolvable(gid, &[], |r| r == RoleId::new(10)));
}

#[test]
fn everything_granted_earns_no_refusal() {
    assert!(voice_refusal(voice_ch(), voice_required()).is_none());
}

#[test]
fn missing_speak_only_is_named_bit_exactly() {
    let granted = voice_required() - Permissions::speak();
    let err = voice_refusal(voice_ch(), granted).expect("SPEAK is missing");
    match err {
        CrackedError::MissingBotPermissions {
            scope,
            channel,
            missing,
        } => {
            assert_eq!(scope, PermScope::Voice);
            assert_eq!(channel, voice_ch().widen());
            assert_eq!(missing, Permissions::speak());
        },
        other => panic!("expected MissingBotPermissions, got {other:?}"),
    }
}

#[test]
fn missing_connect_only_is_named_bit_exactly() {
    let granted = voice_required() - Permissions::connect();
    let err = voice_refusal(voice_ch(), granted).expect("CONNECT is missing");
    match err {
        CrackedError::MissingBotPermissions {
            scope,
            channel,
            missing,
        } => {
            assert_eq!(scope, PermScope::Voice);
            assert_eq!(channel, voice_ch().widen());
            assert_eq!(missing, Permissions::connect());
        },
        other => panic!("expected MissingBotPermissions, got {other:?}"),
    }
}

#[test]
fn both_missing_are_named_together_and_the_channel_is_in_the_message() {
    let err = voice_refusal(voice_ch(), Permissions::empty()).expect("both perms are missing");
    match &err {
        CrackedError::MissingBotPermissions {
            scope,
            channel,
            missing,
        } => {
            assert_eq!(*scope, PermScope::Voice);
            assert_eq!(*channel, voice_ch().widen());
            assert_eq!(*missing, voice_required());
        },
        other => panic!("expected MissingBotPermissions, got {other:?}"),
    }
    let rendered = err.to_text();
    assert!(rendered.contains("Connect"), "got {rendered}");
    assert!(rendered.contains("Speak"), "got {rendered}");
    assert!(
        rendered.contains(&format!("<#{}>", voice_ch().get())),
        "must name the channel: {rendered}"
    );
}

#[test]
fn an_unknown_lookup_refuses_nothing() {
    assert!(join_refusal(voice_ch(), JoinLookup::Unknown).is_none());
}

#[test]
fn a_withheld_channel_refuses_the_join_instead_of_waving_it_through() {
    let err = join_refusal(voice_ch(), JoinLookup::Withheld)
        .expect("a channel Discord withheld must not be waved through");
    match err {
        CrackedError::MissingBotPermissions { missing, .. } => {
            assert_eq!(missing, Permissions::view_channel());
        },
        other => panic!("expected MissingBotPermissions, got {other:?}"),
    }
}

#[test]
fn a_granted_lookup_defers_to_the_voice_bitset() {
    assert!(join_refusal(voice_ch(), JoinLookup::Granted(voice_required())).is_none());
    let err = join_refusal(
        voice_ch(),
        JoinLookup::Granted(voice_required() - Permissions::connect()),
    )
    .expect("CONNECT is missing");
    match err {
        CrackedError::MissingBotPermissions { missing, .. } => {
            assert_eq!(missing, Permissions::connect());
        },
        other => panic!("expected MissingBotPermissions, got {other:?}"),
    }
}

#[test]
fn the_gate_fails_open_when_the_cache_is_empty() {
    let res = ensure_can_join(None, GuildId::new(1), voice_ch());
    assert!(
        res.is_ok(),
        "a cache miss must not refuse a join: {:?}",
        res.err().map(|e| e.to_text())
    );
}

#[test]
fn resolving_an_uncached_guild_yields_none() {
    let got = resolve(None, GuildId::new(1), text_ch(), UserId::new(7));
    assert!(got.is_none(), "an uncached guild has no answer to give");
}

fn cached_guild(voice_granted: Permissions, author_seat: Option<ChannelId>) -> GuildFacts {
    GuildFacts {
        bot_roles: Some(vec![RoleId::new(11)]),
        roles: vec![RoleId::new(10), RoleId::new(11)],
        channels: vec![
            ChannelGrant { channel: 1, granted: text_required() },
            ChannelGrant { channel: 2, granted: voice_granted },
        ],
        voice_seats: vec![VoiceSeat { user: UserId::new(7), channel: author_seat }],
    }
}

#[test]
fn a_cached_guild_resolves_text_and_the_authors_voice_channel() {
    let guild = cached_guild(voice_required() - Permissions::speak(), Some(voice_ch()));
    let got = resolve(Some(&guild), GuildId::new(10), text_ch(), UserId::new(7)).expect("cached");
    assert!(got.text.is_whole());
    assert_eq!(got.voice.perms().unwrap().missing(), Permissions::speak());
    let elsewhere = cached_guild(voice_required(), Some(ChannelId::new(3)));
    let got = resolve(Some(&elsewhere), GuildId::new(10), text_ch(), UserId::new(7)).unwrap();
    assert_eq!(got.voice, VoiceCheck::Unreadable(ChannelId::new(3)));
    let nobody = resolve(Some(&elsewhere), GuildId::new(10), text_ch(), UserId::new(8)).unwrap();
    assert_eq!(nobody.voice, VoiceCheck::NotInVoice);
}

#[test]
fn the_gate_refuses_what_a_cached_guild_withholds_or_denies() {
    let guild = cached_guild(voice_required() - Permissions::connect(), None);
    assert_eq!(join_lookup(Some(&guild), GuildId::new(10), ChannelId::new(3)), JoinLookup::Withheld);
    match ensure_can_join(Some(&guild), GuildId::new(10), voice_ch()) {
        Err(CrackedError::MissingBotPermissions { missing, .. }) => {
            assert_eq!(missing, Permissions::connect())
        },
        other => panic!("expected a refusal, got {other:?}"),
    }
    let open = cached_guild(voice_required(), None);
    assert!(ensure_can_join(Some(&open), GuildId::new(10), voice_ch()).is_ok());
    // An unresolvable role means the bitset cannot be trusted: fail open.
    let mut unknown_role = cached_guild(Permissions::empty(), None);
    unknown_role.bot_roles = Some(vec![RoleId::new(99)]);
    assert_eq!(join_lookup(Some(&unknown_role), GuildId::new(10), voice_ch()), JoinLookup::Unknown);
    assert!(ensure_can_join(Some(&unknown_role), GuildId::new(10), voice_ch()).is_ok());
}

#[test]
fn permission_names_follow_discords_order() {
    assert_eq!(text_required().names(), "View Channel, Send Messages, Embed Links");
    assert_eq!(voice_required().names(), "Connect, Speak");
    assert_eq!(Permissions::empty().names(), "");
}

#[test]
fn outside_a_guild_an_author_may_write_but_not_manage_or_speak_aloud() {
    let p = dm_permissions();
    assert_eq!(p.bits, 0x7c_8007_c840);
    assert!(p.bits & 0x800 != 0);
    assert!(p.bits & 0x1000 == 0);
    assert!(p.bits & 0x2000 == 0);
}
