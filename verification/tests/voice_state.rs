use crack_core::event_log::{log_voice_state_update, LoggedUser};
use crack_core::ids::{ChannelId, GuildId, UserId};
use crack_core::voice_state::{
    bot_voice_step, messages_to_delete, should_self_deafen, voice_state_diff_str, BotVoiceStep,
    VoiceDiffFailure, VoiceMember, VoiceStateView,
};

fn state(channel: Option<u64>) -> VoiceStateView {
    VoiceStateView {
        guild_id: Some(GuildId(1)),
        guild_id_text: "Some(GuildId(1))".to_string(),
        channel_id: channel.map(ChannelId),
        member: Some(VoiceMember {
            user_id: UserId(7),
            name: "ann".to_string(),
        }),
        deaf: false,
        mute: false,
        self_deaf: false,
        self_mute: false,
        self_stream: None,
        self_video: false,
        suppress: false,
        session_id: "s1".to_string(),
        session_id_text: "\"s1\"".to_string(),
        user_id: UserId(7),
        user_id_text: "UserId(7)".to_string(),
        request_to_speak: None,
        request_to_speak_text: "None".to_string(),
    }
}

#[test]
fn a_first_state_is_a_join() {
    let new = state(Some(5));
    assert_eq!(
        voice_state_diff_str(None, &new, true, true).unwrap(),
        "Member joined voice channel\nann joined <#5>"
    );
    assert_eq!(
        voice_state_diff_str(None, &new, true, false).unwrap(),
        "Member joined voice channel\nann joined unknown channel"
    );
}

#[test]
fn leaving_and_joining_name_the_channel() {
    let old = state(Some(5));
    let new = state(None);
    assert_eq!(
        voice_state_diff_str(Some(&old), &new, true, true).unwrap(),
        "Member left voice channel\n<@7> left <#5>\n"
    );
    assert_eq!(
        voice_state_diff_str(Some(&old), &new, false, true),
        Err(VoiceDiffFailure::OldChannel)
    );
    assert_eq!(
        voice_state_diff_str(Some(&new), &old, true, true).unwrap(),
        "Member joined voice channel\nann joined <#5>\n"
    );
}

#[test]
fn a_switch_lists_the_changed_flags_after_it() {
    let old = state(Some(5));
    let mut new = state(Some(6));
    new.self_mute = true;
    new.self_video = true;
    assert_eq!(
        voice_state_diff_str(Some(&old), &new, true, true).unwrap(),
        "Switched voice channels: <#5> -> <#6>\n<@7> muted themselves\n<@7> turned on their camera\n"
    );
    assert_eq!(
        voice_state_diff_str(Some(&old), &new, true, false),
        Err(VoiceDiffFailure::NewChannel)
    );
}

#[test]
fn nothing_changed_says_nothing() {
    let old = state(Some(5));
    assert_eq!(voice_state_diff_str(Some(&old), &old, true, true).unwrap(), "");
}

#[test]
fn a_state_without_any_member_cannot_be_described() {
    let mut old = state(Some(5));
    old.member = None;
    let mut new = state(Some(5));
    new.member = None;
    new.deaf = true;
    assert_eq!(
        voice_state_diff_str(Some(&old), &new, true, true),
        Err(VoiceDiffFailure::NoMember)
    );
}

#[test]
fn value_changes_show_their_printed_forms() {
    let old = state(None);
    let mut new = state(None);
    new.session_id = "s2".to_string();
    new.session_id_text = "\"s2\"".to_string();
    new.suppress = true;
    new.self_stream = Some(true);
    assert_eq!(
        voice_state_diff_str(Some(&old), &new, true, true).unwrap(),
        "<@7> started streaming\nsession_id: \"s1\" -> \"s2\"\nsuppress: false -> true\n"
    );
}

#[test]
fn only_the_bots_own_voice_state_is_acted_on() {
    let bot = UserId(1);
    assert_eq!(bot_voice_step(UserId(2), bot, true, Some(false)), BotVoiceStep::Ignore);
    assert_eq!(bot_voice_step(bot, bot, true, Some(false)), BotVoiceStep::Deafen);
    assert_eq!(bot_voice_step(bot, bot, true, Some(true)), BotVoiceStep::Ignore);
    assert_eq!(bot_voice_step(bot, bot, true, None), BotVoiceStep::Ignore);
    assert_eq!(bot_voice_step(bot, bot, false, Some(false)), BotVoiceStep::LeaveAndDiscardGame);
}

#[test]
fn the_bot_deafens_itself_only_when_nothing_else_decides() {
    assert!(should_self_deafen(false, UserId(1), UserId(1), false));
    assert!(!should_self_deafen(true, UserId(1), UserId(1), false));
    assert!(!should_self_deafen(false, UserId(1), UserId(1), true));
    assert!(!should_self_deafen(false, UserId(1), UserId(2), false));
}

#[test]
fn only_messages_past_the_timeout_are_deleted() {
    let msgs = vec![(100i64, 'a'), (900, 'b'), (400, 'c')];
    assert_eq!(messages_to_delete(&msgs, 1000, 600), vec![(100, 'a')]);
    assert_eq!(messages_to_delete(&msgs, 1000, 599), vec![(100, 'a'), (400, 'c')]);
    assert!(messages_to_delete(&msgs, 1000, 1000).is_empty());
}

#[test]
fn a_voice_state_change_is_logged_under_the_members_name() {
    let user = LoggedUser {
        name: "ann".to_string(),
        id: UserId(7),
        avatar_url: Some("a.png".to_string()),
        bot: false,
    };
    let t = log_voice_state_update(&user, None, &state(Some(5)), true, true).unwrap();
    assert_eq!(t.title, "Voice State Update: ann");
    assert_eq!(t.description, "Member joined voice channel\nann joined <#5>");
    assert_eq!(t.id, "7");
    assert_eq!(t.avatar_url, "a.png");
}
