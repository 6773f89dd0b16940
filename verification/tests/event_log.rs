use crack_core::event_log::{
    guild_role_diff, guild_role_to_string, log_channel_delete, log_guild_ban, log_guild_create,
    log_guild_delete_event, log_guild_role, log_guild_role_update, log_message, log_message_delete,
    log_message_update, log_reaction, log_typing_start, log_user_update, LogText, LoggedGuild,
    LoggedMessage, LoggedUser, Role, get_channel_id, LogSettings, log_guild_membership,
    log_command_permissions_update, log_guild_member_update, message_event_plan, message_update_by_bot, MemberSnapshot,
};
use crack_core::errors::CrackedError;
use crack_core::ids::{ChannelId, GuildId, MessageId, RoleId, UserId};

fn role() -> Role {
    Role {
        name: "DJ".to_string(),
        id: RoleId(5),
        colour: 0xff0000,
        colour_text: "Colour(16711680)".to_string(),
        hoist: false,
        mentionable: true,
        permissions: 8,
        permissions_text: "ADMINISTRATOR".to_string(),
        position: 3,
    }
}

#[test]
fn a_role_is_described_field_by_field() {
    assert_eq!(
        guild_role_to_string(&role()),
        "Role: DJ\nID: 5\nColor: Colour(16711680)\nHoist: false\nMentionable: true\nPermissions: ADMINISTRATOR\nPosition: 3\n"
    );
}

#[test]
fn a_role_diff_names_only_what_changed() {
    let old = role();
    assert_eq!(guild_role_diff(&old, &old), "");
    let mut new = role();
    new.name = "Host".to_string();
    new.hoist = true;
    new.position = 10;
    assert_eq!(
        guild_role_diff(&old, &new),
        "Name: DJ -> Host\nHoist: false -> true\nPosition: 3 -> 10\n"
    );
}

fn user(name: &str, id: u64, avatar: Option<&str>, bot: bool) -> LoggedUser {
    LoggedUser { name: name.to_string(), id: UserId(id), avatar_url: avatar.map(str::to_string), bot }
}

fn message(author: LoggedUser, content: &str) -> LoggedMessage {
    LoggedMessage { author, channel_id: ChannelId(30), content: content.to_string() }
}

fn parts(t: &LogText) -> (&str, &str, &str, &str) {
    (t.id.as_str(), t.title.as_str(), t.description.as_str(), t.avatar_url.as_str())
}

#[test]
fn an_edited_message_is_logged_with_both_contents() {
    let old = Some(message(user("ann", 7, Some("https://a/7.png"), false), "before"));
    let new = Some(message(user("ann", 7, Some("https://a/7.png"), false), "after"));
    let t = log_message_update(&old, &new, &None, MessageId(99), ChannelId(1)).unwrap();
    assert_eq!(
        parts(&t),
        (
            "7",
            "Message Updated: ann",
            "User: ann\nID: 7\nChannel: 30\nOld Message: before\nNew Message: after",
            "https://a/7.png"
        )
    );
    let only_new = log_message_update(&None, &new, &None, MessageId(99), ChannelId(1)).unwrap();
    assert!(only_new.description.ends_with("Old Message: None\nNew Message: after"));
    let only_old = log_message_update(&old, &None, &None, MessageId(99), ChannelId(1)).unwrap();
    assert!(only_old.description.ends_with("Old Message: before\nNew Message: None"));
}

#[test]
fn an_edit_with_nothing_cached_falls_back_to_its_author_then_its_id() {
    let author = Some(user("bob", 8, None, false));
    let t = log_message_update(&None, &None, &author, MessageId(99), ChannelId(1)).unwrap();
    assert_eq!(
        t.description,
        "User: bob\nID: 8\nChannel: 1\nOld Message: None\nNew Message: None"
    );
    let bare = log_message_update(&None, &None, &None, MessageId(99), ChannelId(1)).unwrap();
    assert_eq!(parts(&bare), ("", "Message Updated", "99", ""));
}

#[test]
fn a_bots_edit_is_not_logged() {
    let author = Some(user("robot", 9, None, true));
    let new = Some(message(user("robot", 9, None, true), "x"));
    assert!(log_message_update(&None, &new, &author, MessageId(1), ChannelId(1)).is_none());
}

#[test]
fn new_messages_typing_and_bans_are_logged_by_user() {
    let m = message(user("ann", 7, None, false), "hi");
    assert_eq!(
        parts(&log_message(&m)),
        ("7", "Message: ann", "User: ann\nID: 7\nChannel: 30\nMessage: hi", "")
    );
    let typing = log_typing_start(&user("ann", 7, None, false), ChannelId(31));
    assert_eq!(parts(&typing), ("7", "Typing Start: 7", "User: ann\nID: 7\nChannel: 31", ""));
    let ban = log_guild_ban(true, &user("ann", 7, Some("u"), false));
    assert_eq!(parts(&ban), ("7", "Member Banned: ann", "", "u"));
    assert_eq!(log_guild_ban(false, &user("ann", 7, None, false)).title, "Member Unbanned: ann");
}

#[test]
fn a_user_update_notes_an_avatar_change_first() {
    let old = Some(user("old", 1, Some("a1"), false));
    let changed = log_user_update(&old, &user("new", 1, Some("a2"), false));
    assert_eq!(parts(&changed), ("1", "User Updated: new", "Avatar Updated: new", "a2"));
    let renamed = log_user_update(&old, &user("new", 1, Some("a1"), false));
    assert_eq!(renamed.description, "Old User: old\nNew User: new");
    let first = log_user_update(&None, &user("new", 1, None, false));
    assert_eq!(first.description, "Old User: None\nNew User: new");
}

#[test]
fn reactions_name_the_emoji_message_and_member() {
    let t = log_reaction(true, "👍", ChannelId(3), MessageId(4), &user("ann", 7, None, false));
    assert_eq!(
        parts(&t),
        ("7", "Reaction Added: 👍", "Channel: 3\nMessage: 4\nEmoji: 👍, Member: ann", "")
    );
    assert_eq!(
        log_reaction(false, "x", ChannelId(3), MessageId(4), &user("ann", 7, None, false)).title,
        "Reaction Removed: x"
    );
}

#[test]
fn guild_joins_and_departures_are_logged() {
    assert_eq!(
        parts(&log_guild_create("G", GuildId(5), Some(true))),
        ("5", "Guild Create: G", "Guild is new", "")
    );
    assert_eq!(log_guild_create("G", GuildId(5), None).description, "Guild is not new");
    assert_eq!(log_guild_create("G", GuildId(5), Some(false)).description, "Guild is not new");

    assert_eq!(
        log_guild_delete_event("G", GuildId(5), false, &None).description,
        "Bot was removed from the guild."
    );
    assert_eq!(log_guild_delete_event("G", GuildId(5), true, &None).description, "Guild was deleted.");
    let full = Some(LoggedGuild { name: "G".to_string(), id: GuildId(5), owner_id: UserId(6) });
    assert_eq!(
        parts(&log_guild_delete_event("G", GuildId(5), false, &full)),
        ("5", "Guild Delete: G", "Guild was deleted.\nGuild Name: G\nGuild ID: 5\nGuild Owner: 6", "")
    );
}

#[test]
fn role_channel_and_message_deletions_are_logged() {
    let created = log_guild_role(true, &role());
    assert_eq!(created.title, "Role Created: DJ");
    assert_eq!(created.description, guild_role_to_string(&role()));
    assert_eq!(log_guild_role(false, &role()).title, "Role Deleted: DJ");
    let mut renamed = role();
    renamed.name = "VJ".to_string();
    let update = log_guild_role_update(&Some(role()), &renamed);
    assert_eq!(parts(&update), ("5", "Role Updated: VJ", "Name: DJ -> VJ\n", ""));
    assert_eq!(log_guild_role_update(&None, &renamed).description, guild_role_to_string(&renamed));

    assert_eq!(
        parts(&log_channel_delete(ChannelId(8), Some(3), ChannelId(1))),
        ("1", "Channel Deleted: 8", "messages deleted: 3", "")
    );
    assert_eq!(log_channel_delete(ChannelId(8), None, ChannelId(1)).description, "messages deleted: 0");
    assert_eq!(
        parts(&log_message_delete(ChannelId(8), MessageId(9), GuildId(2))),
        ("9", "Message Deleted: 9", "ChannelId: 8\nGuildId: 2", "")
    );
}

#[test]
fn an_event_is_logged_only_to_a_set_channel_not_ignored() {
    let guild = GuildId(4);
    let warning = Err(CrackedError::LogChannelWarning { event: "message_delete", guild });
    let set = Some(LogSettings { channel: Some(ChannelId(9)), ignored_channels: vec![1, 2] });
    assert_eq!(get_channel_id(&set, "message_delete", guild), Ok(ChannelId(9)));
    let ignored = Some(LogSettings { channel: Some(ChannelId(2)), ignored_channels: vec![1, 2] });
    assert_eq!(get_channel_id(&ignored, "message_delete", guild), warning);
    let unset = Some(LogSettings { channel: None, ignored_channels: vec![] });
    assert_eq!(get_channel_id(&unset, "message_delete", guild), warning);
    assert_eq!(get_channel_id(&None, "message_delete", guild), warning);
}

#[test]
fn a_missing_log_channel_names_the_event_and_the_guild() {
    let got = get_channel_id(&None, "typing_start", GuildId(12));
    assert_eq!(got, Err(CrackedError::LogChannelWarning { event: "typing_start", guild: GuildId(12) }));
    assert_eq!(got.unwrap_err().to_text(), "no log channel for typing_start in guild 12");
}

#[test]
fn joins_leaves_and_permission_changes_are_logged() {
    let ann = user("ann", 7, Some("a.png"), false);
    assert_eq!(
        parts(&log_guild_membership(true, &ann, "2020-01-01", "Some(2024-05-05)")),
        ("7", "Member Joined: ann", "Account Created: 2020-01-01\nJoined: Some(2024-05-05)", "a.png")
    );
    assert_eq!(log_guild_membership(false, &ann, "x", "None").title, "Member Left: ann");
    assert_eq!(
        parts(&log_command_permissions_update(42, "[]")),
        ("42", "Command Permissions Updated: 42", "Permissions: []", "")
    );
}

fn member(pending: bool, avatar: Option<&str>) -> MemberSnapshot {
    MemberSnapshot {
        name: "ann".to_string(),
        id: UserId(7),
        pending,
        user_avatar: avatar.map(str::to_string),
        member_avatar_url: None,
        user_avatar_url: avatar.map(|a| format!("https://cdn/{a}.png")),
        default_avatar_url: "https://cdn/default.png".to_string(),
        created_text: "2020".to_string(),
        joined_text: "Some(2024)".to_string(),
    }
}

#[test]
fn a_member_passing_screening_is_approved_with_a_note() {
    let r = log_guild_member_update(true, &Some(member(true, Some("h"))), &member(false, Some("h")));
    assert_eq!(r.entry.title, "Member Approved: ann");
    assert_eq!(r.notes, "Click Verify");
    assert!(r.post);
    assert_eq!(r.entry.description, "User: ann\nID: 7\nAccount Created: 2020\nJoined: Some(2024)");
    assert_eq!(r.entry.avatar_url, "https://cdn/h.png");
}

#[test]
fn a_member_update_without_a_log_channel_is_titled_only_for_an_avatar_change() {
    let same = log_guild_member_update(false, &Some(member(false, Some("h"))), &member(false, Some("h")));
    assert_eq!(same.entry.title, "");
    assert!(!same.post);
    let changed = log_guild_member_update(false, &Some(member(false, Some("h"))), &member(false, Some("k")));
    assert_eq!(changed.entry.title, "Member Updated: ann");
    let first = log_guild_member_update(true, &None, &member(false, None));
    assert_eq!(first.entry.title, "Member Updated: ann");
    assert_eq!(first.entry.avatar_url, "https://cdn/default.png");
    assert_eq!(first.notes, "");
}

#[test]
fn the_bots_own_messages_are_cached_and_bots_are_not_logged() {
    assert_eq!(message_event_plan(UserId(1), UserId(1), true), (true, false));
    assert_eq!(message_event_plan(UserId(2), UserId(1), false), (false, true));
    assert_eq!(message_event_plan(UserId(3), UserId(1), true), (false, false));
}

#[test]
fn an_edit_is_a_bots_when_either_version_is() {
    let human = Some(message(user("ann", 7, None, false), "x"));
    let bot = Some(message(user("robot", 9, None, true), "x"));
    assert!(!message_update_by_bot(&human, &human));
    assert!(message_update_by_bot(&human, &bot));
    assert!(message_update_by_bot(&bot, &None));
    assert!(!message_update_by_bot(&None, &None));
}
