//! Text of the guild event log: how a role is described, and what changed
//! between two versions of it.
use vstd::prelude::*;
use crate::ids::{ChannelId, GuildId, MessageId, RoleId, UserId};
use crate::text::chars_of;
use crate::interface::{default_msg_string, text_or_empty};
use crate::errors::CrackedError;
use crate::text::{bool_text, decimal, push_bool, push_decimal};

verus! {

broadcast use vstd::string::group_string_axioms;

/// A guild role as the event log reads it. How the colour and the
/// permissions print is Discord's library's business, so they come with
/// their printed forms beside the values they are compared by.
#[derive(Debug, Clone)]
pub struct Role {
    pub name: String,
    pub id: RoleId,
    pub colour: u32,
    /// The colour as its library prints it with `{:#?}`.
    pub colour_text: String,
    pub hoist: bool,
    pub mentionable: bool,
    pub permissions: u64,
    /// The permissions as their library prints them with `{:?}`.
    pub permissions_text: String,
    pub position: u16,
}

/// The description of a role in the log.
pub open spec fn role_text(role: Role) -> Seq<char> {
    "Role: "@ + role.name@ + "\nID: "@ + decimal(role.id.0 as nat) + "\nColor: "@
        + role.colour_text@ + "\nHoist: "@ + bool_text(role.hoist) + "\nMentionable: "@
        + bool_text(role.mentionable) + "\nPermissions: "@ + role.permissions_text@
        + "\nPosition: "@ + decimal(role.position as nat) + "\n"@
}

/// Describes a role for the log.
pub fn guild_role_to_string(role: &Role) -> (s: String)
    ensures
        s@ == role_text(*role),
{
    let mut s = String::new();
    s.append("Role: ");
    s.append(role.name.as_str());
    s.append("\nID: ");
    push_decimal(&mut s, role.id.0);
    s.append("\nColor: ");
    s.append(role.colour_text.as_str());
    s.append("\nHoist: ");
    push_bool(&mut s, role.hoist);
    s.append("\nMentionable: ");
    push_bool(&mut s, role.mentionable);
    s.append("\nPermissions: ");
    s.append(role.permissions_text.as_str());
    s.append("\nPosition: ");
    push_decimal(&mut s, role.position as u64);
    s.append("\n");
    proof {
        assert(s@ =~= role_text(*role));
    }
    s
}

/// `label: before -> after` and a line break when the values differ,
/// nothing when they do not.
pub open spec fn change_line(differ: bool, label: Seq<char>, before: Seq<char>, after: Seq<char>) -> Seq<char> {
    if differ {
        label + ": "@ + before + " -> "@ + after + "\n"@
    } else {
        Seq::empty()
    }
}

/// What changed between two versions of a role, one line per changed
/// field: name, colour, hoist, mentionable, permissions, position.
pub open spec fn role_diff(old: Role, new: Role) -> Seq<char> {
    change_line(old.name@ != new.name@, "Name"@, old.name@, new.name@)
        + change_line(old.colour != new.colour, "Color"@, old.colour_text@, new.colour_text@)
        + change_line(old.hoist != new.hoist, "Hoist"@, bool_text(old.hoist), bool_text(new.hoist))
        + change_line(
        old.mentionable != new.mentionable,
        "Mentionable"@,
        bool_text(old.mentionable),
        bool_text(new.mentionable),
    ) + change_line(
        old.permissions != new.permissions,
        "Permissions"@,
        old.permissions_text@,
        new.permissions_text@,
    ) + change_line(
        old.position != new.position,
        "Position"@,
        decimal(old.position as nat),
        decimal(new.position as nat),
    )
}

fn push_change(s: &mut String, label: &str, before: &str, after: &str)
    ensures
        final(s)@ == old(s)@ + change_line(true, label@, before@, after@),
{
    s.append(label);
    s.append(": ");
    s.append(before);
    s.append(" -> ");
    s.append(after);
    s.append("\n");
    proof {
        assert(s@ =~= old(s)@ + change_line(true, label@, before@, after@));
    }
}

fn same_string(a: &String, b: &String) -> (r: bool)
    ensures
        r == (a@ == b@),
{
    crate::text::same_chars(&crate::text::chars_of(a.as_str()), &crate::text::chars_of(b.as_str()))
}

/// Describes what changed between two versions of a role.
pub fn guild_role_diff(old: &Role, new: &Role) -> (s: String)
    ensures
        s@ == role_diff(*old, *new),
{
    let mut s = String::new();
    let ghost mut expect: Seq<char> = Seq::empty();
    if !same_string(&old.name, &new.name) {
        push_change(&mut s, "Name", old.name.as_str(), new.name.as_str());
    }
    proof {
        expect = change_line(old.name@ != new.name@, "Name"@, old.name@, new.name@);
        assert(s@ =~= expect);
    }
    if old.colour != new.colour {
        push_change(&mut s, "Color", old.colour_text.as_str(), new.colour_text.as_str());
    }
    proof {
        expect = expect + change_line(old.colour != new.colour, "Color"@, old.colour_text@, new.colour_text@);
        assert(s@ =~= expect);
    }
    if old.hoist != new.hoist {
        let b = if old.hoist { "true" } else { "false" };
        let a = if new.hoist { "true" } else { "false" };
        push_change(&mut s, "Hoist", b, a);
    }
    proof {
        expect = expect + change_line(old.hoist != new.hoist, "Hoist"@, bool_text(old.hoist), bool_text(new.hoist));
        assert(s@ =~= expect);
    }
    if old.mentionable != new.mentionable {
        let b = if old.mentionable { "true" } else { "false" };
        let a = if new.mentionable { "true" } else { "false" };
        push_change(&mut s, "Mentionable", b, a);
    }
    proof {
        expect = expect + change_line(
            old.mentionable != new.mentionable,
            "Mentionable"@,
            bool_text(old.mentionable),
            bool_text(new.mentionable),
        );
        assert(s@ =~= expect);
    }
    if old.permissions != new.permissions {
        push_change(&mut s, "Permissions", old.permissions_text.as_str(), new.permissions_text.as_str());
    }
    proof {
        expect = expect + change_line(
            old.permissions != new.permissions,
            "Permissions"@,
            old.permissions_text@,
            new.permissions_text@,
        );
        assert(s@ =~= expect);
    }
    if old.position != new.position {
        let b = crate::text::decimal_string(old.position as u64);
        let a = crate::text::decimal_string(new.position as u64);
        push_change(&mut s, "Position", b.as_str(), a.as_str());
    }
    proof {
        expect = expect + change_line(
            old.position != new.position,
            "Position"@,
            decimal(old.position as nat),
            decimal(new.position as nat),
        );
        assert(s@ =~= expect);
    }
    s
}


/// What a log embed shows: the id in its footer, its title, its
/// description and its thumbnail URL.
#[derive(Debug, Clone)]
pub struct LogText {
    pub id: String,
    pub title: String,
    pub description: String,
    pub avatar_url: String,
}

/// A user as the event log reads one.
#[derive(Debug, Clone)]
pub struct LoggedUser {
    pub name: String,
    pub id: UserId,
    /// The URL of the user's avatar, if they have one.
    pub avatar_url: Option<String>,
    pub bot: bool,
}

/// A message as the event log reads one.
#[derive(Debug, Clone)]
pub struct LoggedMessage {
    pub author: LoggedUser,
    pub channel_id: ChannelId,
    pub content: String,
}

/// The four parts of a log entry, as text.
pub open spec fn log_view(t: LogText) -> (Seq<char>, Seq<char>, Seq<char>, Seq<char>) {
    (t.id@, t.title@, t.description@, t.avatar_url@)
}

/// `User: name`, `ID: id`, `Channel: channel`, one to a line.
pub open spec fn user_lines(name: Seq<char>, id: UserId, channel: ChannelId) -> Seq<char> {
    "User: "@ + name + "\nID: "@ + decimal(id.0 as nat) + "\nChannel: "@ + decimal(channel.0 as nat)
}

fn push_user_lines(s: &mut String, name: &str, id: UserId, channel: ChannelId)
    ensures
        final(s)@ == old(s)@ + user_lines(name@, id, channel),
{
    s.append("User: ");
    s.append(name);
    s.append("\nID: ");
    push_decimal(s, id.0);
    s.append("\nChannel: ");
    push_decimal(s, channel.0);
    proof {
        assert(s@ =~= old(s)@ + user_lines(name@, id, channel));
    }
}

fn opt_text(o: &Option<String>) -> (r: String)
    ensures
        r@ == text_or_empty(*o),
{
    match o {
        Some(t) => t.clone(),
        None => String::new(),
    }
}

fn titled(prefix: &str, name: &str) -> (r: String)
    ensures
        r@ == prefix@ + name@,
{
    let mut t = String::from_str(prefix);
    t.append(name);
    t
}

/// The log entry of an edited message: with both versions known, the user
/// line of the new one and both contents; with one version known, that one
/// and "None" for the other; with neither, the event's author and the log
/// channel; with no author either, the message id alone. An edit by a bot
/// is not logged.
pub open spec fn message_update_log(
    old: Option<LoggedMessage>,
    new: Option<LoggedMessage>,
    author: Option<LoggedUser>,
    message_id: MessageId,
    log_channel: ChannelId,
) -> Option<(Seq<char>, Seq<char>, Seq<char>, Seq<char>)> {
    if author matches Some(a) && a.bot {
        None
    } else {
        Some(
            match (old, new) {
                (Some(o), Some(n)) => (
                    decimal(n.author.id.0 as nat),
                    "Message Updated: "@ + n.author.name@,
                    user_lines(n.author.name@, n.author.id, n.channel_id) + "\nOld Message: "@
                        + o.content@ + "\nNew Message: "@ + n.content@,
                    text_or_empty(n.author.avatar_url),
                ),
                (None, Some(n)) => (
                    decimal(n.author.id.0 as nat),
                    "Message Updated: "@ + n.author.name@,
                    user_lines(n.author.name@, n.author.id, n.channel_id)
                        + "\nOld Message: None\nNew Message: "@ + n.content@,
                    text_or_empty(n.author.avatar_url),
                ),
                (Some(o), None) => (
                    decimal(o.author.id.0 as nat),
                    "Message Updated: "@ + o.author.name@,
                    user_lines(o.author.name@, o.author.id, o.channel_id) + "\nOld Message: "@
                        + o.content@ + "\nNew Message: None"@,
                    text_or_empty(o.author.avatar_url),
                ),
                (None, None) => match author {
                    Some(a) => (
                        decimal(a.id.0 as nat),
                        "Message Updated: "@ + a.name@,
                        user_lines(a.name@, a.id, log_channel)
                            + "\nOld Message: None\nNew Message: None"@,
                        text_or_empty(a.avatar_url),
                    ),
                    None => (
                        Seq::empty(),
                        "Message Updated"@,
                        decimal(message_id.0 as nat),
                        Seq::empty(),
                    ),
                },
            },
        )
    }
}

/// The log entry of an edited message, or none for an edit by a bot.
pub fn log_message_update(
    old: &Option<LoggedMessage>,
    new: &Option<LoggedMessage>,
    author: &Option<LoggedUser>,
    message_id: MessageId,
    log_channel: ChannelId,
) -> (r: Option<LogText>)
    ensures
        match r {
            Some(t) => message_update_log(*old, *new, *author, message_id, log_channel) == Some(
                log_view(t),
            ),
            None => message_update_log(*old, *new, *author, message_id, log_channel) is None,
        },
{
    if let Some(a) = author {
        if a.bot {
            return None;
        }
    }
    let (id, title, description, avatar_url) = match (old, new) {
        (Some(o), Some(n)) => {
            let mut d = String::new();
            push_user_lines(&mut d, n.author.name.as_str(), n.author.id, n.channel_id);
            d.append("\nOld Message: ");
            d.append(o.content.as_str());
            d.append("\nNew Message: ");
            d.append(n.content.as_str());
            (
                crate::text::decimal_string(n.author.id.0),
                titled("Message Updated: ", n.author.name.as_str()),
                d,
                opt_text(&n.author.avatar_url),
            )
        },
        (None, Some(n)) => {
            let mut d = String::new();
            push_user_lines(&mut d, n.author.name.as_str(), n.author.id, n.channel_id);
            d.append("\nOld Message: None\nNew Message: ");
            d.append(n.content.as_str());
            (
                crate::text::decimal_string(n.author.id.0),
                titled("Message Updated: ", n.author.name.as_str()),
                d,
                opt_text(&n.author.avatar_url),
            )
        },
        (Some(o), None) => {
            let mut d = String::new();
            push_user_lines(&mut d, o.author.name.as_str(), o.author.id, o.channel_id);
            d.append("\nOld Message: ");
            d.append(o.content.as_str());
            d.append("\nNew Message: None");
            (
                crate::text::decimal_string(o.author.id.0),
                titled("Message Updated: ", o.author.name.as_str()),
                d,
                opt_text(&o.author.avatar_url),
            )
        },
        (None, None) => match author {
            Some(a) => {
                let mut d = String::new();
                push_user_lines(&mut d, a.name.as_str(), a.id, log_channel);
                d.append("\nOld Message: None\nNew Message: None");
                (
                    crate::text::decimal_string(a.id.0),
                    titled("Message Updated: ", a.name.as_str()),
                    d,
                    opt_text(&a.avatar_url),
                )
            },
            None => default_msg_string(message_id),
        },
    };
    let t = LogText { id, title, description, avatar_url };
    proof {
        assert(message_update_log(*old, *new, *author, message_id, log_channel) =~= Some(log_view(t)));
    }
    Some(t)
}

/// The log entry of a new message: its author's user line and its content.
pub open spec fn message_log(m: LoggedMessage) -> (Seq<char>, Seq<char>, Seq<char>, Seq<char>) {
    (
        decimal(m.author.id.0 as nat),
        "Message: "@ + m.author.name@,
        user_lines(m.author.name@, m.author.id, m.channel_id) + "\nMessage: "@ + m.content@,
        text_or_empty(m.author.avatar_url),
    )
}

/// The log entry of a new message.
pub fn log_message(m: &LoggedMessage) -> (r: LogText)
    ensures
        log_view(r) == message_log(*m),
{
    let mut d = String::new();
    push_user_lines(&mut d, m.author.name.as_str(), m.author.id, m.channel_id);
    d.append("\nMessage: ");
    d.append(m.content.as_str());
    let r = LogText {
        id: crate::text::decimal_string(m.author.id.0),
        title: titled("Message: ", m.author.name.as_str()),
        description: d,
        avatar_url: opt_text(&m.author.avatar_url),
    };
    proof {
        assert(log_view(r) =~= message_log(*m));
    }
    r
}

/// The log entry of a member starting to type: who, by id, and where.
pub open spec fn typing_start_log(user: LoggedUser, channel: ChannelId) -> (
    Seq<char>,
    Seq<char>,
    Seq<char>,
    Seq<char>,
) {
    (
        decimal(user.id.0 as nat),
        "Typing Start: "@ + decimal(user.id.0 as nat),
        user_lines(user.name@, user.id, channel),
        text_or_empty(user.avatar_url),
    )
}

/// The log entry of a member starting to type in `channel`.
pub fn log_typing_start(user: &LoggedUser, channel: ChannelId) -> (r: LogText)
    ensures
        log_view(r) == typing_start_log(*user, channel),
{
    let mut d = String::new();
    push_user_lines(&mut d, user.name.as_str(), user.id, channel);
    let mut title = String::from_str("Typing Start: ");
    push_decimal(&mut title, user.id.0);
    let r = LogText {
        id: crate::text::decimal_string(user.id.0),
        title,
        description: d,
        avatar_url: opt_text(&user.avatar_url),
    };
    proof {
        assert(log_view(r) =~= typing_start_log(*user, channel));
    }
    r
}

/// The log entry of the bot's own user changing: an avatar change is noted
/// as such; otherwise the old name (or "None") and the new one.
pub open spec fn user_update_log(old: Option<LoggedUser>, new: LoggedUser) -> (
    Seq<char>,
    Seq<char>,
    Seq<char>,
    Seq<char>,
) {
    let old_avatar = match old {
        Some(o) => text_or_empty(o.avatar_url),
        None => Seq::empty(),
    };
    let new_avatar = text_or_empty(new.avatar_url);
    (
        decimal(new.id.0 as nat),
        "User Updated: "@ + new.name@,
        if new_avatar != old_avatar {
            "Avatar Updated: "@ + new.name@
        } else {
            "Old User: "@ + (match old {
                Some(o) => o.name@,
                None => "None"@,
            }) + "\nNew User: "@ + new.name@
        },
        new_avatar,
    )
}

/// The log entry of the bot's own user changing.
pub fn log_user_update(old: &Option<LoggedUser>, new: &LoggedUser) -> (r: LogText)
    ensures
        log_view(r) == user_update_log(*old, *new),
{
    let new_avatar = opt_text(&new.avatar_url);
    let old_avatar = match old {
        Some(o) => opt_text(&o.avatar_url),
        None => String::new(),
    };
    let changed = !crate::text::same_chars(
        &crate::text::chars_of(new_avatar.as_str()),
        &crate::text::chars_of(old_avatar.as_str()),
    );
    let description = if changed {
        titled("Avatar Updated: ", new.name.as_str())
    } else {
        let mut d = String::from_str("Old User: ");
        match old {
            Some(o) => d.append(o.name.as_str()),
            None => d.append("None"),
        }
        d.append("\nNew User: ");
        d.append(new.name.as_str());
        d
    };
    let r = LogText {
        id: crate::text::decimal_string(new.id.0),
        title: titled("User Updated: ", new.name.as_str()),
        description,
        avatar_url: new_avatar,
    };
    proof {
        assert(log_view(r) =~= user_update_log(*old, *new));
    }
    r
}

/// The log entry of a reaction added or removed: the emoji as printed, the
/// channel and message it is on, and the member's name.
pub open spec fn reaction_log(
    added: bool,
    emoji: Seq<char>,
    channel: ChannelId,
    message: MessageId,
    member: LoggedUser,
) -> (Seq<char>, Seq<char>, Seq<char>, Seq<char>) {
    (
        decimal(member.id.0 as nat),
        (if added {
            "Reaction Added: "@
        } else {
            "Reaction Removed: "@
        }) + emoji,
        "Channel: "@ + decimal(channel.0 as nat) + "\nMessage: "@ + decimal(message.0 as nat)
            + "\nEmoji: "@ + emoji + ", Member: "@ + member.name@,
        text_or_empty(member.avatar_url),
    )
}

/// The log entry of a reaction added (or removed, when `added` is false).
pub fn log_reaction(
    added: bool,
    emoji: &str,
    channel: ChannelId,
    message: MessageId,
    member: &LoggedUser,
) -> (r: LogText)
    ensures
        log_view(r) == reaction_log(added, emoji@, channel, message, *member),
{
    let mut title = if added {
        String::from_str("Reaction Added: ")
    } else {
        String::from_str("Reaction Removed: ")
    };
    title.append(emoji);
    let mut d = String::from_str("Channel: ");
    push_decimal(&mut d, channel.0);
    d.append("\nMessage: ");
    push_decimal(&mut d, message.0);
    d.append("\nEmoji: ");
    d.append(emoji);
    d.append(", Member: ");
    d.append(member.name.as_str());
    let r = LogText {
        id: crate::text::decimal_string(member.id.0),
        title,
        description: d,
        avatar_url: opt_text(&member.avatar_url),
    };
    proof {
        assert(log_view(r) =~= reaction_log(added, emoji@, channel, message, *member));
    }
    r
}

/// The log entry of a member banned (or unbanned): the name, nothing more.
pub open spec fn ban_log(banned: bool, user: LoggedUser) -> (Seq<char>, Seq<char>, Seq<char>, Seq<char>) {
    (
        decimal(user.id.0 as nat),
        (if banned {
            "Member Banned: "@
        } else {
            "Member Unbanned: "@
        }) + user.name@,
        Seq::empty(),
        text_or_empty(user.avatar_url),
    )
}

/// The log entry of a member banned (or unbanned, when `banned` is false).
pub fn log_guild_ban(banned: bool, user: &LoggedUser) -> (r: LogText)
    ensures
        log_view(r) == ban_log(banned, *user),
{
    let title = if banned {
        titled("Member Banned: ", user.name.as_str())
    } else {
        titled("Member Unbanned: ", user.name.as_str())
    };
    let r = LogText {
        id: crate::text::decimal_string(user.id.0),
        title,
        description: String::new(),
        avatar_url: opt_text(&user.avatar_url),
    };
    proof {
        assert(log_view(r) =~= ban_log(banned, *user));
    }
    r
}

/// The log entry of the bot joining a guild: whether the guild is new to
/// the bot ("not" unless known to be).
pub open spec fn guild_create_log(name: Seq<char>, id: GuildId, is_new: Option<bool>) -> (
    Seq<char>,
    Seq<char>,
    Seq<char>,
    Seq<char>,
) {
    (
        decimal(id.0 as nat),
        "Guild Create: "@ + name,
        "Guild is "@ + (if is_new == Some(true) {
            Seq::empty()
        } else {
            "not "@
        }) + "new"@,
        Seq::empty(),
    )
}

/// The log entry of the bot joining a guild.
pub fn log_guild_create(name: &str, id: GuildId, is_new: Option<bool>) -> (r: LogText)
    ensures
        log_view(r) == guild_create_log(name@, id, is_new),
{
    let mut d = String::from_str("Guild is ");
    match is_new {
        Some(true) => {},
        _ => d.append("not "),
    }
    d.append("new");
    let r = LogText {
        id: crate::text::decimal_string(id.0),
        title: titled("Guild Create: ", name),
        description: d,
        avatar_url: String::new(),
    };
    proof {
        assert(log_view(r) =~= guild_create_log(name@, id, is_new));
    }
    r
}

/// A guild as the event log describes a deleted one.
#[derive(Debug, Clone)]
pub struct LoggedGuild {
    pub name: String,
    pub id: GuildId,
    pub owner_id: UserId,
}

/// The log entry of a guild gone: deleted, with its name, id and owner when
/// the guild was cached; otherwise removed or deleted by the `unavailable`
/// flag.
pub open spec fn guild_delete_log(
    log_guild_name: Seq<char>,
    gone: GuildId,
    unavailable: bool,
    full: Option<LoggedGuild>,
) -> (Seq<char>, Seq<char>, Seq<char>, Seq<char>) {
    (
        decimal(gone.0 as nat),
        "Guild Delete: "@ + log_guild_name,
        match full {
            Some(g) => "Guild was deleted.\nGuild Name: "@ + g.name@ + "\nGuild ID: "@ + decimal(
                g.id.0 as nat,
            ) + "\nGuild Owner: "@ + decimal(g.owner_id.0 as nat),
            None => if !unavailable {
                "Bot was removed from the guild."@
            } else {
                "Guild was deleted."@
            },
        },
        Seq::empty(),
    )
}

/// The log entry of a guild gone.
pub fn log_guild_delete_event(
    log_guild_name: &str,
    gone: GuildId,
    unavailable: bool,
    full: &Option<LoggedGuild>,
) -> (r: LogText)
    ensures
        log_view(r) == guild_delete_log(log_guild_name@, gone, unavailable, *full),
{
    let description = match full {
        Some(g) => {
            let mut d = String::from_str("Guild was deleted.\nGuild Name: ");
            d.append(g.name.as_str());
            d.append("\nGuild ID: ");
            push_decimal(&mut d, g.id.0);
            d.append("\nGuild Owner: ");
            push_decimal(&mut d, g.owner_id.0);
            d
        },
        None => if !unavailable {
            String::from_str("Bot was removed from the guild.")
        } else {
            String::from_str("Guild was deleted.")
        },
    };
    let r = LogText {
        id: crate::text::decimal_string(gone.0),
        title: titled("Guild Delete: ", log_guild_name),
        description,
        avatar_url: String::new(),
    };
    proof {
        assert(log_view(r) =~= guild_delete_log(log_guild_name@, gone, unavailable, *full));
    }
    r
}

/// The log entry of a role created, or deleted: the role described.
pub open spec fn role_log(created: bool, role: Role) -> (Seq<char>, Seq<char>, Seq<char>, Seq<char>) {
    (
        decimal(role.id.0 as nat),
        (if created {
            "Role Created: "@
        } else {
            "Role Deleted: "@
        }) + role.name@,
        role_text(role),
        Seq::empty(),
    )
}

/// The log entry of a role created (or deleted, when `created` is false).
pub fn log_guild_role(created: bool, role: &Role) -> (r: LogText)
    ensures
        log_view(r) == role_log(created, *role),
{
    let title = if created {
        titled("Role Created: ", role.name.as_str())
    } else {
        titled("Role Deleted: ", role.name.as_str())
    };
    let r = LogText {
        id: crate::text::decimal_string(role.id.0),
        title,
        description: guild_role_to_string(role),
        avatar_url: String::new(),
    };
    proof {
        assert(log_view(r) =~= role_log(created, *role));
    }
    r
}

/// The log entry of a role edited: what changed when the old version is
/// known, the new version described otherwise.
pub open spec fn role_update_log(old: Option<Role>, new: Role) -> (Seq<char>, Seq<char>, Seq<char>, Seq<char>) {
    (
        decimal(new.id.0 as nat),
        "Role Updated: "@ + new.name@,
        match old {
            Some(o) => role_diff(o, new),
            None => role_text(new),
        },
        Seq::empty(),
    )
}

/// The log entry of a role edited.
pub fn log_guild_role_update(old: &Option<Role>, new: &Role) -> (r: LogText)
    ensures
        log_view(r) == role_update_log(*old, *new),
{
    let description = match old {
        Some(o) => guild_role_diff(o, new),
        None => guild_role_to_string(new),
    };
    let r = LogText {
        id: crate::text::decimal_string(new.id.0),
        title: titled("Role Updated: ", new.name.as_str()),
        description,
        avatar_url: String::new(),
    };
    proof {
        assert(log_view(r) =~= role_update_log(*old, *new));
    }
    r
}

/// The log entry of a channel deleted: its id, and how many of its messages
/// were cached (none when unknown). The entry's id is the log channel's.
pub open spec fn channel_delete_log(deleted: ChannelId, messages: Option<usize>, log_channel: ChannelId) -> (
    Seq<char>,
    Seq<char>,
    Seq<char>,
    Seq<char>,
) {
    (
        decimal(log_channel.0 as nat),
        "Channel Deleted: "@ + decimal(deleted.0 as nat),
        "messages deleted: "@ + decimal(
            match messages {
                Some(n) => n as nat,
                None => 0,
            },
        ),
        Seq::empty(),
    )
}

/// The log entry of a channel deleted.
pub fn log_channel_delete(deleted: ChannelId, messages: Option<usize>, log_channel: ChannelId) -> (r:
    LogText)
    ensures
        log_view(r) == channel_delete_log(deleted, messages, log_channel),
{
    let mut title = String::from_str("Channel Deleted: ");
    push_decimal(&mut title, deleted.0);
    let mut d = String::from_str("messages deleted: ");
    let n: usize = match messages {
        Some(n) => n,
        None => 0,
    };
    push_decimal(&mut d, n as u64);
    let r = LogText {
        id: crate::text::decimal_string(log_channel.0),
        title,
        description: d,
        avatar_url: String::new(),
    };
    proof {
        assert(log_view(r) =~= channel_delete_log(deleted, messages, log_channel));
    }
    r
}

/// The log entry of a message deleted: its id, its channel and its guild.
pub open spec fn message_delete_log(channel: ChannelId, message: MessageId, guild: GuildId) -> (
    Seq<char>,
    Seq<char>,
    Seq<char>,
    Seq<char>,
) {
    (
        decimal(message.0 as nat),
        "Message Deleted: "@ + decimal(message.0 as nat),
        "ChannelId: "@ + decimal(channel.0 as nat) + "\nGuildId: "@ + decimal(guild.0 as nat),
        Seq::empty(),
    )
}

/// The log entry of a message deleted in `channel` of `guild`.
pub fn log_message_delete(channel: ChannelId, message: MessageId, guild: GuildId) -> (r: LogText)
    ensures
        log_view(r) == message_delete_log(channel, message, guild),
{
    let mut title = String::from_str("Message Deleted: ");
    push_decimal(&mut title, message.0);
    let mut d = String::from_str("ChannelId: ");
    push_decimal(&mut d, channel.0);
    d.append("\nGuildId: ");
    push_decimal(&mut d, guild.0);
    let r = LogText {
        id: crate::text::decimal_string(message.0),
        title,
        description: d,
        avatar_url: String::new(),
    };
    proof {
        assert(log_view(r) =~= message_delete_log(channel, message, guild));
    }
    r
}


/// What deciding an event's log channel reads of a guild's settings: the
/// channel they name for the event, and the channels not to log to.
#[derive(Debug, Clone)]
pub struct LogSettings {
    pub channel: Option<ChannelId>,
    pub ignored_channels: Vec<u64>,
}

/// The channel an event is logged to: none without settings for the guild,
/// without a channel for the event, or when that channel is ignored.
pub open spec fn log_channel_of(settings: Option<LogSettings>) -> Option<ChannelId> {
    match settings {
        None => None,
        Some(s) => match s.channel {
            None => None,
            Some(c) => if s.ignored_channels@.contains(c.0) {
                None
            } else {
                Some(c)
            },
        },
    }
}

/// Decides the channel an event named `event` of `guild` is logged to; where
/// there is none, the warning names the event and the guild.
pub fn get_channel_id(settings: &Option<LogSettings>, event: &'static str, guild: GuildId) -> (r: Result<
    ChannelId,
    CrackedError,
>)
    ensures
        r is Ok <==> log_channel_of(*settings) is Some,
        r matches Ok(c) ==> log_channel_of(*settings) == Some(c),
        r matches Err(e) ==> (e matches CrackedError::LogChannelWarning { event: ev, guild: g }
            && ev@ == event@ && g == guild),
{
    match settings {
        None => Err(CrackedError::LogChannelWarning { event, guild }),
        Some(s) => match s.channel {
            None => Err(CrackedError::LogChannelWarning { event, guild }),
            Some(c) => {
                let mut i: usize = 0;
                while i < s.ignored_channels.len()
                    invariant
                        i <= s.ignored_channels@.len(),
                        *settings == Some(*s),
                        s.channel == Some(c),
                        forall|j: int| 0 <= j < i ==> s.ignored_channels@[j] != c.0,
                    decreases s.ignored_channels@.len() - i,
                {
                    if s.ignored_channels[i] == c.0 {
                        assert(s.ignored_channels@.contains(c.0));
                        return Err(CrackedError::LogChannelWarning { event, guild });
                    }
                    i = i + 1;
                }
                Ok(c)
            },
        },
    }
}


/// The log entry of a member joining (or leaving, when `joined` is false):
/// when the account was created and when the member joined, as the chat
/// library prints those times.
pub open spec fn membership_log(joined: bool, user: LoggedUser, created_text: Seq<char>, joined_text: Seq<char>) -> (
    Seq<char>,
    Seq<char>,
    Seq<char>,
    Seq<char>,
) {
    (
        decimal(user.id.0 as nat),
        (if joined {
            "Member Joined: "@
        } else {
            "Member Left: "@
        }) + user.name@,
        "Account Created: "@ + created_text + "\nJoined: "@ + joined_text,
        text_or_empty(user.avatar_url),
    )
}

/// The log entry of a member joining (or leaving, when `joined` is false).
pub fn log_guild_membership(joined: bool, user: &LoggedUser, created_text: &str, joined_text: &str) -> (r:
    LogText)
    ensures
        log_view(r) == membership_log(joined, *user, created_text@, joined_text@),
{
    let title = if joined {
        titled("Member Joined: ", user.name.as_str())
    } else {
        titled("Member Left: ", user.name.as_str())
    };
    let mut d = String::from_str("Account Created: ");
    d.append(created_text);
    d.append("\nJoined: ");
    d.append(joined_text);
    let r = LogText {
        id: crate::text::decimal_string(user.id.0),
        title,
        description: d,
        avatar_url: opt_text(&user.avatar_url),
    };
    proof {
        assert(log_view(r) =~= membership_log(joined, *user, created_text@, joined_text@));
    }
    r
}

/// The log entry of a command's permissions changing: the command's id, and
/// the permissions as the chat library prints them.
pub open spec fn command_permissions_log(command: u64, permissions_text: Seq<char>) -> (
    Seq<char>,
    Seq<char>,
    Seq<char>,
    Seq<char>,
) {
    (
        decimal(command as nat),
        "Command Permissions Updated: "@ + decimal(command as nat),
        "Permissions: "@ + permissions_text,
        Seq::empty(),
    )
}

/// The log entry of a command's permissions changing.
pub fn log_command_permissions_update(command: u64, permissions_text: &str) -> (r: LogText)
    ensures
        log_view(r) == command_permissions_log(command, permissions_text@),
{
    let mut title = String::from_str("Command Permissions Updated: ");
    push_decimal(&mut title, command);
    let r = LogText {
        id: crate::text::decimal_string(command),
        title,
        description: titled("Permissions: ", permissions_text),
        avatar_url: String::new(),
    };
    proof {
        assert(log_view(r) =~= command_permissions_log(command, permissions_text@));
    }
    r
}

/// The log entry of a member's voice state changing: their name in the
/// title, and the description of the change.
pub open spec fn voice_state_log(user: LoggedUser, diff: Seq<char>) -> (Seq<char>, Seq<char>, Seq<char>, Seq<char>) {
    (decimal(user.id.0 as nat), "Voice State Update: "@ + user.name@, diff, text_or_empty(user.avatar_url))
}

/// The log entry of a member's voice state changing, or why the change
/// could not be described.
pub fn log_voice_state_update(
    user: &LoggedUser,
    old: Option<&crate::voice_state::VoiceStateView>,
    new: &crate::voice_state::VoiceStateView,
    old_found: bool,
    new_found: bool,
) -> (r: Result<LogText, crate::voice_state::VoiceDiffFailure>)
    requires
        old is None ==> new.member is Some,
    ensures
        match (
            r,
            crate::voice_state::voice_diff(
                match old {
                    Some(o) => Some(*o),
                    None => None,
                },
                *new,
                old_found,
                new_found,
            ),
        ) {
            (Ok(t), Ok(d)) => log_view(t) == voice_state_log(*user, d),
            (Err(e), Err(f)) => e == f,
            _ => false,
        },
{
    match crate::voice_state::voice_state_diff_str(old, new, old_found, new_found) {
        Err(e) => Err(e),
        Ok(d) => {
            let r = LogText {
                id: crate::text::decimal_string(user.id.0),
                title: titled("Voice State Update: ", user.name.as_str()),
                description: d,
                avatar_url: opt_text(&user.avatar_url),
            };
            Ok(r)
        },
    }
}


/// A guild member as a member update reads one.
#[derive(Debug, Clone)]
pub struct MemberSnapshot {
    pub name: String,
    pub id: UserId,
    /// Whether the member has yet to pass the guild's membership screening.
    pub pending: bool,
    /// The hash of the user's avatar, if they have one.
    pub user_avatar: Option<String>,
    /// The URL of the member's guild avatar, if they have one.
    pub member_avatar_url: Option<String>,
    /// The URL of the user's avatar, if they have one.
    pub user_avatar_url: Option<String>,
    /// The URL of the avatar Discord gives users without one.
    pub default_avatar_url: String,
    /// When the account was created, as the chat library prints it.
    pub created_text: String,
    /// When the member joined, as the chat library prints it.
    pub joined_text: String,
}

/// What a member update leads to: the log entry, the note filed with the
/// event, and whether the entry is posted (only with a join/leave log
/// channel).
#[derive(Debug, Clone)]
pub struct MemberUpdateLog {
    pub entry: LogText,
    pub notes: String,
    pub post: bool,
}

/// The avatar shown for an updated member: the member's guild avatar, else
/// the previous version's guild avatar, else the user's avatar, else the
/// default one.
pub open spec fn member_avatar(old: Option<MemberSnapshot>, new: MemberSnapshot) -> Seq<char> {
    let first = match new.member_avatar_url {
        Some(u) => u@,
        None => match old {
            Some(o) => text_or_empty(o.member_avatar_url),
            None => Seq::empty(),
        },
    };
    let second = if first.len() == 0 {
        text_or_empty(new.user_avatar_url)
    } else {
        first
    };
    if second.len() == 0 {
        new.default_avatar_url@
    } else {
        second
    }
}

/// Whether a member passed screening with this update.
pub open spec fn approved(old: MemberSnapshot, new: MemberSnapshot) -> bool {
    old.pending && !new.pending
}

/// The title of a member update: an approval when the member passed
/// screening; otherwise an update when there is a log channel or the avatar
/// changed; with no previous version, an update when there is a log
/// channel; nothing otherwise.
pub open spec fn member_update_title(has_channel: bool, old: Option<MemberSnapshot>, new: MemberSnapshot) -> Seq<
    char,
> {
    match old {
        Some(o) => {
            let avatar_changed = o.user_avatar is None || crate::urls::opt_string_view(o.user_avatar)
                != crate::urls::opt_string_view(new.user_avatar);
            if approved(o, new) {
                "Member Approved: "@ + new.name@
            } else if has_channel || avatar_changed {
                "Member Updated: "@ + new.name@
            } else {
                Seq::empty()
            }
        },
        None => if has_channel {
            "Member Updated: "@ + new.name@
        } else {
            Seq::empty()
        },
    }
}

/// The log entry of a member update, its note ("Click Verify" for an
/// approval), and whether it is posted.
pub open spec fn member_update_of(has_channel: bool, old: Option<MemberSnapshot>, new: MemberSnapshot) -> (
    (Seq<char>, Seq<char>, Seq<char>, Seq<char>),
    Seq<char>,
    bool,
) {
    (
        (
            decimal(new.id.0 as nat),
            member_update_title(has_channel, old, new),
            "User: "@ + new.name@ + "\nID: "@ + decimal(new.id.0 as nat) + "\nAccount Created: "@
                + new.created_text@ + "\nJoined: "@ + new.joined_text@,
            member_avatar(old, new),
        ),
        match old {
            Some(o) => if approved(o, new) {
                "Click Verify"@
            } else {
                Seq::empty()
            },
            None => Seq::empty(),
        },
        has_channel,
    )
}

fn same_opt_text(a: &Option<String>, b: &Option<String>) -> (r: bool)
    ensures
        r == (crate::urls::opt_string_view(*a) == crate::urls::opt_string_view(*b)),
{
    match (a, b) {
        (Some(x), Some(y)) => same_string(x, y),
        (None, None) => true,
        _ => false,
    }
}

/// Describes a member update. A previous version with an avatar needs the
/// new version to have one too.
pub fn log_guild_member_update(has_channel: bool, old: &Option<MemberSnapshot>, new: &MemberSnapshot) -> (r:
    MemberUpdateLog)
    requires
        old matches Some(o) && o.user_avatar is Some ==> new.user_avatar is Some,
    ensures
        (log_view(r.entry), r.notes@, r.post) == member_update_of(has_channel, *old, *new),
{
    let first = match &new.member_avatar_url {
        Some(u) => u.clone(),
        None => match old {
            Some(o) => opt_text(&o.member_avatar_url),
            None => String::new(),
        },
    };
    let second = if chars_of(first.as_str()).len() == 0 {
        opt_text(&new.user_avatar_url)
    } else {
        first
    };
    let avatar_url = if chars_of(second.as_str()).len() == 0 {
        new.default_avatar_url.clone()
    } else {
        second
    };
    let (title, notes) = match old {
        Some(o) => {
            let avatar_changed = match &o.user_avatar {
                None => true,
                Some(_) => !same_opt_text(&o.user_avatar, &new.user_avatar),
            };
            if o.pending && !new.pending {
                (titled("Member Approved: ", new.name.as_str()), String::from_str("Click Verify"))
            } else if has_channel || avatar_changed {
                (titled("Member Updated: ", new.name.as_str()), String::new())
            } else {
                (String::new(), String::new())
            }
        },
        None => if has_channel {
            (titled("Member Updated: ", new.name.as_str()), String::new())
        } else {
            (String::new(), String::new())
        },
    };
    let mut d = String::from_str("User: ");
    d.append(new.name.as_str());
    d.append("\nID: ");
    push_decimal(&mut d, new.id.0);
    d.append("\nAccount Created: ");
    d.append(new.created_text.as_str());
    d.append("\nJoined: ");
    d.append(new.joined_text.as_str());
    let r = MemberUpdateLog {
        entry: LogText { id: crate::text::decimal_string(new.id.0), title, description: d, avatar_url },
        notes,
        post: has_channel,
    };
    proof {
        assert(r.entry.title@ =~= member_update_title(has_channel, *old, *new));
        assert(r.entry.avatar_url@ =~= member_avatar(*old, *new));
        assert(log_view(r.entry) =~= member_update_of(has_channel, *old, *new).0);
    }
    r
}

/// What a new message leads to: the bot's own messages are kept in the
/// guild's message cache; messages from bots are not logged.
pub open spec fn message_event_of(author: UserId, bot_user: UserId, author_is_bot: bool) -> (bool, bool) {
    (author == bot_user, !author_is_bot)
}

/// Whether to cache a new message, and whether to log it.
pub fn message_event_plan(author: UserId, bot_user: UserId, author_is_bot: bool) -> (r: (bool, bool))
    ensures
        r == message_event_of(author, bot_user, author_is_bot),
{
    (author == bot_user, !author_is_bot)
}


/// Whether an edit is a bot's: either version of the message is by a bot.
pub open spec fn edited_by_bot(old: Option<LoggedMessage>, new: Option<LoggedMessage>) -> bool {
    (new matches Some(n) && n.author.bot) || (old matches Some(o) && o.author.bot)
}

/// Whether an edit is a bot's, and so not logged.
pub fn message_update_by_bot(old: &Option<LoggedMessage>, new: &Option<LoggedMessage>) -> (r: bool)
    ensures
        r == edited_by_bot(*old, *new),
{
    let by_new = match new {
        Some(n) => n.author.bot,
        None => false,
    };
    let by_old = match old {
        Some(o) => o.author.bot,
        None => false,
    };
    by_new || by_old
}

} // verus!
