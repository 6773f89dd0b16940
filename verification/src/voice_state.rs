//! The event log's account of a voice state change: who joined, left or
//! switched channels, and which of their voice flags changed.
use vstd::prelude::*;
use crate::ids::{ChannelId, GuildId, UserId};
use crate::text::{channel_mention, push_channel_mention, push_user_mention, user_mention};

verus! {

broadcast use vstd::string::group_string_axioms;

/// The member a voice state belongs to.
#[derive(Debug, Clone)]
pub struct VoiceMember {
    pub user_id: UserId,
    pub name: String,
}

/// A voice state as the log reads it. Fields the log prints with their
/// library's `{:?}` come with that printed form beside the value they are
/// compared by.
#[derive(Debug, Clone)]
pub struct VoiceStateView {
    pub guild_id: Option<GuildId>,
    pub guild_id_text: String,
    pub channel_id: Option<ChannelId>,
    pub member: Option<VoiceMember>,
    pub deaf: bool,
    pub mute: bool,
    pub self_deaf: bool,
    pub self_mute: bool,
    pub self_stream: Option<bool>,
    pub self_video: bool,
    pub suppress: bool,
    pub session_id: String,
    pub session_id_text: String,
    pub user_id: UserId,
    pub user_id_text: String,
    pub request_to_speak: Option<i64>,
    pub request_to_speak_text: String,
}

/// Why no account of a change could be given.
#[derive(Debug, Clone, Copy, PartialEq, Eq, Structural)]
pub enum VoiceDiffFailure {
    /// Neither version of the state names a member.
    NoMember,
    /// The channel the member was in could not be looked up.
    OldChannel,
    /// The channel the member is in now could not be looked up.
    NewChannel,
}

/// A line about one changed flag: `user` and `on_text` or `off_text`.
pub open spec fn flag_line(changed: bool, user: Seq<char>, on: bool, on_text: Seq<char>, off_text: Seq<char>) -> Seq<char> {
    if changed {
        user + " "@ + (if on { on_text } else { off_text }) + "\n"@
    } else {
        Seq::empty()
    }
}

/// A line showing a changed value's printed forms.
pub open spec fn value_line(changed: bool, label: Seq<char>, before: Seq<char>, after: Seq<char>) -> Seq<char> {
    if changed {
        label + before + " -> "@ + after + "\n"@
    } else {
        Seq::empty()
    }
}

/// `true` or `false`, as `{:?}` prints a `bool`.
pub open spec fn bool_debug(b: bool) -> Seq<char> {
    if b { "true"@ } else { "false"@ }
}

/// The lines about the member's server-side flags and guild.
pub open spec fn server_lines(old: VoiceStateView, new: VoiceStateView, user: Seq<char>) -> Seq<char> {
    flag_line(old.deaf != new.deaf, user, new.deaf, "was deafend"@, "was undeafend"@)
        + flag_line(old.mute != new.mute, user, new.mute, "was muted"@, "was unmuted"@)
        + (if old.guild_id != new.guild_id {
            user + " switched guilds?!?! guild_id: "@ + old.guild_id_text@ + " -> "@
                + new.guild_id_text@ + "\n"@
        } else {
            Seq::empty()
        })
}

/// The lines about the flags the member sets themselves.
pub open spec fn self_lines(old: VoiceStateView, new: VoiceStateView, user: Seq<char>) -> Seq<char> {
    flag_line(old.self_deaf != new.self_deaf, user, new.self_deaf, "deafened themselves"@, "undeafened themselves"@)
        + flag_line(old.self_mute != new.self_mute, user, new.self_mute, "muted themselves"@, "unmuted themselves"@)
        + flag_line(
        old.self_stream != new.self_stream,
        user,
        new.self_stream == Some(true),
        "started streaming"@,
        "stopped streaming"@,
    ) + flag_line(
        old.self_video != new.self_video,
        user,
        old.self_video,
        "turned off their camera"@,
        "turned on their camera"@,
    )
}

/// The lines about the state's bookkeeping values.
pub open spec fn value_lines(old: VoiceStateView, new: VoiceStateView) -> Seq<char> {
    value_line(
        old.session_id@ != new.session_id@,
        "session_id: "@,
        old.session_id_text@,
        new.session_id_text@,
    ) + value_line(
        old.suppress != new.suppress,
        "suppress: "@,
        bool_debug(old.suppress),
        bool_debug(new.suppress),
    ) + value_line(
        old.user_id != new.user_id,
        "user_id : "@,
        old.user_id_text@,
        new.user_id_text@,
    ) + value_line(
        old.request_to_speak != new.request_to_speak,
        "request_to_speak: "@,
        old.request_to_speak_text@,
        new.request_to_speak_text@,
    )
}

/// The lines about every flag and value that changed, `user` naming the
/// member, in a fixed order.
pub open spec fn flag_lines(old: VoiceStateView, new: VoiceStateView, user: Seq<char>) -> Seq<char> {
    server_lines(old, new, user) + self_lines(old, new, user) + value_lines(old, new)
}

/// The log's account of the change from `old` to `new`, given whether the
/// old and the new channel could be looked up.
pub open spec fn voice_diff(
    old: Option<VoiceStateView>,
    new: VoiceStateView,
    old_found: bool,
    new_found: bool,
) -> Result<Seq<char>, VoiceDiffFailure> {
    match old {
        None => Ok("Member joined voice channel\n"@ + new.member->0.name@ + (match new.channel_id {
            Some(c) => if new_found {
                " joined "@ + channel_mention(c.0)
            } else {
                " joined unknown channel"@
            },
            None => " joined unknown channel"@,
        })),
        Some(old) => {
            let member = if old.member is Some { old.member } else { new.member };
            match member {
                None => Err(VoiceDiffFailure::NoMember),
                Some(m) => {
                    let user = user_mention(m.user_id.0);
                    match (old.channel_id, new.channel_id) {
                        (Some(o), None) => if !old_found {
                            Err(VoiceDiffFailure::OldChannel)
                        } else {
                            Ok("Member left voice channel\n"@ + user + " left "@ + channel_mention(o.0) + "\n"@)
                        },
                        (None, Some(n)) => if !new_found {
                            Err(VoiceDiffFailure::NewChannel)
                        } else {
                            Ok("Member joined voice channel\n"@ + m.name@ + " joined "@ + channel_mention(n.0) + "\n"@)
                        },
                        (Some(o), Some(n)) => if o == n {
                            Ok(flag_lines(old, new, user))
                        } else if !old_found {
                            Err(VoiceDiffFailure::OldChannel)
                        } else if !new_found {
                            Err(VoiceDiffFailure::NewChannel)
                        } else {
                            Ok("Switched voice channels: "@ + channel_mention(o.0) + " -> "@
                                + channel_mention(n.0) + "\n"@ + flag_lines(old, new, user))
                        },
                        (None, None) => Ok(flag_lines(old, new, user)),
                    }
                },
            }
        },
    }
}

fn push_flag_line(s: &mut String, changed: bool, user: &str, on: bool, on_text: &str, off_text: &str)
    ensures
        final(s)@ == old(s)@ + flag_line(changed, user@, on, on_text@, off_text@),
{
    if changed {
        s.append(user);
        s.append(" ");
        if on {
            s.append(on_text);
        } else {
            s.append(off_text);
        }
        s.append("\n");
    }
    proof {
        assert(s@ =~= old(s)@ + flag_line(changed, user@, on, on_text@, off_text@));
    }
}

fn push_value_line(s: &mut String, changed: bool, label: &str, before: &str, after: &str)
    ensures
        final(s)@ == old(s)@ + value_line(changed, label@, before@, after@),
{
    if changed {
        s.append(label);
        s.append(before);
        s.append(" -> ");
        s.append(after);
        s.append("\n");
    }
    proof {
        assert(s@ =~= old(s)@ + value_line(changed, label@, before@, after@));
    }
}

fn same_text(a: &String, b: &String) -> (r: bool)
    ensures
        r == (a@ == b@),
{
    crate::text::same_chars(&crate::text::chars_of(a.as_str()), &crate::text::chars_of(b.as_str()))
}

fn opt_guild_eq(a: Option<GuildId>, b: Option<GuildId>) -> (r: bool)
    ensures
        r == (a == b),
{
    match (a, b) {
        (Some(x), Some(y)) => x.0 == y.0,
        (None, None) => true,
        _ => false,
    }
}

fn opt_bool_eq(a: Option<bool>, b: Option<bool>) -> (r: bool)
    ensures
        r == (a == b),
{
    match (a, b) {
        (Some(x), Some(y)) => x == y,
        (None, None) => true,
        _ => false,
    }
}

fn opt_i64_eq(a: Option<i64>, b: Option<i64>) -> (r: bool)
    ensures
        r == (a == b),
{
    match (a, b) {
        (Some(x), Some(y)) => x == y,
        (None, None) => true,
        _ => false,
    }
}

fn push_guild_line(s: &mut String, before: &VoiceStateView, after: &VoiceStateView, user: &str)
    ensures
        final(s)@ == old(s)@ + (if before.guild_id != after.guild_id {
            user@ + " switched guilds?!?! guild_id: "@ + before.guild_id_text@ + " -> "@
                + after.guild_id_text@ + "\n"@
        } else {
            Seq::empty()
        }),
{
    if !opt_guild_eq(before.guild_id, after.guild_id) {
        s.append(user);
        s.append(" switched guilds?!?! guild_id: ");
        s.append(before.guild_id_text.as_str());
        s.append(" -> ");
        s.append(after.guild_id_text.as_str());
        s.append("\n");
        proof {
            assert(s@ =~= old(s)@ + (user@ + " switched guilds?!?! guild_id: "@
                + before.guild_id_text@ + " -> "@ + after.guild_id_text@ + "\n"@));
        }
    } else {
        proof {
            assert(s@ =~= old(s)@ + Seq::<char>::empty());
        }
    }
}

proof fn lemma_append3(o: Seq<char>, a: Seq<char>, b: Seq<char>, c: Seq<char>)
    ensures
        o + a + b + c == o + (a + b + c),
{
    vstd::seq_lib::lemma_concat_associative(o, a, b);
    vstd::seq_lib::lemma_concat_associative(o, a + b, c);
}

proof fn lemma_append4(o: Seq<char>, a: Seq<char>, b: Seq<char>, c: Seq<char>, d: Seq<char>)
    ensures
        o + a + b + c + d == o + (a + b + c + d),
{
    lemma_append3(o, a, b, c);
    vstd::seq_lib::lemma_concat_associative(o, a + b + c, d);
}

fn push_server_lines(s: &mut String, before: &VoiceStateView, after: &VoiceStateView, user: &str)
    ensures
        final(s)@ == old(s)@ + server_lines(*before, *after, user@),
{
    push_flag_line(s, before.deaf != after.deaf, user, after.deaf, "was deafend", "was undeafend");
    push_flag_line(s, before.mute != after.mute, user, after.mute, "was muted", "was unmuted");
    push_guild_line(s, before, after, user);
    proof {
        lemma_append3(
            old(s)@,
            flag_line(before.deaf != after.deaf, user@, after.deaf, "was deafend"@, "was undeafend"@),
            flag_line(before.mute != after.mute, user@, after.mute, "was muted"@, "was unmuted"@),
            (if before.guild_id != after.guild_id {
                user@ + " switched guilds?!?! guild_id: "@ + before.guild_id_text@ + " -> "@
                    + after.guild_id_text@ + "\n"@
            } else {
                Seq::empty()
            }),
        );
    }
}

fn push_self_lines(s: &mut String, before: &VoiceStateView, after: &VoiceStateView, user: &str)
    ensures
        final(s)@ == old(s)@ + self_lines(*before, *after, user@),
{
    push_flag_line(s, before.self_deaf != after.self_deaf, user, after.self_deaf, "deafened themselves", "undeafened themselves");
    push_flag_line(s, before.self_mute != after.self_mute, user, after.self_mute, "muted themselves", "unmuted themselves");
    let streaming = match after.self_stream {
        Some(b) => b,
        None => false,
    };
    push_flag_line(
        s,
        !opt_bool_eq(before.self_stream, after.self_stream),
        user,
        streaming,
        "started streaming",
        "stopped streaming",
    );
    push_flag_line(
        s,
        before.self_video != after.self_video,
        user,
        before.self_video,
        "turned off their camera",
        "turned on their camera",
    );
    proof {
        assert((after.self_stream == Some(true)) == streaming);
        lemma_append4(
            old(s)@,
            flag_line(before.self_deaf != after.self_deaf, user@, after.self_deaf, "deafened themselves"@, "undeafened themselves"@),
            flag_line(before.self_mute != after.self_mute, user@, after.self_mute, "muted themselves"@, "unmuted themselves"@),
            flag_line(before.self_stream != after.self_stream, user@, after.self_stream == Some(true), "started streaming"@, "stopped streaming"@),
            flag_line(before.self_video != after.self_video, user@, before.self_video, "turned off their camera"@, "turned on their camera"@),
        );
    }
}

fn push_value_lines(s: &mut String, before: &VoiceStateView, after: &VoiceStateView)
    ensures
        final(s)@ == old(s)@ + value_lines(*before, *after),
{
    push_value_line(
        s,
        !same_text(&before.session_id, &after.session_id),
        "session_id: ",
        before.session_id_text.as_str(),
        after.session_id_text.as_str(),
    );
    let b_old = if before.suppress { "true" } else { "false" };
    let b_new = if after.suppress { "true" } else { "false" };
    push_value_line(s, before.suppress != after.suppress, "suppress: ", b_old, b_new);
    push_value_line(
        s,
        before.user_id.0 != after.user_id.0,
        "user_id : ",
        before.user_id_text.as_str(),
        after.user_id_text.as_str(),
    );
    push_value_line(
        s,
        !opt_i64_eq(before.request_to_speak, after.request_to_speak),
        "request_to_speak: ",
        before.request_to_speak_text.as_str(),
        after.request_to_speak_text.as_str(),
    );
    proof {
        lemma_append4(
            old(s)@,
            value_line(before.session_id@ != after.session_id@, "session_id: "@, before.session_id_text@, after.session_id_text@),
            value_line(before.suppress != after.suppress, "suppress: "@, bool_debug(before.suppress), bool_debug(after.suppress)),
            value_line(before.user_id != after.user_id, "user_id : "@, before.user_id_text@, after.user_id_text@),
            value_line(before.request_to_speak != after.request_to_speak, "request_to_speak: "@, before.request_to_speak_text@, after.request_to_speak_text@),
        );
    }
}

fn push_flag_lines(s: &mut String, before: &VoiceStateView, after: &VoiceStateView, user: &str)
    ensures
        final(s)@ == old(s)@ + flag_lines(*before, *after, user@),
{
    push_server_lines(s, before, after, user);
    push_self_lines(s, before, after, user);
    push_value_lines(s, before, after);
    proof {
        vstd::seq_lib::lemma_concat_associative(old(s)@, server_lines(*before, *after, user@), self_lines(*before, *after, user@));
        vstd::seq_lib::lemma_concat_associative(old(s)@, server_lines(*before, *after, user@) + self_lines(*before, *after, user@), value_lines(*before, *after));
    }
}

/// Describes the change from `old` to `new` for the event log. The caller
/// looks up the channels first and says whether each lookup succeeded; a
/// join with no previous state needs the new state's member.
pub fn voice_state_diff_str(
    old: Option<&VoiceStateView>,
    new: &VoiceStateView,
    old_found: bool,
    new_found: bool,
) -> (r: Result<String, VoiceDiffFailure>)
    requires
        old is None ==> new.member is Some,
    ensures
        match (r, voice_diff(
            match old {
                Some(o) => Some(*o),
                None => None,
            },
            *new,
            old_found,
            new_found,
        )) {
            (Ok(s), Ok(t)) => s@ == t,
            (Err(e), Err(f)) => e == f,
            _ => false,
        },
{
    let old = match old {
        None => {
            let name = match &new.member {
                Some(m) => m.name.as_str(),
                None => "",
            };
            let mut s = String::from_str("Member joined voice channel\n");
            s.append(name);
            match new.channel_id {
                Some(c) => {
                    if new_found {
                        s.append(" joined ");
                        push_channel_mention(&mut s, c.0);
                    } else {
                        s.append(" joined unknown channel");
                    }
                },
                None => s.append(" joined unknown channel"),
            }
            return Ok(s);
        },
        Some(o) => o,
    };
    let member = match &old.member {
        Some(m) => m,
        None => match &new.member {
            Some(m) => m,
            None => {
                return Err(VoiceDiffFailure::NoMember);
            },
        },
    };
    let mut user = String::new();
    push_user_mention(&mut user, member.user_id.0);
    assert(user@ =~= user_mention(member.user_id.0));
    let mut result = String::new();
    match (old.channel_id, new.channel_id) {
        (Some(o), None) => {
            if !old_found {
                return Err(VoiceDiffFailure::OldChannel);
            }
            let mut s = String::from_str("Member left voice channel\n");
            s.append(user.as_str());
            s.append(" left ");
            push_channel_mention(&mut s, o.0);
            s.append("\n");
            return Ok(s);
        },
        (None, Some(n)) => {
            if !new_found {
                return Err(VoiceDiffFailure::NewChannel);
            }
            let mut s = String::from_str("Member joined voice channel\n");
            s.append(member.name.as_str());
            s.append(" joined ");
            push_channel_mention(&mut s, n.0);
            s.append("\n");
            return Ok(s);
        },
        (Some(o), Some(n)) => {
            if o.0 != n.0 {
                if !old_found {
                    return Err(VoiceDiffFailure::OldChannel);
                }
                if !new_found {
                    return Err(VoiceDiffFailure::NewChannel);
                }
                result.append("Switched voice channels: ");
                push_channel_mention(&mut result, o.0);
                result.append(" -> ");
                push_channel_mention(&mut result, n.0);
                result.append("\n");
            }
        },
        (None, None) => {},
    }
    let ghost head = result@;
    push_flag_lines(&mut result, old, new, user.as_str());
    proof {
        match (old.channel_id, new.channel_id) {
            (Some(o), Some(n)) => {
                if o != n {
                    assert(result@ =~= "Switched voice channels: "@ + channel_mention(o.0)
                        + " -> "@ + channel_mention(n.0) + "\n"@ + flag_lines(*old, *new, user@));
                } else {
                    assert(result@ =~= flag_lines(*old, *new, user@));
                }
            },
            _ => {
                assert(result@ =~= flag_lines(*old, *new, user@));
            },
        }
    }
    Ok(result)
}

} // verus!

verus! {

/// A voice state compared with itself is described by nothing at all.
pub proof fn an_unchanged_state_says_nothing(s: VoiceStateView, old_found: bool, new_found: bool)
    requires
        s.member is Some,
    ensures
        voice_diff(Some(s), s, old_found, new_found) == Ok::<Seq<char>, VoiceDiffFailure>(Seq::empty()),
{
    let user = user_mention(s.member->0.user_id.0);
    assert(server_lines(s, s, user) =~= Seq::<char>::empty());
    assert(self_lines(s, s, user) =~= Seq::<char>::empty());
    assert(value_lines(s, s) =~= Seq::<char>::empty());
    assert(flag_lines(s, s, user) =~= Seq::<char>::empty());
}

/// Leaving and joining are told apart by where the member was and is: a
/// member who had a channel and has none left it, one who had none and has
/// one joined it, each naming the channel (when it could be looked up).
pub proof fn leaving_and_joining_name_the_channel(old: VoiceStateView, new: VoiceStateView, channel: ChannelId)
    requires
        old.member is Some,
    ensures
        old.channel_id == Some(channel) && new.channel_id is None ==> voice_diff(
            Some(old),
            new,
            true,
            true,
        ) == Ok::<Seq<char>, VoiceDiffFailure>(
            "Member left voice channel\n"@ + user_mention(old.member->0.user_id.0) + " left "@
                + channel_mention(channel.0) + "\n"@,
        ),
        old.channel_id is None && new.channel_id == Some(channel) ==> voice_diff(
            Some(old),
            new,
            true,
            true,
        ) == Ok::<Seq<char>, VoiceDiffFailure>(
            "Member joined voice channel\n"@ + old.member->0.name@ + " joined "@ + channel_mention(
                channel.0,
            ) + "\n"@,
        ),
{
}


/// A member muted or unmuted by the server, with nothing else about their
/// state changed, is logged with one line saying just that: "was muted" when
/// the new state is muted, "was unmuted" when it is not. The same holds of
/// being deafened by the server.
pub proof fn a_server_mute_alone_is_told_as_such(
    s: VoiceStateView,
    flag: bool,
    old_found: bool,
    new_found: bool,
)
    requires
        s.member is Some,
        s.channel_id is Some,
    ensures
        s.mute != flag ==> voice_diff(
            Some(s),
            VoiceStateView { mute: flag, ..s },
            old_found,
            new_found,
        ) == Ok::<Seq<char>, VoiceDiffFailure>(
            user_mention(s.member->0.user_id.0) + (if flag {
                " was muted\n"@
            } else {
                " was unmuted\n"@
            }),
        ),
        s.deaf != flag ==> voice_diff(
            Some(s),
            VoiceStateView { deaf: flag, ..s },
            old_found,
            new_found,
        ) == Ok::<Seq<char>, VoiceDiffFailure>(
            user_mention(s.member->0.user_id.0) + (if flag {
                " was deafend\n"@
            } else {
                " was undeafend\n"@
            }),
        ),
{
    let user = user_mention(s.member->0.user_id.0);
    reveal_strlit(" ");
    reveal_strlit("\n");
    reveal_strlit("was muted");
    reveal_strlit("was unmuted");
    reveal_strlit(" was muted\n");
    reveal_strlit(" was unmuted\n");
    reveal_strlit("was deafend");
    reveal_strlit("was undeafend");
    reveal_strlit(" was deafend\n");
    reveal_strlit(" was undeafend\n");
    if s.mute != flag {
        let n = VoiceStateView { mute: flag, ..s };
        assert(self_lines(s, n, user) =~= Seq::<char>::empty());
        assert(value_lines(s, n) =~= Seq::<char>::empty());
        assert(server_lines(s, n, user) =~= user + (if flag {
            " was muted\n"@
        } else {
            " was unmuted\n"@
        }));
        assert(flag_lines(s, n, user) =~= server_lines(s, n, user));
    }
    if s.deaf != flag {
        let n = VoiceStateView { deaf: flag, ..s };
        assert(self_lines(s, n, user) =~= Seq::<char>::empty());
        assert(value_lines(s, n) =~= Seq::<char>::empty());
        assert(server_lines(s, n, user) =~= user + (if flag {
            " was deafend\n"@
        } else {
            " was undeafend\n"@
        }));
        assert(flag_lines(s, n, user) =~= server_lines(s, n, user));
    }
}


proof fn lemma_self_deaf_alone(s: VoiceStateView, flag: bool, old_found: bool, new_found: bool)
    requires
        s.member is Some,
        s.channel_id is Some,
    ensures
        s.self_deaf != flag ==> voice_diff(
            Some(s),
            VoiceStateView { self_deaf: flag, ..s },
            old_found,
            new_found,
        ) == Ok::<Seq<char>, VoiceDiffFailure>(
            user_mention(s.member->0.user_id.0) + (if flag {
                " deafened themselves\n"@
            } else {
                " undeafened themselves\n"@
            }),
        ),
{
    if s.self_deaf != flag {
        let user = user_mention(s.member->0.user_id.0);
        let n = VoiceStateView { self_deaf: flag, ..s };
        reveal_strlit(" ");
        reveal_strlit("\n");
        reveal_strlit("deafened themselves");
        reveal_strlit("undeafened themselves");
        reveal_strlit(" deafened themselves\n");
        reveal_strlit(" undeafened themselves\n");
        assert(server_lines(s, n, user) =~= Seq::<char>::empty());
        assert(value_lines(s, n) =~= Seq::<char>::empty());
        assert(flag_lines(s, n, user) =~= user + (if flag {
            " deafened themselves\n"@
        } else {
            " undeafened themselves\n"@
        }));
    }
}

proof fn lemma_self_mute_alone(s: VoiceStateView, flag: bool, old_found: bool, new_found: bool)
    requires
        s.member is Some,
        s.channel_id is Some,
    ensures
        s.self_mute != flag ==> voice_diff(
            Some(s),
            VoiceStateView { self_mute: flag, ..s },
            old_found,
            new_found,
        ) == Ok::<Seq<char>, VoiceDiffFailure>(
            user_mention(s.member->0.user_id.0) + (if flag {
                " muted themselves\n"@
            } else {
                " unmuted themselves\n"@
            }),
        ),
{
    if s.self_mute != flag {
        let user = user_mention(s.member->0.user_id.0);
        let n = VoiceStateView { self_mute: flag, ..s };
        reveal_strlit(" ");
        reveal_strlit("\n");
        reveal_strlit("muted themselves");
        reveal_strlit("unmuted themselves");
        reveal_strlit(" muted themselves\n");
        reveal_strlit(" unmuted themselves\n");
        assert(server_lines(s, n, user) =~= Seq::<char>::empty());
        assert(value_lines(s, n) =~= Seq::<char>::empty());
        assert(flag_lines(s, n, user) =~= user + (if flag {
            " muted themselves\n"@
        } else {
            " unmuted themselves\n"@
        }));
    }
}

proof fn lemma_self_video_alone(s: VoiceStateView, flag: bool, old_found: bool, new_found: bool)
    requires
        s.member is Some,
        s.channel_id is Some,
    ensures
        s.self_video != flag ==> voice_diff(
            Some(s),
            VoiceStateView { self_video: flag, ..s },
            old_found,
            new_found,
        ) == Ok::<Seq<char>, VoiceDiffFailure>(
            user_mention(s.member->0.user_id.0) + (if flag {
                " turned on their camera\n"@
            } else {
                " turned off their camera\n"@
            }),
        ),
{
    if s.self_video != flag {
        let user = user_mention(s.member->0.user_id.0);
        let n = VoiceStateView { self_video: flag, ..s };
        reveal_strlit(" ");
        reveal_strlit("\n");
        reveal_strlit("turned on their camera");
        reveal_strlit("turned off their camera");
        reveal_strlit(" turned on their camera\n");
        reveal_strlit(" turned off their camera\n");
        assert(server_lines(s, n, user) =~= Seq::<char>::empty());
        assert(value_lines(s, n) =~= Seq::<char>::empty());
        assert(flag_lines(s, n, user) =~= user + (if flag {
            " turned on their camera\n"@
        } else {
            " turned off their camera\n"@
        }));
    }
}

proof fn lemma_self_stream_alone(s: VoiceStateView, stream: Option<bool>, old_found: bool, new_found: bool)
    requires
        s.member is Some,
        s.channel_id is Some,
    ensures
        s.self_stream != stream ==> voice_diff(
            Some(s),
            VoiceStateView { self_stream: stream, ..s },
            old_found,
            new_found,
        ) == Ok::<Seq<char>, VoiceDiffFailure>(
            user_mention(s.member->0.user_id.0) + (if stream == Some(true) {
                " started streaming\n"@
            } else {
                " stopped streaming\n"@
            }),
        ),
{
    if s.self_stream != stream {
        let user = user_mention(s.member->0.user_id.0);
        let n = VoiceStateView { self_stream: stream, ..s };
        reveal_strlit(" ");
        reveal_strlit("\n");
        reveal_strlit("started streaming");
        reveal_strlit("stopped streaming");
        reveal_strlit(" started streaming\n");
        reveal_strlit(" stopped streaming\n");
        assert(server_lines(s, n, user) =~= Seq::<char>::empty());
        assert(value_lines(s, n) =~= Seq::<char>::empty());
        assert(flag_lines(s, n, user) =~= user + (if stream == Some(true) {
            " started streaming\n"@
        } else {
            " stopped streaming\n"@
        }));
    }
}

/// A flag the member sets themselves, changed with nothing else, is logged
/// with one line about the member: deafening and muting themselves by the
/// new state, streaming by whether the new state streams, and the camera
/// by the old state (a camera that was on was turned off).
pub proof fn a_flag_the_member_sets_alone_is_told_as_such(
    s: VoiceStateView,
    flag: bool,
    stream: Option<bool>,
    old_found: bool,
    new_found: bool,
)
    requires
        s.member is Some,
        s.channel_id is Some,
    ensures
        s.self_deaf != flag ==> voice_diff(
            Some(s),
            VoiceStateView { self_deaf: flag, ..s },
            old_found,
            new_found,
        ) == Ok::<Seq<char>, VoiceDiffFailure>(
            user_mention(s.member->0.user_id.0) + (if flag {
                " deafened themselves\n"@
            } else {
                " undeafened themselves\n"@
            }),
        ),
        s.self_mute != flag ==> voice_diff(
            Some(s),
            VoiceStateView { self_mute: flag, ..s },
            old_found,
            new_found,
        ) == Ok::<Seq<char>, VoiceDiffFailure>(
            user_mention(s.member->0.user_id.0) + (if flag {
                " muted themselves\n"@
            } else {
                " unmuted themselves\n"@
            }),
        ),
        s.self_video != flag ==> voice_diff(
            Some(s),
            VoiceStateView { self_video: flag, ..s },
            old_found,
            new_found,
        ) == Ok::<Seq<char>, VoiceDiffFailure>(
            user_mention(s.member->0.user_id.0) + (if flag {
                " turned on their camera\n"@
            } else {
                " turned off their camera\n"@
            }),
        ),
        s.self_stream != stream ==> voice_diff(
            Some(s),
            VoiceStateView { self_stream: stream, ..s },
            old_found,
            new_found,
        ) == Ok::<Seq<char>, VoiceDiffFailure>(
            user_mention(s.member->0.user_id.0) + (if stream == Some(true) {
                " started streaming\n"@
            } else {
                " stopped streaming\n"@
            }),
        ),
{
    lemma_self_deaf_alone(s, flag, old_found, new_found);
    lemma_self_mute_alone(s, flag, old_found, new_found);
    lemma_self_video_alone(s, flag, old_found, new_found);
    lemma_self_stream_alone(s, stream, old_found, new_found);
}

/// What the bot does about a voice state update.
#[derive(Debug, Clone, Copy, PartialEq, Eq, Structural)]
pub enum BotVoiceStep {
    /// Nothing: the update is not about the bot, or needs no action.
    Ignore,
    /// The bot is in a channel and its guild wants it deafened: deafen it
    /// unless the bot's own settings already decide deafening, and it is
    /// not deaf yet.
    Deafen,
    /// The bot left voice: leave the guild's call if there is one, and
    /// discard a game in progress there.
    LeaveAndDiscardGame,
}

/// The step for an update of `user`'s voice state, the bot being `bot`. A
/// guild without settings counts as deafening itself; a guild that does not
/// wants the bot deafened.
pub open spec fn bot_voice_step_of(
    user: UserId,
    bot: UserId,
    in_channel: bool,
    guild_self_deafen: Option<bool>,
) -> BotVoiceStep {
    if user != bot {
        BotVoiceStep::Ignore
    } else if in_channel {
        if guild_self_deafen == Some(false) {
            BotVoiceStep::Deafen
        } else {
            BotVoiceStep::Ignore
        }
    } else {
        BotVoiceStep::LeaveAndDiscardGame
    }
}

/// Decides what to do about a voice state update of `user`.
pub fn bot_voice_step(
    user: UserId,
    bot: UserId,
    in_channel: bool,
    guild_self_deafen: Option<bool>,
) -> (r: BotVoiceStep)
    ensures
        r == bot_voice_step_of(user, bot, in_channel, guild_self_deafen),
{
    if user != bot {
        return BotVoiceStep::Ignore;
    }
    if in_channel {
        match guild_self_deafen {
            Some(false) => BotVoiceStep::Deafen,
            _ => BotVoiceStep::Ignore,
        }
    } else {
        BotVoiceStep::LeaveAndDiscardGame
    }
}

/// Whether to deafen the bot: its own settings do not decide deafening, the
/// voice state is the current user's, and it is not deaf already.
pub fn should_self_deafen(
    bot_setting_set: bool,
    current_user: UserId,
    state_user: UserId,
    deaf: bool,
) -> (r: bool)
    ensures
        r == (!bot_setting_set && current_user == state_user && !deaf),
{
    !bot_setting_set && current_user == state_user && !deaf
}

/// The messages older than `timeout` at `now`, in order: those created
/// strictly more than `timeout` before `now`.
pub open spec fn older_than<T>(msgs: Seq<(i64, T)>, now: i64, timeout: i64) -> Seq<(i64, T)> {
    msgs.filter(|m: (i64, T)| now - m.0 > timeout)
}

/// Picks the cached messages to delete: those older than `timeout`, times
/// in milliseconds.
pub fn messages_to_delete<T: Copy>(msgs: &Vec<(i64, T)>, now: i64, timeout: i64) -> (r: Vec<(i64, T)>)
    ensures
        r@ == older_than(msgs@, now, timeout),
{
    let mut out: Vec<(i64, T)> = Vec::new();
    let mut i: usize = 0;
    while i < msgs.len()
        invariant
            i <= msgs@.len(),
            out@ == older_than(msgs@.take(i as int), now, timeout),
        decreases msgs@.len() - i,
    {
        let m = msgs[i];
        proof {
            assert(msgs@.take(i + 1).drop_last() =~= msgs@.take(i as int));
            assert(msgs@.take(i + 1).last() == m);
            reveal_with_fuel(Seq::filter, 1);
        }
        let age: i128 = now as i128 - m.0 as i128;
        if age > timeout as i128 {
            out.push(m);
        }
        proof {
            assert(out@ =~= older_than(msgs@.take(i + 1), now, timeout));
        }
        i = i + 1;
    }
    assert(msgs@.take(msgs@.len() as int) =~= msgs@);
    out
}

} // verus!
