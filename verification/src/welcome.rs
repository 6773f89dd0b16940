//! Greeting a member who joins a guild: the welcome message, and the role
//! given on arrival.
use vstd::prelude::*;
use crate::ids::{GenericChannelId, RoleId, UserId};
use crate::text::{
    chars_of, contains_chars, has_infix, push_user_mention, replace_all, replace_all_chars,
    string_of, user_mention,
};

verus! {

broadcast use vstd::string::group_string_axioms;

/// A guild's welcome settings.
#[derive(Debug, Clone)]
pub struct WelcomeSettings {
    /// The channel the welcome message is posted in.
    pub channel_id: Option<u64>,
    /// The welcome message; `{user}` in it stands for the new member.
    pub message: Option<String>,
    /// The role given to every new member.
    pub auto_role: Option<u64>,
}

/// The placeholder for the new member in a welcome message.
pub open spec fn user_placeholder() -> Seq<char> {
    "{user}"@
}

/// The welcome text: the message with every `{user}` replaced by a mention
/// of the new member, or, without a placeholder, the message followed by a
/// space and the mention.
pub open spec fn welcome_text_of(message: Seq<char>, user: UserId) -> Seq<char> {
    if has_infix(message, user_placeholder()) {
        replace_all(message, user_placeholder(), user_mention(user.0))
    } else {
        message + " "@ + user_mention(user.0)
    }
}

/// Builds the welcome text for `user`.
pub fn welcome_text(message: &str, user: UserId) -> (r: String)
    ensures
        r@ == welcome_text_of(message@, user),
{
    let placeholder = chars_of("{user}");
    let text = chars_of(message);
    let mut mention = String::new();
    push_user_mention(&mut mention, user.0);
    proof {
        assert(mention@ =~= user_mention(user.0));
    }
    if contains_chars(&text, &placeholder) {
        let m = chars_of(mention.as_str());
        let out = replace_all_chars(&text, &placeholder, &m);
        string_of(&out)
    } else {
        let mut r = String::from_str(message);
        r.append(" ");
        r.append(mention.as_str());
        r
    }
}

/// What to do for a new member.
#[derive(Debug, Clone)]
pub struct WelcomePlan {
    /// The welcome text and the channel to post it in.
    pub post: Option<(GenericChannelId, String)>,
    /// The role to give the member.
    pub add_role: Option<RoleId>,
}

/// The plan for a new member: with no welcome settings (or no settings for
/// the guild at all), nothing; otherwise the welcome text when both a
/// message and a channel are set, and the arrival role when one is set.
pub open spec fn welcome_plan_of(settings: Option<WelcomeSettings>, user: UserId) -> (
    Option<(u64, Seq<char>)>,
    Option<u64>,
) {
    match settings {
        None => (None, None),
        Some(w) => (
            match (w.message, w.channel_id) {
                (Some(m), Some(c)) => Some((c, welcome_text_of(m@, user))),
                _ => None,
            },
            w.auto_role,
        ),
    }
}

/// What the plan says, as plain values.
pub open spec fn plan_view(p: WelcomePlan) -> (Option<(u64, Seq<char>)>, Option<u64>) {
    (
        match p.post {
            Some((c, t)) => Some((c.0, t@)),
            None => None,
        },
        match p.add_role {
            Some(r) => Some(r.0),
            None => None,
        },
    )
}

/// Decides what to do for `user` joining a guild with these welcome
/// settings.
pub fn welcome_plan(settings: &Option<WelcomeSettings>, user: UserId) -> (r: WelcomePlan)
    ensures
        plan_view(r) == welcome_plan_of(*settings, user),
{
    match settings {
        None => WelcomePlan { post: None, add_role: None },
        Some(w) => {
            let post = match (&w.message, w.channel_id) {
                (Some(m), Some(c)) => Some((GenericChannelId(c), welcome_text(m.as_str(), user))),
                _ => None,
            };
            let add_role = match w.auto_role {
                Some(r) => Some(RoleId(r)),
                None => None,
            };
            WelcomePlan { post, add_role }
        },
    }
}

} // verus!
