//! The errors the library reports to users.
use vstd::prelude::*;
use crate::ids::{GenericChannelId, GuildId};
use crate::perms::{permission_names, Permissions};
use crate::messages::FAIL_GP_OWNS_PLAYBACK;
use crate::text::{channel_mention, decimal, push_channel_mention, push_decimal};

verus! {

/// Which kind of channel a permission refusal is about.
#[derive(Debug, Clone, Copy, PartialEq, Eq, Structural)]
pub enum PermScope {
    Text,
    Voice,
}

/// Everything that can go wrong in the verified core.
#[derive(Debug, Clone, Copy, PartialEq, Eq)]
pub enum CrackedError {
    /// The bot lacks `missing` in `channel`.
    MissingBotPermissions { scope: PermScope, channel: GenericChannelId, missing: Permissions },
    /// A game owns playback in the guild, and the caller is not that game.
    GameInProgress,
    /// A member was expected on a voice state and none was there.
    NoMember,
    /// A queue edit by position found the queue empty.
    QueueEmpty,
    /// A queue edit by position named a position past the end.
    IndexOutOfBounds,
    /// A search found nothing.
    NoSearchResults,
    /// A guild event, named by `event`, has no log channel to go to.
    LogChannelWarning { event: &'static str, guild: GuildId },
    /// A queue position outside the range `lower..=upper`.
    NotInRange { value: u64, lower: u64, upper: u64 },
    /// A text that does not parse as a URL.
    UrlParse,
}

/// What a refusal for missing permissions says.
pub open spec fn missing_perms_text(missing: Permissions, channel: GenericChannelId) -> Seq<char> {
    "I am missing these permissions: "@ + permission_names(missing) + " in "@ + channel_mention(
        channel.0,
    )
}

/// The text shown to a user for an error.
pub open spec fn error_text(e: CrackedError) -> Seq<char> {
    match e {
        CrackedError::MissingBotPermissions { scope, channel, missing } => missing_perms_text(
            missing,
            channel,
        ),
        CrackedError::GameInProgress => FAIL_GP_OWNS_PLAYBACK@,
        CrackedError::NoMember => "voice state update with no member"@,
        CrackedError::QueueEmpty => "Queue is empty"@,
        CrackedError::IndexOutOfBounds => "Index out of bounds"@,
        CrackedError::NoSearchResults => "No search results found"@,
        CrackedError::LogChannelWarning { event, guild } => "no log channel for "@ + event@
            + " in guild "@ + decimal(guild.0 as nat),
        CrackedError::NotInRange { value, lower, upper } => "index "@ + decimal(value as nat)
            + " is not in range "@ + decimal(lower as nat) + " to "@ + decimal(upper as nat),
        CrackedError::UrlParse => "invalid URL"@,
    }
}

impl CrackedError {
    /// Renders the error for a user.
    pub fn to_text(&self) -> (s: String)
        ensures
            s@ == error_text(*self),
    {
        match self {
            CrackedError::MissingBotPermissions { scope, channel, missing } => {
                let mut s = String::from_str("I am missing these permissions: ");
                let names = missing.names();
                s.append(names.as_str());
                s.append(" in ");
                push_channel_mention(&mut s, channel.0);
                proof {
                    assert(s@ =~= error_text(*self));
                }
                s
            },
            CrackedError::GameInProgress => String::from_str(FAIL_GP_OWNS_PLAYBACK),
            CrackedError::NoMember => String::from_str("voice state update with no member"),
            CrackedError::QueueEmpty => String::from_str("Queue is empty"),
            CrackedError::IndexOutOfBounds => String::from_str("Index out of bounds"),
            CrackedError::NoSearchResults => String::from_str("No search results found"),
            CrackedError::LogChannelWarning { event, guild } => {
                let mut s = String::from_str("no log channel for ");
                s.append(event);
                s.append(" in guild ");
                push_decimal(&mut s, guild.0);
                proof {
                    assert(s@ =~= error_text(*self));
                }
                s
            },
            CrackedError::NotInRange { value, lower, upper } => {
                let mut s = String::from_str("index ");
                push_decimal(&mut s, *value);
                s.append(" is not in range ");
                push_decimal(&mut s, *lower);
                s.append(" to ");
                push_decimal(&mut s, *upper);
                proof {
                    assert(s@ =~= error_text(*self));
                }
                s
            },
            CrackedError::UrlParse => String::from_str("invalid URL"),
        }
    }
}

} // verus!
