//! Everything the bot says in reply to a command, and how each message
//! reads.
use vstd::prelude::*;
use crate::errors::{error_text, CrackedError};
use crate::ids::{GenericChannelId, GuildId, RoleId, UserId};
use crate::messages::{
    ADDED_QUEUE, AUTHORIZED, AUTOPAUSE_OFF, AUTOPAUSE_ON, AUTOPLAY_OFF, AUTOPLAY_ON, AUTO_ROLE, BANNED, BUG, BUG_END, CATEGORY_CREATED, CHANNEL_DELETED, CHANNEL_SIZE_SET, CLEANED, CLEARED, COINFLIP, DEAFENED, DEAFENED_FAIL, DEAUTHORIZED, ERROR, FAIL_INVALID_IP, GP_CLOSED_BY_HOST, GP_ENDED_BY, GP_QUEUE_CLEARED, GP_ROUND_SKIPPED, GP_STARTED, GP_STARTED_ROUNDS, GP_STARTED_TIMER, GP_SUBMITTED, GP_SUBMITTED_IN_VC, GP_SUBMITTED_OF, GP_SUBMITTED_REPLACED, GP_WINDOW_CLOSED_SONGS, GRABBED_NOTICE, INVITE_LINK_TEXT, INVITE_TEXT, INVITE_URL, IP_DETAILS, JOINING, KICKED, LEAVING, LOOP_DISABLED, LOOP_ENABLED, MUTED, NO_AUTO_ROLE, OLD_VOLUME, ONETWOFT, OWNERS_ONLY, PAGINATION_COMPLETE, PASSWORD_PWNED, PASSWORD_SAFE, PAUSED, PHONE_NUMBER_INFO_ERROR, PLAYLIST_CREATED, PLAY_ALL_FAILED, PLAY_FAILED_BLOCKED_DOMAIN, PLAY_LOG, PLAY_PLAYLIST, PREFIXES, PREMIUM, PREMIUM_PLUG, QUEUE_NOW_PLAYING, REMOVED_QUEUE_MULTIPLE, RESUMED, ROLE_CREATED, ROLE_DELETED, ROLE_NOT_FOUND, SEARCHING, SEEKED, SEEK_FAIL, SHUFFLED_SUCCESS, SKIPPED, SKIPPED_ALL, SKIPPED_TO, SKIP_VOTE_EMOJI, SKIP_VOTE_MISSING, SKIP_VOTE_USER, SONG_MOVED, SONG_MOVED_FROM, SONG_MOVED_TO, STOPPED, SUBCOMMAND_NOT_FOUND, TEXT_CHANNEL_CREATED, TIMEOUT, UNBANNED, UNDEAFENED, UNDEAFENED_FAIL, UNMUTED, UNTIL, VERSION, VERSION_LATEST, VERSION_LATEST_HASH, VOICE_CHANNEL_CREATED, VOLUME, VOTE_TOPGG_NOT_VOTED, VOTE_TOPGG_VOTED, WAYBACK_SNAPSHOT,
};
use crate::text::{
    bool_text, channel_mention, chars_of, decimal, decimals, join, join_decimals, join_strings,
    push_bool, push_channel_mention, push_decimal, push_role_mention, push_signed,
    push_user_mention, replace_all, replace_all_chars, role_mention, signed_decimal, string_of,
    user_mention,
};
use crate::urls::strings_view;

verus! {

broadcast use vstd::string::group_string_axioms;

/// The project's release page.
pub const RELEASES_LINK: &'static str = "https://github.com/cycle-five/cracktunes/releases";
/// The project's repository.
pub const REPO_LINK: &'static str = "https://github.com/cycle-five/cracktunes/";

/// A mention of a user, a channel or a role.
#[derive(Debug, Clone, Copy, PartialEq, Eq, Structural)]
pub enum Mention {
    User(UserId),
    Channel(GenericChannelId),
    Role(RoleId),
}

/// How Discord writes a mention.
pub open spec fn mention_text(m: Mention) -> Seq<char> {
    match m {
        Mention::User(u) => user_mention(u.0),
        Mention::Channel(c) => channel_mention(c.0),
        Mention::Role(r) => role_mention(r.0),
    }
}

/// Appends a mention.
pub fn push_mention(s: &mut String, m: &Mention)
    ensures
        final(s)@ == old(s)@ + mention_text(*m),
{
    match m {
        Mention::User(u) => push_user_mention(s, u.0),
        Mention::Channel(c) => push_channel_mention(s, c.0),
        Mention::Role(r) => push_role_mention(s, r.0),
    }
}

/// A message to a user. Values whose printing belongs to another library
/// (an embed, an HTTP error, a seek error, a volume, a duration) are carried
/// as the text that library printed.
#[derive(Debug, Clone)]
pub enum CrackedMessage {
    AutopauseOff,
    AutopauseOn,
    AutoplayOff,
    AutoplayOn,
    AutoRole(RoleId),
    BugNone(String),
    CategoryCreated { channel_id: GenericChannelId, channel_name: String },
    CountryName(String),
    Coinflip(bool),
    ChannelSizeSet { id: GenericChannelId, name: String, size: u32 },
    ChannelDeleted { channel_id: GenericChannelId, channel_name: String },
    Clear,
    Clean(i32),
    CrackedError(CrackedError),
    CrackedRed(String),
    CreateEmbed(String),
    CommandFound(String),
    DiceRoll { dice: u32, sides: u32, results: Vec<u32> },
    DomainInfo(String),
    Error,
    ErrorHttp(String),
    GrabbedNotice,
    InvalidIP(String),
    InviteLink,
    IPDetails(String),
    IPVersion(String),
    Leaving,
    LoopDisable,
    LoopEnable,
    NoAutoRole,
    NowPlaying,
    Other(String),
    OwnersOnly,
    PaginationComplete,
    Pause,
    PasswordPwned,
    PasswordSafe,
    Paywall(String),
    PhoneNumberInfo(String),
    PhoneNumberInfoError,
    PlayAllFailed,
    PlayDomainBanned { domain: String },
    PlaylistCreated(String, usize),
    PlaylistQueued,
    PlaylistQueuing(String),
    PlayLog(Vec<String>),
    Pong,
    Prefixes(Vec<String>),
    Premium(bool),
    PremiumPlug,
    RemoveMultiple,
    Resume,
    RoleCreated { role_id: RoleId, role_name: String },
    RoleDeleted { role_id: RoleId, role_name: String },
    RoleNotFound,
    Search,
    Seek { timestamp: String },
    SeekFail { timestamp: String, error: String },
    Shuffle,
    Skip,
    SkipAll,
    SkipTo { title: String, url: String },
    Stop,
    SubcommandNotFound { group: String, subcommand: String },
    SocialMediaResponse { response: String },
    SongMoved { at: usize, to: usize },
    SongQueued { title: String, url: String },
    Summon { mention: Mention },
    TextChannelCreated { channel_id: GenericChannelId, channel_name: String },
    Uptime { mention: String, uptime: String },
    UserAuthorized { id: UserId, mention: Mention, guild_id: GuildId, guild_name: String },
    UserDeauthorized { id: UserId, mention: Mention, guild_id: GuildId, guild_name: String },
    UserTimeout { id: UserId, mention: Mention, timeout_until: String },
    UserKicked { mention: Mention, id: UserId },
    UserBanned { mention: Mention, id: UserId },
    UserUnbanned { mention: Mention, id: UserId },
    UserMuted { mention: Mention, id: UserId },
    UserUnmuted { mention: Mention, id: UserId },
    UserDeafened { mention: Mention, id: UserId },
    UserDeafenedFail { mention: Mention, id: UserId },
    UserUndeafened { mention: Mention, id: UserId },
    UserUndeafenedFail { mention: Mention, id: UserId },
    Version { current: String, hash: String },
    VoteTopggVoted,
    VoteTopggNotVoted,
    VoteSkip { mention: Mention, missing: usize },
    VoiceChannelCreated { channel_name: String },
    Volume { vol: String, old_vol: String },
    WaybackSnapshot { url: String },
    WelcomeSettings(String),
    GpSubmitted { title: String, replaced: bool, submitted: usize, of: usize },
    GpStarted { category: String, rounds: usize, timer: String, cleared_queue: bool },
    GpRoundSkipped,
    GpEnded { by: String },
    GpWindowClosed { count: usize },
}

/// The position of a message's kind in the list of kinds, counting from 0.
pub open spec fn kind_index(m: CrackedMessage) -> u8 {
    match m {
        CrackedMessage::AutopauseOff => 0,
        CrackedMessage::AutopauseOn => 1,
        CrackedMessage::AutoplayOff => 2,
        CrackedMessage::AutoplayOn => 3,
        CrackedMessage::AutoRole(..) => 4,
        CrackedMessage::BugNone(..) => 5,
        CrackedMessage::CategoryCreated { .. } => 6,
        CrackedMessage::CountryName(..) => 7,
        CrackedMessage::Coinflip(..) => 8,
        CrackedMessage::ChannelSizeSet { .. } => 9,
        CrackedMessage::ChannelDeleted { .. } => 10,
        CrackedMessage::Clear => 11,
        CrackedMessage::Clean(..) => 12,
        CrackedMessage::CrackedError(..) => 13,
        CrackedMessage::CrackedRed(..) => 14,
        CrackedMessage::CreateEmbed(..) => 15,
        CrackedMessage::CommandFound(..) => 16,
        CrackedMessage::DiceRoll { .. } => 17,
        CrackedMessage::DomainInfo(..) => 18,
        CrackedMessage::Error => 19,
        CrackedMessage::ErrorHttp(..) => 20,
        CrackedMessage::GrabbedNotice => 21,
        CrackedMessage::InvalidIP(..) => 22,
        CrackedMessage::InviteLink => 23,
        CrackedMessage::IPDetails(..) => 24,
        CrackedMessage::IPVersion(..) => 25,
        CrackedMessage::Leaving => 26,
        CrackedMessage::LoopDisable => 27,
        CrackedMessage::LoopEnable => 28,
        CrackedMessage::NoAutoRole => 29,
        CrackedMessage::NowPlaying => 30,
        CrackedMessage::Other(..) => 31,
        CrackedMessage::OwnersOnly => 32,
        CrackedMessage::PaginationComplete => 33,
        CrackedMessage::Pause => 34,
        CrackedMessage::PasswordPwned => 35,
        CrackedMessage::PasswordSafe => 36,
        CrackedMessage::Paywall(..) => 37,
        CrackedMessage::PhoneNumberInfo(..) => 38,
        CrackedMessage::PhoneNumberInfoError => 39,
        CrackedMessage::PlayAllFailed => 40,
        CrackedMessage::PlayDomainBanned { .. } => 41,
        CrackedMessage::PlaylistCreated(..) => 42,
        CrackedMessage::PlaylistQueued => 43,
        CrackedMessage::PlaylistQueuing(..) => 44,
        CrackedMessage::PlayLog(..) => 45,
        CrackedMessage::Pong => 46,
        CrackedMessage::Prefixes(..) => 47,
        CrackedMessage::Premium(..) => 48,
        CrackedMessage::PremiumPlug => 49,
        CrackedMessage::RemoveMultiple => 50,
        CrackedMessage::Resume => 51,
        CrackedMessage::RoleCreated { .. } => 52,
        CrackedMessage::RoleDeleted { .. } => 53,
        CrackedMessage::RoleNotFound => 54,
        CrackedMessage::Search => 55,
        CrackedMessage::Seek { .. } => 56,
        CrackedMessage::SeekFail { .. } => 57,
        CrackedMessage::Shuffle => 58,
        CrackedMessage::Skip => 59,
        CrackedMessage::SkipAll => 60,
        CrackedMessage::SkipTo { .. } => 61,
        CrackedMessage::Stop => 62,
        CrackedMessage::SubcommandNotFound { .. } => 63,
        CrackedMessage::SocialMediaResponse { .. } => 64,
        CrackedMessage::SongMoved { .. } => 65,
        CrackedMessage::SongQueued { .. } => 66,
        CrackedMessage::Summon { .. } => 67,
        CrackedMessage::TextChannelCreated { .. } => 68,
        CrackedMessage::Uptime { .. } => 69,
        CrackedMessage::UserAuthorized { .. } => 70,
        CrackedMessage::UserDeauthorized { .. } => 71,
        CrackedMessage::UserTimeout { .. } => 72,
        CrackedMessage::UserKicked { .. } => 73,
        CrackedMessage::UserBanned { .. } => 74,
        CrackedMessage::UserUnbanned { .. } => 75,
        CrackedMessage::UserMuted { .. } => 76,
        CrackedMessage::UserUnmuted { .. } => 77,
        CrackedMessage::UserDeafened { .. } => 78,
        CrackedMessage::UserDeafenedFail { .. } => 79,
        CrackedMessage::UserUndeafened { .. } => 80,
        CrackedMessage::UserUndeafenedFail { .. } => 81,
        CrackedMessage::Version { .. } => 82,
        CrackedMessage::VoteTopggVoted => 83,
        CrackedMessage::VoteTopggNotVoted => 84,
        CrackedMessage::VoteSkip { .. } => 85,
        CrackedMessage::VoiceChannelCreated { .. } => 86,
        CrackedMessage::Volume { .. } => 87,
        CrackedMessage::WaybackSnapshot { .. } => 88,
        CrackedMessage::WelcomeSettings(..) => 89,
        CrackedMessage::GpSubmitted { .. } => 90,
        CrackedMessage::GpStarted { .. } => 91,
        CrackedMessage::GpRoundSkipped => 92,
        CrackedMessage::GpEnded { .. } => 93,
        CrackedMessage::GpWindowClosed { .. } => 94,
    }
}

/// How each message reads.
pub open spec fn message_text(m: CrackedMessage) -> Seq<char> {
    match m {
        CrackedMessage::AutopauseOff => AUTOPAUSE_OFF@,
        CrackedMessage::AutopauseOn => AUTOPAUSE_ON@,
        CrackedMessage::AutoplayOff => AUTOPLAY_OFF@,
        CrackedMessage::AutoplayOn => AUTOPLAY_ON@,
        CrackedMessage::AutoRole(role_id) => AUTO_ROLE@ + " "@ + role_mention(role_id.0),
        CrackedMessage::BugNone(variable) => BUG@ + " "@ + variable@ + " "@ + BUG_END@,
        CrackedMessage::CategoryCreated { channel_id, channel_name } => CATEGORY_CREATED@ + " "@ + decimal(channel_id.0 as nat) + " "@ + channel_name@,
        CrackedMessage::CountryName(name) => name@,
        CrackedMessage::Coinflip(heads) => COINFLIP@ + " "@ + bool_text(heads),
        CrackedMessage::ChannelSizeSet { id, name, size } => CHANNEL_SIZE_SET@ + " "@ + name@ + " "@ + decimal(id.0 as nat) + " "@ + decimal(size as nat),
        CrackedMessage::ChannelDeleted { channel_id, channel_name } => CHANNEL_DELETED@ + " "@ + decimal(channel_id.0 as nat) + " "@ + channel_name@,
        CrackedMessage::Clear => CLEARED@,
        CrackedMessage::Clean(n) => CLEANED@ + " "@ + signed_decimal(n as int) + "!"@,
        CrackedMessage::CrackedError(err) => error_text(err),
        CrackedMessage::CrackedRed(text) => text@,
        CrackedMessage::CreateEmbed(embed) => embed@,
        CrackedMessage::CommandFound(name) => name@,
        CrackedMessage::DiceRoll { dice, sides, results } => "You rolled "@ + decimal(dice as nat) + " dice with "@ + decimal(sides as nat) + " sides. Here are the results:\n"@ + join(decimals(results@), ", "@),
        CrackedMessage::DomainInfo(info) => info@,
        CrackedMessage::Error => ERROR@,
        CrackedMessage::ErrorHttp(error) => error@,
        CrackedMessage::GrabbedNotice => GRABBED_NOTICE@,
        CrackedMessage::InvalidIP(ip) => ip@ + " "@ + FAIL_INVALID_IP@,
        CrackedMessage::InviteLink => INVITE_TEXT@ + " ["@ + INVITE_LINK_TEXT@ + "]("@ + INVITE_URL@ + ")"@,
        CrackedMessage::IPDetails(ip) => IP_DETAILS@ + " **"@ + ip@ + "**"@,
        CrackedMessage::IPVersion(ipv) => "**"@ + ipv@ + "**"@,
        CrackedMessage::Leaving => LEAVING@,
        CrackedMessage::LoopDisable => LOOP_DISABLED@,
        CrackedMessage::LoopEnable => LOOP_ENABLED@,
        CrackedMessage::NoAutoRole => NO_AUTO_ROLE@,
        CrackedMessage::NowPlaying => QUEUE_NOW_PLAYING@,
        CrackedMessage::Other(message) => message@,
        CrackedMessage::OwnersOnly => OWNERS_ONLY@,
        CrackedMessage::PaginationComplete => PAGINATION_COMPLETE@,
        CrackedMessage::Pause => PAUSED@,
        CrackedMessage::PasswordPwned => PASSWORD_PWNED@,
        CrackedMessage::PasswordSafe => PASSWORD_SAFE@,
        CrackedMessage::Paywall(url) => ONETWOFT@ + url@,
        CrackedMessage::PhoneNumberInfo(info) => info@,
        CrackedMessage::PhoneNumberInfoError => PHONE_NUMBER_INFO_ERROR@,
        CrackedMessage::PlayAllFailed => PLAY_ALL_FAILED@,
        CrackedMessage::PlayDomainBanned { domain } => "⚠️ **"@ + domain@ + "** "@ + PLAY_FAILED_BLOCKED_DOMAIN@,
        CrackedMessage::PlaylistCreated(name, len) => PLAYLIST_CREATED@ + " **"@ + name@ + "** with "@ + decimal(len as nat) + " tracks!"@,
        CrackedMessage::PlaylistQueued => PLAY_PLAYLIST@,
        CrackedMessage::PlaylistQueuing(name) => "Queuing **"@ + name@ + "**"@,
        CrackedMessage::PlayLog(log) => PLAY_LOG@ + "\n"@ + join(strings_view(log@), "\n"@),
        CrackedMessage::Pong => "Pong"@,
        CrackedMessage::Prefixes(prefixes) => PREFIXES@ + " "@ + join(strings_view(prefixes@), ", "@),
        CrackedMessage::Premium(premium) => PREMIUM@ + " "@ + bool_text(premium),
        CrackedMessage::PremiumPlug => PREMIUM_PLUG@,
        CrackedMessage::RemoveMultiple => REMOVED_QUEUE_MULTIPLE@,
        CrackedMessage::Resume => RESUMED@,
        CrackedMessage::RoleCreated { role_id, role_name } => ROLE_CREATED@ + " "@ + decimal(role_id.0 as nat) + " "@ + role_name@,
        CrackedMessage::RoleDeleted { role_id, role_name } => ROLE_DELETED@ + " "@ + decimal(role_id.0 as nat) + " "@ + role_name@,
        CrackedMessage::RoleNotFound => ROLE_NOT_FOUND@,
        CrackedMessage::Search => SEARCHING@,
        CrackedMessage::Seek { timestamp } => SEEKED@ + " **"@ + timestamp@ + "**!"@,
        CrackedMessage::SeekFail { timestamp, error } => SEEK_FAIL@ + " **"@ + timestamp@ + "**!\n"@ + error@,
        CrackedMessage::Shuffle => SHUFFLED_SUCCESS@,
        CrackedMessage::Skip => SKIPPED@,
        CrackedMessage::SkipAll => SKIPPED_ALL@,
        CrackedMessage::SkipTo { title, url } => SKIPPED_TO@ + " [**"@ + title@ + "**]("@ + url@ + ")!"@,
        CrackedMessage::Stop => STOPPED@,
        CrackedMessage::SocialMediaResponse { response } => response@,
        CrackedMessage::SongMoved { at, to } => SONG_MOVED@ + " "@ + SONG_MOVED_FROM@ + " "@ + SONG_MOVED_TO@ + " "@ + decimal(at as nat) + " "@ + decimal(to as nat) + "."@,
        CrackedMessage::SongQueued { title, url } => ADDED_QUEUE@ + " [**"@ + title@ + "**]("@ + url@ + ")"@,
        CrackedMessage::Summon { mention } => JOINING@ + " **"@ + mention_text(mention) + "**!"@,
        CrackedMessage::TextChannelCreated { channel_id, channel_name } => TEXT_CHANNEL_CREATED@ + " "@ + decimal(channel_id.0 as nat) + " "@ + channel_name@,
        CrackedMessage::Uptime { mention, uptime } => "**"@ + mention@ + "**\n "@ + uptime@,
        CrackedMessage::UserAuthorized { id, mention, guild_id, guild_name } => AUTHORIZED@ + "\n User: "@ + mention_text(mention) + " ("@ + decimal(id.0 as nat) + ") Guild: "@ + guild_name@ + " ("@ + decimal(guild_id.0 as nat) + ")"@,
        CrackedMessage::UserDeauthorized { id, mention, guild_id, guild_name } => DEAUTHORIZED@ + "\n User: "@ + mention_text(mention) + " ("@ + decimal(id.0 as nat) + ") Guild: "@ + guild_name@ + " ("@ + decimal(guild_id.0 as nat) + ")"@,
        CrackedMessage::UserTimeout { id, mention, timeout_until } => TIMEOUT@ + "\n"@ + mention_text(mention) + " ("@ + decimal(id.0 as nat) + ")\n"@ + UNTIL@ + ": "@ + timeout_until@,
        CrackedMessage::UserKicked { mention, id } => KICKED@ + "\n"@ + mention_text(mention) + " ("@ + decimal(id.0 as nat) + ")"@,
        CrackedMessage::UserBanned { mention, id } => BANNED@ + "\n"@ + mention_text(mention) + " ("@ + decimal(id.0 as nat) + ")"@,
        CrackedMessage::UserUnbanned { mention, id } => UNBANNED@ + "\n"@ + mention_text(mention) + " ("@ + decimal(id.0 as nat) + ")"@,
        CrackedMessage::UserMuted { mention, id } => MUTED@ + "\n"@ + mention_text(mention) + " "@ + decimal(id.0 as nat),
        CrackedMessage::UserUnmuted { mention, id } => UNMUTED@ + "\n"@ + mention_text(mention) + " "@ + decimal(id.0 as nat),
        CrackedMessage::UserDeafened { mention, id } => DEAFENED@ + "\n"@ + mention_text(mention) + "("@ + decimal(id.0 as nat) + ")"@,
        CrackedMessage::UserDeafenedFail { mention, id } => DEAFENED_FAIL@ + "\n"@ + mention_text(mention) + " ("@ + decimal(id.0 as nat) + ")"@,
        CrackedMessage::UserUndeafened { mention, id } => UNDEAFENED@ + " "@ + mention_text(mention) + " "@ + decimal(id.0 as nat),
        CrackedMessage::UserUndeafenedFail { mention, id } => UNDEAFENED_FAIL@ + "\n"@ + mention_text(mention) + " ("@ + decimal(id.0 as nat) + ")"@,
        CrackedMessage::Version { current, hash } => VERSION@ + " ["@ + current@ + "]("@ + RELEASES_LINK@ + "/tag/v"@ + current@ + ")\n"@ + VERSION_LATEST@ + "("@ + RELEASES_LINK@ + "/latest)\n"@ + VERSION_LATEST_HASH@ + "("@ + REPO_LINK@ + "tree/"@ + hash@ + ")"@,
        CrackedMessage::VoteTopggVoted => VOTE_TOPGG_VOTED@,
        CrackedMessage::VoteTopggNotVoted => VOTE_TOPGG_NOT_VOTED@,
        CrackedMessage::VoteSkip { mention, missing } => SKIP_VOTE_EMOJI@ + mention_text(mention) + " "@ + SKIP_VOTE_USER@ + " "@ + decimal(missing as nat) + " "@ + SKIP_VOTE_MISSING@,
        CrackedMessage::VoiceChannelCreated { channel_name } => VOICE_CHANNEL_CREATED@ + " "@ + channel_name@,
        CrackedMessage::Volume { vol, old_vol } => VOLUME@ + ": "@ + vol@ + "\n"@ + OLD_VOLUME@ + ": "@ + old_vol@,
        CrackedMessage::WaybackSnapshot { url } => WAYBACK_SNAPSHOT@ + " "@ + url@,
        CrackedMessage::WelcomeSettings(settings) => settings@,
        CrackedMessage::GpRoundSkipped => GP_ROUND_SKIPPED@,
        CrackedMessage::GpEnded { by } => GP_ENDED_BY@ + " "@ + by@,
        CrackedMessage::GpWindowClosed { count } => GP_CLOSED_BY_HOST@ + " "@ + decimal(count as nat) + " "@ + GP_WINDOW_CLOSED_SONGS@,
        CrackedMessage::SubcommandNotFound { group, subcommand } => replace_all(
            replace_all(SUBCOMMAND_NOT_FOUND@, "{group}"@, group@),
            "{subcommand}"@,
            subcommand@,
        ),
        CrackedMessage::GpSubmitted { title, replaced, submitted, of } => (if replaced {
            GP_SUBMITTED_REPLACED@
        } else {
            GP_SUBMITTED@
        }) + " **"@ + title@ + "** ("@ + decimal(submitted as nat) + (if of > 0 {
            " "@ + GP_SUBMITTED_OF@ + " "@ + decimal(of as nat) + " "@ + GP_SUBMITTED_IN_VC@ + ")"@
        } else {
            " in)"@
        }),
        CrackedMessage::GpStarted { category, rounds, timer, cleared_queue } => GP_STARTED@ + " "@
            + decimal(rounds as nat) + " "@ + GP_STARTED_ROUNDS@ + " "@ + category@ + " — "@
            + timer@ + " "@ + GP_STARTED_TIMER@ + (if cleared_queue {
            " "@ + GP_QUEUE_CLEARED@
        } else {
            Seq::empty()
        }),
    }
}

/// The colours a message can be shown in.
#[derive(Debug, Clone, Copy, PartialEq, Eq, Structural)]
pub enum MessageColour {
    Red,
    Gold,
    Blue,
}

/// Errors are red, plain notes gold, everything else blue.
pub open spec fn colour_of(m: CrackedMessage) -> MessageColour {
    match m {
        CrackedMessage::Error => MessageColour::Red,
        CrackedMessage::ErrorHttp(..) => MessageColour::Red,
        CrackedMessage::CrackedError(..) => MessageColour::Red,
        CrackedMessage::CrackedRed(..) => MessageColour::Red,
        CrackedMessage::Other(..) => MessageColour::Gold,
        _ => MessageColour::Blue,
    }
}

impl CrackedMessage {
    /// Which kind of message this is, by position in the list of kinds.
    pub fn discriminant(&self) -> (r: u8)
        ensures
            r == kind_index(*self),
    {
        match self {
            CrackedMessage::AutopauseOff => 0,
            CrackedMessage::AutopauseOn => 1,
            CrackedMessage::AutoplayOff => 2,
            CrackedMessage::AutoplayOn => 3,
            CrackedMessage::AutoRole(..) => 4,
            CrackedMessage::BugNone(..) => 5,
            CrackedMessage::CategoryCreated { .. } => 6,
            CrackedMessage::CountryName(..) => 7,
            CrackedMessage::Coinflip(..) => 8,
            CrackedMessage::ChannelSizeSet { .. } => 9,
            CrackedMessage::ChannelDeleted { .. } => 10,
            CrackedMessage::Clear => 11,
            CrackedMessage::Clean(..) => 12,
            CrackedMessage::CrackedError(..) => 13,
            CrackedMessage::CrackedRed(..) => 14,
            CrackedMessage::CreateEmbed(..) => 15,
            CrackedMessage::CommandFound(..) => 16,
            CrackedMessage::DiceRoll { .. } => 17,
            CrackedMessage::DomainInfo(..) => 18,
            CrackedMessage::Error => 19,
            CrackedMessage::ErrorHttp(..) => 20,
            CrackedMessage::GrabbedNotice => 21,
            CrackedMessage::InvalidIP(..) => 22,
            CrackedMessage::InviteLink => 23,
            CrackedMessage::IPDetails(..) => 24,
            CrackedMessage::IPVersion(..) => 25,
            CrackedMessage::Leaving => 26,
            CrackedMessage::LoopDisable => 27,
            CrackedMessage::LoopEnable => 28,
            CrackedMessage::NoAutoRole => 29,
            CrackedMessage::NowPlaying => 30,
            CrackedMessage::Other(..) => 31,
            CrackedMessage::OwnersOnly => 32,
            CrackedMessage::PaginationComplete => 33,
            CrackedMessage::Pause => 34,
            CrackedMessage::PasswordPwned => 35,
            CrackedMessage::PasswordSafe => 36,
            CrackedMessage::Paywall(..) => 37,
            CrackedMessage::PhoneNumberInfo(..) => 38,
            CrackedMessage::PhoneNumberInfoError => 39,
            CrackedMessage::PlayAllFailed => 40,
            CrackedMessage::PlayDomainBanned { .. } => 41,
            CrackedMessage::PlaylistCreated(..) => 42,
            CrackedMessage::PlaylistQueued => 43,
            CrackedMessage::PlaylistQueuing(..) => 44,
            CrackedMessage::PlayLog(..) => 45,
            CrackedMessage::Pong => 46,
            CrackedMessage::Prefixes(..) => 47,
            CrackedMessage::Premium(..) => 48,
            CrackedMessage::PremiumPlug => 49,
            CrackedMessage::RemoveMultiple => 50,
            CrackedMessage::Resume => 51,
            CrackedMessage::RoleCreated { .. } => 52,
            CrackedMessage::RoleDeleted { .. } => 53,
            CrackedMessage::RoleNotFound => 54,
            CrackedMessage::Search => 55,
            CrackedMessage::Seek { .. } => 56,
            CrackedMessage::SeekFail { .. } => 57,
            CrackedMessage::Shuffle => 58,
            CrackedMessage::Skip => 59,
            CrackedMessage::SkipAll => 60,
            CrackedMessage::SkipTo { .. } => 61,
            CrackedMessage::Stop => 62,
            CrackedMessage::SubcommandNotFound { .. } => 63,
            CrackedMessage::SocialMediaResponse { .. } => 64,
            CrackedMessage::SongMoved { .. } => 65,
            CrackedMessage::SongQueued { .. } => 66,
            CrackedMessage::Summon { .. } => 67,
            CrackedMessage::TextChannelCreated { .. } => 68,
            CrackedMessage::Uptime { .. } => 69,
            CrackedMessage::UserAuthorized { .. } => 70,
            CrackedMessage::UserDeauthorized { .. } => 71,
            CrackedMessage::UserTimeout { .. } => 72,
            CrackedMessage::UserKicked { .. } => 73,
            CrackedMessage::UserBanned { .. } => 74,
            CrackedMessage::UserUnbanned { .. } => 75,
            CrackedMessage::UserMuted { .. } => 76,
            CrackedMessage::UserUnmuted { .. } => 77,
            CrackedMessage::UserDeafened { .. } => 78,
            CrackedMessage::UserDeafenedFail { .. } => 79,
            CrackedMessage::UserUndeafened { .. } => 80,
            CrackedMessage::UserUndeafenedFail { .. } => 81,
            CrackedMessage::Version { .. } => 82,
            CrackedMessage::VoteTopggVoted => 83,
            CrackedMessage::VoteTopggNotVoted => 84,
            CrackedMessage::VoteSkip { .. } => 85,
            CrackedMessage::VoiceChannelCreated { .. } => 86,
            CrackedMessage::Volume { .. } => 87,
            CrackedMessage::WaybackSnapshot { .. } => 88,
            CrackedMessage::WelcomeSettings(..) => 89,
            CrackedMessage::GpSubmitted { .. } => 90,
            CrackedMessage::GpStarted { .. } => 91,
            CrackedMessage::GpRoundSkipped => 92,
            CrackedMessage::GpEnded { .. } => 93,
            CrackedMessage::GpWindowClosed { .. } => 94,
        }
    }

    /// The text of the message.
    pub fn to_text(&self) -> (s: String)
        ensures
            s@ == message_text(*self),
    {
        match self {
            CrackedMessage::AutopauseOff => String::from_str(AUTOPAUSE_OFF),
            CrackedMessage::AutopauseOn => String::from_str(AUTOPAUSE_ON),
            CrackedMessage::AutoplayOff => String::from_str(AUTOPLAY_OFF),
            CrackedMessage::AutoplayOn => String::from_str(AUTOPLAY_ON),
            CrackedMessage::AutoRole(role_id) => {
                let mut o = String::from_str(AUTO_ROLE);
                o.append(" ");
                push_role_mention(&mut o, role_id.0);
                o
            },
            CrackedMessage::BugNone(variable) => {
                let mut o = String::from_str(BUG);
                o.append(" ");
                o.append(variable.as_str());
                o.append(" ");
                o.append(BUG_END);
                o
            },
            CrackedMessage::CategoryCreated { channel_id, channel_name } => {
                let mut o = String::from_str(CATEGORY_CREATED);
                o.append(" ");
                push_decimal(&mut o, channel_id.0);
                o.append(" ");
                o.append(channel_name.as_str());
                o
            },
            CrackedMessage::CountryName(name) => String::from_str(name.as_str()),
            CrackedMessage::Coinflip(heads) => {
                let mut o = String::from_str(COINFLIP);
                o.append(" ");
                push_bool(&mut o, *heads);
                o
            },
            CrackedMessage::ChannelSizeSet { id, name, size } => {
                let mut o = String::from_str(CHANNEL_SIZE_SET);
                o.append(" ");
                o.append(name.as_str());
                o.append(" ");
                push_decimal(&mut o, id.0);
                o.append(" ");
                push_decimal(&mut o, *size as u64);
                o
            },
            CrackedMessage::ChannelDeleted { channel_id, channel_name } => {
                let mut o = String::from_str(CHANNEL_DELETED);
                o.append(" ");
                push_decimal(&mut o, channel_id.0);
                o.append(" ");
                o.append(channel_name.as_str());
                o
            },
            CrackedMessage::Clear => String::from_str(CLEARED),
            CrackedMessage::Clean(n) => {
                let mut o = String::from_str(CLEANED);
                o.append(" ");
                push_signed(&mut o, *n as i64);
                o.append("!");
                o
            },
            CrackedMessage::CrackedError(err) => err.to_text(),
            CrackedMessage::CrackedRed(text) => String::from_str(text.as_str()),
            CrackedMessage::CreateEmbed(embed) => String::from_str(embed.as_str()),
            CrackedMessage::CommandFound(name) => String::from_str(name.as_str()),
            CrackedMessage::DiceRoll { dice, sides, results } => {
                let mut o = String::from_str("You rolled ");
                push_decimal(&mut o, *dice as u64);
                o.append(" dice with ");
                push_decimal(&mut o, *sides as u64);
                o.append(" sides. Here are the results:\n");
                let joined = join_decimals(results);
                o.append(joined.as_str());
                o
            },
            CrackedMessage::DomainInfo(info) => String::from_str(info.as_str()),
            CrackedMessage::Error => String::from_str(ERROR),
            CrackedMessage::ErrorHttp(error) => String::from_str(error.as_str()),
            CrackedMessage::GrabbedNotice => String::from_str(GRABBED_NOTICE),
            CrackedMessage::InvalidIP(ip) => {
                let mut o = String::from_str(ip.as_str());
                o.append(" ");
                o.append(FAIL_INVALID_IP);
                o
            },
            CrackedMessage::InviteLink => {
                let mut o = String::from_str(INVITE_TEXT);
                o.append(" [");
                o.append(INVITE_LINK_TEXT);
                o.append("](");
                o.append(INVITE_URL);
                o.append(")");
                o
            },
            CrackedMessage::IPDetails(ip) => {
                let mut o = String::from_str(IP_DETAILS);
                o.append(" **");
                o.append(ip.as_str());
                o.append("**");
                o
            },
            CrackedMessage::IPVersion(ipv) => {
                let mut o = String::from_str("**");
                o.append(ipv.as_str());
                o.append("**");
                o
            },
            CrackedMessage::Leaving => String::from_str(LEAVING),
            CrackedMessage::LoopDisable => String::from_str(LOOP_DISABLED),
            CrackedMessage::LoopEnable => String::from_str(LOOP_ENABLED),
            CrackedMessage::NoAutoRole => String::from_str(NO_AUTO_ROLE),
            CrackedMessage::NowPlaying => String::from_str(QUEUE_NOW_PLAYING),
            CrackedMessage::Other(message) => String::from_str(message.as_str()),
            CrackedMessage::OwnersOnly => String::from_str(OWNERS_ONLY),
            CrackedMessage::PaginationComplete => String::from_str(PAGINATION_COMPLETE),
            CrackedMessage::Pause => String::from_str(PAUSED),
            CrackedMessage::PasswordPwned => String::from_str(PASSWORD_PWNED),
            CrackedMessage::PasswordSafe => String::from_str(PASSWORD_SAFE),
            CrackedMessage::Paywall(url) => {
                let mut o = String::from_str(ONETWOFT);
                o.append(url.as_str());
                o
            },
            CrackedMessage::PhoneNumberInfo(info) => String::from_str(info.as_str()),
            CrackedMessage::PhoneNumberInfoError => String::from_str(PHONE_NUMBER_INFO_ERROR),
            CrackedMessage::PlayAllFailed => String::from_str(PLAY_ALL_FAILED),
            CrackedMessage::PlayDomainBanned { domain } => {
                let mut o = String::from_str("⚠️ **");
                o.append(domain.as_str());
                o.append("** ");
                o.append(PLAY_FAILED_BLOCKED_DOMAIN);
                o
            },
            CrackedMessage::PlaylistCreated(name, len) => {
                let mut o = String::from_str(PLAYLIST_CREATED);
                o.append(" **");
                o.append(name.as_str());
                o.append("** with ");
                push_decimal(&mut o, *len as u64);
                o.append(" tracks!");
                o
            },
            CrackedMessage::PlaylistQueued => String::from_str(PLAY_PLAYLIST),
            CrackedMessage::PlaylistQueuing(name) => {
                let mut o = String::from_str("Queuing **");
                o.append(name.as_str());
                o.append("**");
                o
            },
            CrackedMessage::PlayLog(log) => {
                let mut o = String::from_str(PLAY_LOG);
                o.append("\n");
                let joined = join_strings(log, "\n");
                o.append(joined.as_str());
                o
            },
            CrackedMessage::Pong => String::from_str("Pong"),
            CrackedMessage::Prefixes(prefixes) => {
                let mut o = String::from_str(PREFIXES);
                o.append(" ");
                let joined = join_strings(prefixes, ", ");
                o.append(joined.as_str());
                o
            },
            CrackedMessage::Premium(premium) => {
                let mut o = String::from_str(PREMIUM);
                o.append(" ");
                push_bool(&mut o, *premium);
                o
            },
            CrackedMessage::PremiumPlug => String::from_str(PREMIUM_PLUG),
            CrackedMessage::RemoveMultiple => String::from_str(REMOVED_QUEUE_MULTIPLE),
            CrackedMessage::Resume => String::from_str(RESUMED),
            CrackedMessage::RoleCreated { role_id, role_name } => {
                let mut o = String::from_str(ROLE_CREATED);
                o.append(" ");
                push_decimal(&mut o, role_id.0);
                o.append(" ");
                o.append(role_name.as_str());
                o
            },
            CrackedMessage::RoleDeleted { role_id, role_name } => {
                let mut o = String::from_str(ROLE_DELETED);
                o.append(" ");
                push_decimal(&mut o, role_id.0);
                o.append(" ");
                o.append(role_name.as_str());
                o
            },
            CrackedMessage::RoleNotFound => String::from_str(ROLE_NOT_FOUND),
            CrackedMessage::Search => String::from_str(SEARCHING),
            CrackedMessage::Seek { timestamp } => {
                let mut o = String::from_str(SEEKED);
                o.append(" **");
                o.append(timestamp.as_str());
                o.append("**!");
                o
            },
            CrackedMessage::SeekFail { timestamp, error } => {
                let mut o = String::from_str(SEEK_FAIL);
                o.append(" **");
                o.append(timestamp.as_str());
                o.append("**!\n");
                o.append(error.as_str());
                o
            },
            CrackedMessage::Shuffle => String::from_str(SHUFFLED_SUCCESS),
            CrackedMessage::Skip => String::from_str(SKIPPED),
            CrackedMessage::SkipAll => String::from_str(SKIPPED_ALL),
            CrackedMessage::SkipTo { title, url } => {
                let mut o = String::from_str(SKIPPED_TO);
                o.append(" [**");
                o.append(title.as_str());
                o.append("**](");
                o.append(url.as_str());
                o.append(")!");
                o
            },
            CrackedMessage::Stop => String::from_str(STOPPED),
            CrackedMessage::SocialMediaResponse { response } => String::from_str(response.as_str()),
            CrackedMessage::SongMoved { at, to } => {
                let mut o = String::from_str(SONG_MOVED);
                o.append(" ");
                o.append(SONG_MOVED_FROM);
                o.append(" ");
                o.append(SONG_MOVED_TO);
                o.append(" ");
                push_decimal(&mut o, *at as u64);
                o.append(" ");
                push_decimal(&mut o, *to as u64);
                o.append(".");
                o
            },
            CrackedMessage::SongQueued { title, url } => {
                let mut o = String::from_str(ADDED_QUEUE);
                o.append(" [**");
                o.append(title.as_str());
                o.append("**](");
                o.append(url.as_str());
                o.append(")");
                o
            },
            CrackedMessage::Summon { mention } => {
                let mut o = String::from_str(JOINING);
                o.append(" **");
                push_mention(&mut o, mention);
                o.append("**!");
                o
            },
            CrackedMessage::TextChannelCreated { channel_id, channel_name } => {
                let mut o = String::from_str(TEXT_CHANNEL_CREATED);
                o.append(" ");
                push_decimal(&mut o, channel_id.0);
                o.append(" ");
                o.append(channel_name.as_str());
                o
            },
            CrackedMessage::Uptime { mention, uptime } => {
                let mut o = String::from_str("**");
                o.append(mention.as_str());
                o.append("**\n ");
                o.append(uptime.as_str());
                o
            },
            CrackedMessage::UserAuthorized { id, mention, guild_id, guild_name } => {
                let mut o = String::from_str(AUTHORIZED);
                o.append("\n User: ");
                push_mention(&mut o, mention);
                o.append(" (");
                push_decimal(&mut o, id.0);
                o.append(") Guild: ");
                o.append(guild_name.as_str());
                o.append(" (");
                push_decimal(&mut o, guild_id.0);
                o.append(")");
                o
            },
            CrackedMessage::UserDeauthorized { id, mention, guild_id, guild_name } => {
                let mut o = String::from_str(DEAUTHORIZED);
                o.append("\n User: ");
                push_mention(&mut o, mention);
                o.append(" (");
                push_decimal(&mut o, id.0);
                o.append(") Guild: ");
                o.append(guild_name.as_str());
                o.append(" (");
                push_decimal(&mut o, guild_id.0);
                o.append(")");
                o
            },
            CrackedMessage::UserTimeout { id, mention, timeout_until } => {
                let mut o = String::from_str(TIMEOUT);
                o.append("\n");
                push_mention(&mut o, mention);
                o.append(" (");
                push_decimal(&mut o, id.0);
                o.append(")\n");
                o.append(UNTIL);
                o.append(": ");
                o.append(timeout_until.as_str());
                o
            },
            CrackedMessage::UserKicked { mention, id } => {
                let mut o = String::from_str(KICKED);
                o.append("\n");
                push_mention(&mut o, mention);
                o.append(" (");
                push_decimal(&mut o, id.0);
                o.append(")");
                o
            },
            CrackedMessage::UserBanned { mention, id } => {
                let mut o = String::from_str(BANNED);
                o.append("\n");
                push_mention(&mut o, mention);
                o.append(" (");
                push_decimal(&mut o, id.0);
                o.append(")");
                o
            },
            CrackedMessage::UserUnbanned { mention, id } => {
                let mut o = String::from_str(UNBANNED);
                o.append("\n");
                push_mention(&mut o, mention);
                o.append(" (");
                push_decimal(&mut o, id.0);
                o.append(")");
                o
            },
            CrackedMessage::UserMuted { mention, id } => {
                let mut o = String::from_str(MUTED);
                o.append("\n");
                push_mention(&mut o, mention);
                o.append(" ");
                push_decimal(&mut o, id.0);
                o
            },
            CrackedMessage::UserUnmuted { mention, id } => {
                let mut o = String::from_str(UNMUTED);
                o.append("\n");
                push_mention(&mut o, mention);
                o.append(" ");
                push_decimal(&mut o, id.0);
                o
            },
            CrackedMessage::UserDeafened { mention, id } => {
                let mut o = String::from_str(DEAFENED);
                o.append("\n");
                push_mention(&mut o, mention);
                o.append("(");
                push_decimal(&mut o, id.0);
                o.append(")");
                o
            },
            CrackedMessage::UserDeafenedFail { mention, id } => {
                let mut o = String::from_str(DEAFENED_FAIL);
                o.append("\n");
                push_mention(&mut o, mention);
                o.append(" (");
                push_decimal(&mut o, id.0);
                o.append(")");
                o
            },
            CrackedMessage::UserUndeafened { mention, id } => {
                let mut o = String::from_str(UNDEAFENED);
                o.append(" ");
                push_mention(&mut o, mention);
                o.append(" ");
                push_decimal(&mut o, id.0);
                o
            },
            CrackedMessage::UserUndeafenedFail { mention, id } => {
                let mut o = String::from_str(UNDEAFENED_FAIL);
                o.append("\n");
                push_mention(&mut o, mention);
                o.append(" (");
                push_decimal(&mut o, id.0);
                o.append(")");
                o
            },
            CrackedMessage::Version { current, hash } => {
                let mut o = String::from_str(VERSION);
                o.append(" [");
                o.append(current.as_str());
                o.append("](");
                o.append(RELEASES_LINK);
                o.append("/tag/v");
                o.append(current.as_str());
                o.append(")\n");
                o.append(VERSION_LATEST);
                o.append("(");
                o.append(RELEASES_LINK);
                o.append("/latest)\n");
                o.append(VERSION_LATEST_HASH);
                o.append("(");
                o.append(REPO_LINK);
                o.append("tree/");
                o.append(hash.as_str());
                o.append(")");
                o
            },
            CrackedMessage::VoteTopggVoted => String::from_str(VOTE_TOPGG_VOTED),
            CrackedMessage::VoteTopggNotVoted => String::from_str(VOTE_TOPGG_NOT_VOTED),
            CrackedMessage::VoteSkip { mention, missing } => {
                let mut o = String::from_str(SKIP_VOTE_EMOJI);
                push_mention(&mut o, mention);
                o.append(" ");
                o.append(SKIP_VOTE_USER);
                o.append(" ");
                push_decimal(&mut o, *missing as u64);
                o.append(" ");
                o.append(SKIP_VOTE_MISSING);
                o
            },
            CrackedMessage::VoiceChannelCreated { channel_name } => {
                let mut o = String::from_str(VOICE_CHANNEL_CREATED);
                o.append(" ");
                o.append(channel_name.as_str());
                o
            },
            CrackedMessage::Volume { vol, old_vol } => {
                let mut o = String::from_str(VOLUME);
                o.append(": ");
                o.append(vol.as_str());
                o.append("\n");
                o.append(OLD_VOLUME);
                o.append(": ");
                o.append(old_vol.as_str());
                o
            },
            CrackedMessage::WaybackSnapshot { url } => {
                let mut o = String::from_str(WAYBACK_SNAPSHOT);
                o.append(" ");
                o.append(url.as_str());
                o
            },
            CrackedMessage::WelcomeSettings(settings) => String::from_str(settings.as_str()),
            CrackedMessage::GpRoundSkipped => String::from_str(GP_ROUND_SKIPPED),
            CrackedMessage::GpEnded { by } => {
                let mut o = String::from_str(GP_ENDED_BY);
                o.append(" ");
                o.append(by.as_str());
                o
            },
            CrackedMessage::GpWindowClosed { count } => {
                let mut o = String::from_str(GP_CLOSED_BY_HOST);
                o.append(" ");
                push_decimal(&mut o, *count as u64);
                o.append(" ");
                o.append(GP_WINDOW_CLOSED_SONGS);
                o
            },
            CrackedMessage::SubcommandNotFound { group, subcommand } => {
                proof {
                    reveal_strlit("{group}");
                    reveal_strlit("{subcommand}");
                }
                let once = replace_all_chars(
                    &chars_of(SUBCOMMAND_NOT_FOUND),
                    &chars_of("{group}"),
                    &chars_of(group.as_str()),
                );
                let twice = replace_all_chars(
                    &once,
                    &chars_of("{subcommand}"),
                    &chars_of(subcommand.as_str()),
                );
                string_of(&twice)
            },
            CrackedMessage::GpSubmitted { title, replaced, submitted, of } => {
                let mut o = if *replaced {
                    String::from_str(GP_SUBMITTED_REPLACED)
                } else {
                    String::from_str(GP_SUBMITTED)
                };
                o.append(" **");
                o.append(title.as_str());
                o.append("** (");
                push_decimal(&mut o, *submitted as u64);
                let ghost head = o@;
                if *of > 0 {
                    o.append(" ");
                    o.append(GP_SUBMITTED_OF);
                    o.append(" ");
                    push_decimal(&mut o, *of as u64);
                    o.append(" ");
                    o.append(GP_SUBMITTED_IN_VC);
                    o.append(")");
                } else {
                    o.append(" in)");
                }
                proof {
                    assert(o@ =~= message_text(*self));
                }
                o
            },
            CrackedMessage::GpStarted { category, rounds, timer, cleared_queue } => {
                let mut o = String::from_str(GP_STARTED);
                o.append(" ");
                push_decimal(&mut o, *rounds as u64);
                o.append(" ");
                o.append(GP_STARTED_ROUNDS);
                o.append(" ");
                o.append(category.as_str());
                o.append(" — ");
                o.append(timer.as_str());
                o.append(" ");
                o.append(GP_STARTED_TIMER);
                let ghost head = o@;
                if *cleared_queue {
                    o.append(" ");
                    o.append(GP_QUEUE_CLEARED);
                }
                proof {
                    assert(o@ =~= message_text(*self));
                }
                o
            },
        }
    }

    /// The colour the message is shown in.
    pub fn colour(&self) -> (c: MessageColour)
        ensures
            c == colour_of(*self),
    {
        match self {
            CrackedMessage::Error => MessageColour::Red,
            CrackedMessage::ErrorHttp(..) => MessageColour::Red,
            CrackedMessage::CrackedError(..) => MessageColour::Red,
            CrackedMessage::CrackedRed(..) => MessageColour::Red,
            CrackedMessage::Other(..) => MessageColour::Gold,
            _ => MessageColour::Blue,
        }
    }
}

/// Two messages are equal when they are of the same kind, whatever they
/// carry.
impl PartialEq for CrackedMessage {
    fn eq(&self, other: &Self) -> (r: bool) {
        self.discriminant() == other.discriminant()
    }
}

impl vstd::std_specs::cmp::PartialEqSpecImpl for CrackedMessage {
    open spec fn obeys_eq_spec() -> bool {
        true
    }

    open spec fn eq_spec(&self, other: &Self) -> bool {
        kind_index(*self) == kind_index(*other)
    }
}

impl Default for CrackedMessage {
    fn default() -> (r: Self)
        ensures
            r matches CrackedMessage::Other(m) && m@ == "(default)"@,
    {
        CrackedMessage::Other(String::from_str("(default)"))
    }
}

impl From<CrackedError> for CrackedMessage {
    fn from(error: CrackedError) -> (r: Self) {
        CrackedMessage::CrackedError(error)
    }
}

impl vstd::std_specs::convert::FromSpecImpl<CrackedError> for CrackedMessage {
    open spec fn obeys_from_spec() -> bool {
        true
    }

    open spec fn from_spec(error: CrackedError) -> Self {
        CrackedMessage::CrackedError(error)
    }
}


/// The volume message names the new volume right after `VOLUME` on its first
/// line, and the old one after `OLD_VOLUME` on its second.
pub proof fn the_volume_message_names_the_new_volume_first(vol: String, old_vol: String)
    ensures
        ({
            let t = message_text(CrackedMessage::Volume { vol, old_vol });
            let first = VOLUME@ + ": "@ + vol@;
            let second = OLD_VOLUME@ + ": "@ + old_vol@;
            &&& t.len() == first.len() + 1 + second.len()
            &&& t.take(first.len() as int) == first
            &&& t[first.len() as int] == '\n'
            &&& t.skip(first.len() + 1int) == second
        }),
{
    reveal_strlit("\n");
    let first = VOLUME@ + ": "@ + vol@;
    let second = OLD_VOLUME@ + ": "@ + old_vol@;
    let t = message_text(CrackedMessage::Volume { vol, old_vol });
    assert(t =~= first + "\n"@ + second);
    assert(t.take(first.len() as int) =~= first);
    assert(t.skip(first.len() + 1int) =~= second);
}


/// A queued or skipped-to song is shown as its title linked to its URL, a
/// moved song names where it was before where it went, a failed seek names
/// the time before the error, and the uptime names who before how long.
pub proof fn messages_name_their_values_in_order(
    title: String,
    url: String,
    at: usize,
    to: usize,
    first: String,
    second: String,
)
    ensures
        message_text(CrackedMessage::SongQueued { title, url }) == ADDED_QUEUE@ + " [**"@ + title@
            + "**]("@ + url@ + ")"@,
        message_text(CrackedMessage::SkipTo { title, url }) == SKIPPED_TO@ + " [**"@ + title@ + "**]("@
            + url@ + ")!"@,
        message_text(CrackedMessage::SongMoved { at, to }) == SONG_MOVED@ + " "@ + SONG_MOVED_FROM@
            + " "@ + SONG_MOVED_TO@ + " "@ + decimal(at as nat) + " "@ + decimal(to as nat) + "."@,
        message_text(CrackedMessage::SeekFail { timestamp: first, error: second }) == SEEK_FAIL@
            + " **"@ + first@ + "**!\n"@ + second@,
        message_text(CrackedMessage::Uptime { mention: first, uptime: second }) == "**"@ + first@
            + "**\n "@ + second@,
{
}

} // verus!
