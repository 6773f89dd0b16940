//! The bot's wording, in one place.
use vstd::prelude::*;

verus! {

pub const ADDED_QUEUE: &'static str = "📃 Added to queue!";
pub const AUTOPAUSE_OFF: &'static str = "🤖 Autopause OFF!";
pub const AUTOPAUSE_ON: &'static str = "🤖 Autopause ON!";
pub const AUTOPLAY_OFF: &'static str = "🤖 Autoplay OFF!";
pub const AUTOPLAY_ON: &'static str = "🤖 Autoplay ON!";
pub const CLEARED: &'static str = "🗑️ Cleared!";
pub const CLEANED: &'static str = "🗑️ Messages Cleaned: ";
pub const CHANNEL_SIZE_SET: &'static str = "🗑️ Channel size set!";
pub const CHANNEL_DELETED: &'static str = "🗑️ Deleted channel!";
pub const COINFLIP: &'static str = "You flipped a coin and it landed on";

pub const AUTHORIZED: &'static str = "✅ User has been authorized.";
pub const AUTO_ROLE: &'static str = "Auto Role";
pub const BANNED: &'static str = "Banned";
pub const BUG: &'static str = "🐞 Bug!";
pub const BUG_END: &'static str = "was None!";
pub const BUG_REPORTED: &'static str = "🐞 Bug Reported!";
pub const BUG_REPORT: &'static str = "🐞 Bug Report";
pub const CONNECTED: &'static str = "Connected!";
pub const DEAUTHORIZED: &'static str = "❌ User has been deauthorized.";
pub const UNBANNED: &'static str = "Unbanned";
pub const EMOJI_HEADPHONES: &'static str = "🎧";
pub const DEAFENED: &'static str = "User deafened.";
pub const DEAFENED_FAIL: &'static str = "User failed to be deafened.";
pub const UNDEAFENED: &'static str = "Undeafened";
pub const UNDEAFENED_FAIL: &'static str = "User failed to be undeafened.";
pub const MUTED: &'static str = "Muted";
pub const UNMUTED: &'static str = "Unmuted";

pub const DOMAIN_FORM_ALLOWED_TITLE: &'static str = "Allowed domains";
pub const DOMAIN_FORM_BANNED_TITLE: &'static str = "Banned domains";
pub const DOMAIN_FORM_ALLOWED_PLACEHOLDER: &'static str =
    "Add domains separated by \';\'. If left blank, all (except for banned) are allowed by default.";
pub const DOMAIN_FORM_BANNED_PLACEHOLDER: &'static str =
    "Add domains separated by \';\'. If left blank, all (except for allowed) are blocked by default.";
pub const DOMAIN_FORM_TITLE: &'static str = "Manage sources";

pub const EMPTY_SEARCH_RESULT: &'static str = "⚠️ No search results found!";
pub const ERROR: &'static str = "Fatality! Something went wrong ☹️";
pub const EXTRA_TEXT_AT_BOTTOM: &'static str =
    "This is a friendly cracking, smoking parrot that plays music.";
pub const FAIL_ALREADY_HERE: &'static str = "⚠️ I'm already here!";
pub const FAIL_ANOTHER_CHANNEL: &'static str = "⚠️ I'm already connected to";
pub const FAIL_AUDIO_STREAM_RUSTY_YTDL_METADATA: &'static str =
    "⚠️ Failed to fetch metadata from rusty_ytdl!";
pub const FAIL_AUTHOR_DISCONNECTED: &'static str = "⚠️ You are not connected to";
pub const FAIL_AUTHOR_NOT_FOUND: &'static str = "⚠️ Could not find you in any voice channel!";
pub const FAIL_LOOP: &'static str = "⚠️ Failed to toggle loop!";
pub const FAIL_EMPTY_VECTOR: &'static str = "⚠️ Empty vector not allowed!";
pub const FAIL_INSERT: &'static str = "⚠️ Failed to insert!";
pub const FAIL_INVALID_TOPGG_TOKEN: &'static str = "⚠️ Invalid top.gg token!";
pub const FAIL_INVALID_PERMS: &'static str = "⚠️ Invalid permissions!!";
pub const FAIL_MINUTES_PARSING: &'static str = "⚠️ Invalid formatting for 'minutes'";
pub const FAIL_NO_SONG_ON_INDEX: &'static str = "⚠️ There is no queued song on that index!";
pub const FAIL_NO_SONGBIRD: &'static str = "⚠️ Failed to get songbird!";
pub const FAIL_NO_VIRUSTOTAL_API_KEY: &'static str =
    "⚠️ The VIRUS_TOTAL_API_KEY environment variable is not set!";
pub const FAIL_NO_VOICE_CONNECTION: &'static str = "⚠️ I'm not connected to any voice channel!";
pub const FAIL_NO_QUERY_PROVIDED: &'static str = "⚠️ No query provided!";
pub const FAIL_NOT_IMPLEMENTED: &'static str = "⚠️ Function is not implemented!";
pub const FAIL_NOTHING_PLAYING: &'static str = "🔈 Nothing is playing!";
pub const FAIL_REMOVE_RANGE: &'static str = "⚠️ `until` needs to be higher than `index`!";
pub const FAIL_RESUME: &'static str = "⚠️ Failed to Resume Queue!";
pub const FAIL_SECONDS_PARSING: &'static str = "⚠️ Invalid formatting for 'seconds'";
pub const FAIL_TO_SET_CHANNEL_SIZE: &'static str = "⚠️ Failed to set channel size!";
pub const FAIL_WRONG_CHANNEL: &'static str = "⚠️ We are not in the same voice channel!";
pub const FAIL_PARSE_TIME: &'static str = "⚠️ Failed to parse time, speak English much?";
pub const FAIL_PLAYLIST_FETCH: &'static str = "⚠️ Failed to fetch playlist!";
pub const FAIL_INVALID_IP: &'static str = "⚠️ Invalid IP address!";

pub const GUILD_ONLY: &'static str = "⚠️ This command can only be used in a server!";
pub const IDLE_ALERT: &'static str = "⚠️ I've been idle for a while so I'm going to hop off, set the idle timeout to change this! Also support my development and I won't have to premium-gate features!\n[CrackTunes Patreon](https://patreon.com/CrackTunes)";
pub const IP_DETAILS: &'static str = "🌐 IP details for";
pub const JOINING: &'static str = "Joining";
pub const KICKED: &'static str = "Kicked";
pub const GRABBED_NOTICE: &'static str = "📃 Sent you a DM with the current track!";
pub const LEAVING: &'static str = "👋 See you soon!";
pub const LOOP_DISABLED: &'static str = "🔁 Disabled loop!";
pub const LOOP_ENABLED: &'static str = "🔁 Enabled loop!";
pub const NO_AUTO_ROLE: &'static str = "⚠️ No auto role set for this server!";
pub const NO_CHANNEL_ID: &'static str = "⚠️ No GenericChannelId Found!";
pub const NO_DATABASE_POOL: &'static str = "⚠️ No Database Pool Found!";
pub const NO_GUILD_CACHED: &'static str = "⚠️ No Cached Guild Found!";
pub const NO_GUILD_ID: &'static str = "⚠️ No GuildId Found!";
pub const NO_GUILD_SETTINGS: &'static str = "⚠️ No GuildSettings Found!";
pub const NO_USER_AUTOPLAY: &'static str = "(auto)";
pub const NO_METADATA: &'static str = "⚠️ No metadata found!";
pub const NOT_IN_MUSIC_CHANNEL: &'static str = "⚠️ You are not in the music channel! Use";
pub const ONETWOFT: &'static str = "https://12ft.io/";
pub const OWNERS_ONLY: &'static str = "⚠️ This command can only be used by bot owners!";
pub const PAGINATION_COMPLETE: &'static str =
    "🔚 Dynamic message timed out! Run the command again to see updates.";
pub const PASSWORD_PWNED: &'static str = "⚠️ This password has been pwned!";
pub const PASSWORD_SAFE: &'static str = "🔒 This password is safe!";
pub const PAUSED: &'static str = "⏸️ Paused!";
pub const PLAYLIST_CREATED: &'static str = "📃 Created playlist!";
pub const PLAYLIST_DELETED: &'static str = "❌ Deleted playlist!";
pub const PLAYLIST_ADD: &'static str = "📃 Added to playlist!";
pub const PLAYLIST_REMOVE: &'static str = "❌ Removed from playlist!";
pub const PLAYLIST_LIST_EMPTY: &'static str = "📃 You have no playlists currently.";
pub const PLAYLIST_EMPTY: &'static str = "📃 This playlist has no songs!";
pub const PLAYLISTS: &'static str = "Playlists";
pub const PLAY_FAILED_BLOCKED_DOMAIN: &'static str =
    "**is either not allowed in this server or is not supported!** \n\nTo explicitely allow this domain, ask a moderator to run the `/managesources` command. [Click to see a list of supported sources.](https://github.com/yt-dlp/yt-dlp/blob/master/supportedsites.md)";
pub const PLAY_ALL_FAILED: &'static str =
    "⚠️ Cannot fetch playlist via keywords! Try passing this command an URL.";
pub const PLAY_PLAYLIST: &'static str = "📃 Added playlist to queue!";
pub const PLAY_SEARCH: &'static str = "🔎 Searching...";
pub const PLAY_QUEUE: &'static str = "📃 Added to queue!";
pub const PLAY_TOP: &'static str = "📃 Added to top!";
pub const PLAY_LOG: &'static str = "🎵 Last Played Songs";
pub const PREFIXES: &'static str = "Prefixes";
pub const PREMIUM: &'static str = "👑 Premium status:";
pub const PREMIUM_PLUG: &'static str = "👑 Like the bot? Support my development and keep it premium-free for everyone!\n[CrackTunes Patreon](https://patreon.com/CrackTunes)";
pub const PROGRESS: &'static str = "Progress";
pub const PHONE_NUMBER_INFO_ERROR: &'static str = "⚠️ Failed to fetch phone number info!";
pub const QUEUE_EXPIRED: &'static str = "This command has expired.\nPlease feel free to reinvoke it!";
pub const QUEUE_IS_EMPTY: &'static str = "Queue is empty!";
pub const QUEUE_NO_SONGS: &'static str = "There's no songs up next!";
pub const QUEUE_NO_TITLE: &'static str = "Unknown title";
pub const QUEUE_NO_SRC: &'static str = "Unknown source url";
pub const QUEUE_NOTHING_IS_PLAYING: &'static str = "Nothing is playing!";
pub const QUEUE_NOW_PLAYING: &'static str = "🔊 Now playing";
pub const QUEUE_PAGE_OF: &'static str = "of";
pub const QUEUE_PAGE: &'static str = "Page";
pub const QUEUE_UP_NEXT: &'static str = "⌛ Up next";
pub const REMOVED_QUEUE_MULTIPLE: &'static str = "❌ Removed multiple tracks from queue!";
pub const REMOVED_QUEUE: &'static str = "❌ Removed from queue";
pub const RESUMED: &'static str = "▶ Resumed!";
pub const REQUESTED_BY: &'static str = "Requested by";
pub const ROLE_CREATED: &'static str = "📝 Created role!";
pub const ROLE_DELETED: &'static str = "🗑️ Deleted role!";
pub const ROLE_NOT_FOUND: &'static str = "⚠️ Role not found!";
pub const SCAN_QUEUED: &'static str = "🔍 Scan queued! Use";
pub const SEARCHING: &'static str = "🔎 Searching...";
pub const SEEKED: &'static str = "⏩ Seeked current track to";
pub const SEEK_FAIL: &'static str = "❌⏩ Failed to seek to";
pub const SHUFFLED_SUCCESS: &'static str = "🔀 Shuffled successfully!";
pub const SKIP_VOTE_EMOJI: &'static str = "🗳";
pub const SKIP_VOTE_MISSING: &'static str = "more vote(s) needed to skip!";
pub const SKIP_VOTE_USER: &'static str = "has voted to skip!";
pub const SKIPPED_ALL: &'static str = "⏭️ Skipped until infinity!";
pub const SKIPPED_TO: &'static str = "⏭️ Skipped to";
pub const SKIPPED: &'static str = "⏭️ Skipped!";
pub const SPOTIFY_AUTH_FAILED: &'static str = "⚠️ **Spotify links aren't available right now.**\nI can't look this up, but I can still play it — try searching for the track or artist by name.";
pub const AUTOPLAY_DISABLED_SPOTIFY: &'static str = "🤖 **Autoplay is off.**\nPicking the next track needs Spotify, which isn't available right now. Queue something up and I'll keep playing.";
pub const AUTOPLAY_DISABLED_ERROR: &'static str =
    "🤖 **Autoplay is off.**\nI couldn't work out what to play next.";
pub const SPOTIFY_DISABLED_LOG: &'static str = "spotify: DISABLED -- Spotify links and autoplay will not work. Note that Spotify has blocked new Web API app creation since ~2025-12, so this may not be fixable simply by supplying credentials.";
pub const SPOTIFY_ENABLED_LOG: &'static str = "spotify: enabled -- client credentials accepted";
pub const SPOTIFY_INVALID_QUERY: &'static str =
    "⚠️ **Could not find any tracks with that link!**\nAre you sure that is a valid Spotify URL?";
pub const SPOTIFY_PLAYLIST_FAILED: &'static str = "⚠️ **Failed to fetch playlist!**\nIt's likely that this playlist is either private or a personalized playlist generated by Spotify, like your daylist.";
pub const SONG_MOVED: &'static str = "🔀 Moved song";
pub const SONG_MOVED_FROM: &'static str = "from index";
pub const SONG_MOVED_TO: &'static str = "to index";
pub const STOPPED: &'static str = "⏹️ Stopped!";
pub const SUGGESTION: &'static str = "📝 Suggestion";
pub const SUBCOMMAND_NOT_FOUND: &'static str = "⚠️ Subcommand {subcommand} for group {group} not found!";
pub const TIMEOUT: &'static str = "⏱️ User Timed Out!";
pub const TRACK_DURATION: &'static str = "Track duration:";
pub const TRACK_NOT_FOUND: &'static str = "⚠️ **Could not play track!**\nYour request yielded no results.";
pub const TRACK_INAPPROPRIATE: &'static str = "⚠️ **Could not play track!**\nThe video you requested may be inappropriate for some users, so sign-in is required.";
pub const TRACK_TIME_TO_PLAY: &'static str = "Estimated time until play:";
pub const TEST: &'static str = "🔧 Test";
pub const TEXT_CHANNEL_CREATED: &'static str = "📝 Created text channel!";
pub const CATEGORY_CREATED: &'static str = "📝 Created category!";
pub const UNTIL: &'static str = "Until";
pub const UNKNOWN: &'static str = "Unknown";
pub const UNAUTHORIZED_USER: &'static str = "⚠️ You are not authorized to use this command!";
pub const UNKNOWN_LIT: &'static str = UNKNOWN;
pub const WAYBACK_SNAPSHOT: &'static str = "Wayback snapshot for";
pub const VERSION_LATEST: &'static str = "Find the latest version [here]";
pub const VERSION: &'static str = "Version";
pub const VERSION_LATEST_HASH: &'static str = "Build hash [here]";
pub const VOLUME: &'static str = "🔊 Volume";
pub const OLD_VOLUME: &'static str = "Old Volume";
pub const VOICE_CHANNEL_CREATED: &'static str = "🔊 Created voice channel!";

pub const VOTE_TOPGG_TEXT: &'static str = "✅ Vote for CrackTunes on";
pub const VOTE_TOPGG_LINK_TEXT: &'static str = "top.gg!";
pub const VOTE_TOPGG_LINK_TEXT_SHORT: &'static str = "vote";
pub const VOTE_TOPGG_URL: &'static str = "https://top.gg/bot/1115229568006103122/vote";
pub const VOTE_TOPGG_VOTED: &'static str = "Thank you for voting within the last 12 hours! Remember to vote again to get free premium features and support the bot.";
pub const VOTE_TOPGG_NOT_VOTED: &'static str = "You haven't voted recently! Here is the link to vote :)";

pub const INVITE_TEXT: &'static str = "🔗 ";
pub const INVITE_LINK_TEXT: &'static str = "Invite Crack Tunes to your server!";
pub const INVITE_LINK_TEXT_SHORT: &'static str = "invite";
pub const INVITE_URL: &'static str = "https://discord.com/oauth2/authorize?client_id=1115229568006103122&permissions=551940115520&scope=bot+applications.commands";

pub const GP_TITLE: &'static str = "🎭 What's Your Song?";
pub const GP_RULES_TEXT: &'static str = "The host picks a category. Each round the bot posts a prompt and everyone in the voice channel secretly submits a song for it. The songs then play one by one: guess whose is whose, and 👍 the ones you like. The submitter is revealed when each song ends.";
pub const GP_HOW_TO_TITLE: &'static str = "How to play";
pub const GP_HOW_TO: &'static str = "• `/gp start <category> [rounds] [timer]` — start in your voice channel (default 5 rounds, 3 minutes to submit)\n• `/gp submit <song>` — your song for the current prompt; only you see the reply; submitting again replaces it\n• The window closes on the timer, as soon as everyone in the voice channel is in, or when the host runs `/gp close`\n• While a song plays: pick who submitted it from the dropdown (you can change your pick until it ends) and tap 👍 if you like it\n• `/gp skip` — host ends the current song · `/gp voteskip` — a majority ends it, or pulls it outright if it is your own · `/gp status` — where things stand · `/gp end` — abort\n• You need to be in the game's voice channel, and to have submitted a song, to guess, 👍 or vote\n\n**Scoring:** +100 for a correct guess · +100 if nobody guesses you · +10 for every 👍 your song gets. Up to 25 people per round.";
pub const GP_STARTED: &'static str = "🎭 Game on!";
pub const GP_STARTED_ROUNDS: &'static str = "rounds of";
pub const GP_STARTED_TIMER: &'static str = "to submit each round.";
pub const GP_QUEUE_CLEARED: &'static str = "(cleared the existing queue)";
pub const GP_ROUND_TITLE: &'static str = "🎭 Round";
pub const GP_SONG_TITLE: &'static str = "Song";
pub const GP_PROMPT_HOW_TO_TITLE: &'static str = "How";
pub const GP_PROMPT_HOW_TO: &'static str =
    "`/gp submit <song>` — one song each, only you see the reply, submitting again replaces it.";
pub const GP_PROMPT_CLOSES_TITLE: &'static str = "Submissions close";
pub const GP_PROMPT_CLOSES_EARLY: &'static str =
    "— or as soon as everyone in the voice channel has submitted.";
pub const GP_WINDOW_WARNING: &'static str = "⏳ 30 seconds left!";
pub const GP_WINDOW_WARNING_IN: &'static str = "in so far, closing";
pub const GP_WINDOW_CLOSED: &'static str = "🔒 Submissions closed —";
pub const GP_WINDOW_CLOSED_SONGS: &'static str = "song(s). Playing now!";
pub const GP_WINDOW_EMPTY: &'static str = "🔒 Submissions closed — nobody submitted, skipping this one.";
pub const GP_SUBMITTED: &'static str = "🤫 Got it:";
pub const GP_SUBMITTED_REPLACED: &'static str = "🔁 Swapped your song for:";
pub const GP_SUBMITTED_OF: &'static str = "in";
pub const GP_CLOSED_BY_HOST: &'static str = "🔒 Submissions closed by the host —";
pub const GP_ROUND_HINT: &'static str =
    "Whose song is this? Pick a name below — you can change your pick until it ends.";
pub const GP_LIKE_HINT: &'static str = "Tap 👍 if you like it (+10 to whoever submitted it).";
pub const GP_SELECT_PLACEHOLDER: &'static str = "Whose song is this?";
pub const GP_LIKE_LABEL: &'static str = "Like";
pub const GP_LIKED: &'static str = "👍 Liked";
pub const GP_UNLIKED: &'static str = "👍 Like removed";
pub const GP_LIKES: &'static str = "👍 Likes";
pub const GP_GUESS_RECORDED: &'static str = "🤫 Guess locked in. You can change it until the song ends.";
pub const GP_GUESS_CHANGED: &'static str = "🔁 Guess changed.";
pub const GP_REVEAL: &'static str = "🎉 It was";
pub const GP_GUESSED_RIGHT: &'static str = "Guessed right";
pub const GP_NOBODY_GUESSED: &'static str = "nobody!";
pub const GP_FOOLED_EVERYONE: &'static str = "🃏 Fooled everyone";
pub const GP_SCOREBOARD: &'static str = "🏆 Scoreboard";
pub const GP_GAME_OVER: &'static str = "🏆 Game over — final scores";
pub const GP_ROUND_SKIPPED: &'static str = "⏭️ Song skipped.";
pub const GP_TRACK_FAILED: &'static str = "⚠️ Couldn't play this one";
pub const GP_TRACK_FAILED_NOTE: &'static str =
    "The song wouldn't stream, so it was skipped. Nobody scored for it.";
pub const GP_ENDED_BY: &'static str = "🛑 Game ended by";
pub const GP_STATUS_SUBMITTING: &'static str = "🎭 Submissions open — round";
pub const GP_STATUS_PLAYING: &'static str = "🎭 Round";
pub const GP_STATUS_PROMPT: &'static str = "Prompt";
pub const GP_STATUS_CLOSES: &'static str = "Closes";
pub const GP_STATUS_SUBMITTED: &'static str = "Submitted";
pub const GP_STATUS_GUESSED: &'static str = "Guessed this song";
pub const GP_STATUS_LIKES: &'static str = "👍 Likes";
pub const GP_STATUS_SCORES: &'static str = "Scores";
pub const GP_NOBODY_YET: &'static str = "nobody yet";
pub const GP_SUBMITTED_IN_VC: &'static str = "in the voice channel";
pub const GP_VOTESKIP_COUNTED: &'static str = "🗳️ Vote counted —";
pub const GP_VOTESKIP_SO_FAR: &'static str = "so far,";
pub const GP_VOTESKIP_NEEDED: &'static str = "more to skip this song.";
pub const GP_VOTESKIP_PASSED: &'static str = "🗳️ The room voted to skip this one.";
pub const GP_VOTESKIP_OWN: &'static str = "🙈 Your song, your call — pulled it.";
pub const GP_ABORTED: &'static str =
    "🎭 The game could not post to this channel, so it was ended. `/gp start` to try again.";

pub const FAIL_GP_ALREADY_RUNNING: &'static str =
    "🎭 A game is already running here. `/gp status` to see it, `/gp end` to abort.";
pub const FAIL_GP_NO_GAME: &'static str = "🎭 No game is running. `/gp start` to begin one.";
pub const FAIL_GP_NOT_PLAYING: &'static str = "🎭 No song is playing right now.";
pub const FAIL_GP_OWNS_PLAYBACK: &'static str = "🎭 A game is running; that command would break the rounds. `/gp skip`, `/gp close` or `/gp end` instead.";
pub const FAIL_GP_NOT_HOST: &'static str = "🎭 Only the game's host can do that.";
pub const FAIL_GP_NOT_IN_GAME_VC: &'static str = "🎭 You need to be in the game's voice channel for that.";
pub const FAIL_GP_TOO_MANY: &'static str = "🎭 That's the maximum number of players this round:";
pub const FAIL_GP_STALE_ROUND: &'static str = "🎭 That song is over.";
pub const FAIL_GP_NOT_A_PLAYER: &'static str = "🎭 That person hasn't submitted a song this round.";
pub const FAIL_GP_WINDOW_CLOSED: &'static str =
    "🎭 Submissions aren't open right now — wait for the next prompt.";
pub const FAIL_GP_OWN_SONG: &'static str = "🎭 Nice try — you can't 👍 your own song.";
pub const FAIL_GP_NOT_GUESSABLE: &'static str =
    "🎭 Only one song this round, so there's nothing to guess — you can still 👍 it.";
pub const FAIL_GP_ALREADY_VOTED: &'static str = "🎭 You've already voted to skip this song.";
pub const FAIL_GP_NOT_A_GAME_PLAYER: &'static str =
    "🎭 You're not in this game — `/gp submit <song>` on the next prompt to join in.";

/// Sent when autoplay had to be switched off.
pub const AUTOPLAY_STOPPED: &'static str = "Autoplay off";
/// Sent when autoplay was asked for but no recommender is deployed.
pub const AUTOPLAY_NEEDS_MUSICRECO: &'static str = "Autoplay needs crack-musicreco!";

} // verus!
