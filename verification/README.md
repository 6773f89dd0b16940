# crack_core

The core of a Discord music bot, written in Verus: every decision the bot
makes about its queue, its messages and its guilds is an executable function
with a contract, proved against a mathematical model of what it works on.

## Layout

- `src/` — the verified library.
  - `perms.rs`, `lease.rs`, `status.rs`: the join gate, playback ownership and
    the floating status message.
  - `queue.rs`, `query.rs`, `query_type.rs`, `routing.rs`, `track.rs`: play
    queries, where they are resolved, and how the queue is edited.
  - `track_end.rs`, `idle.rs`, `autoplay.rs`, `receiver.rs`, `cam.rs`: the
    voice-side event handlers, as state machines or pure steps.
  - `interface.rs`, `message.rs`, `messages.rs`, `errors.rs`, `event_log.rs`,
    `voice_state.rs`, `welcome.rs`, `http_utils.rs`: everything the bot says.
  - `text.rs`, `urls.rs`, `ids.rs`, `spotify.rs`: text, URLs, ids and Spotify
    links, with the URL parser and the other outside calls behind small trusted
    wrappers.
- `tests/` — executable tests of the library.
- `app/` — the glue that performs what the library decides: Discord and voice
  calls behind traits, and the loops that drive the library's state machines.

Each `pub proof fn` states a property the bot keeps across calls, such as
that a release undoes a claim or that a game owns the end of its tracks.
