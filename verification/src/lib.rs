//! Verified core of a Discord music bot: permission gating, the floating
//! status message, queue editing, playback ownership, the voice-side event
//! handlers, the guild event log and the text the bot sends, each stated over
//! a mathematical model and proved by Verus.
use vstd::prelude::*;

pub mod ids;
pub mod text;
pub mod perms;
pub mod errors;
pub mod status;
pub mod cam;
pub mod lease;
pub mod queue;
pub mod query;
pub mod track;
pub mod interface;
pub mod urls;
pub mod spotify;
pub mod messages;
pub mod metrics;
pub mod track_end;
pub mod receiver;
pub mod event_log;
pub mod message;
pub mod voice_state;
pub mod query_type;
pub mod routing;
pub mod autoplay;
pub mod idle;
pub mod http_utils;
pub mod welcome;

verus! {
} // verus!
