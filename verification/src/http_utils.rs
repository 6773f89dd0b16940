//! How a message is to be sent: where, in which form, and what it says.
use vstd::prelude::*;
use crate::ids::ChannelId;
use crate::message::{kind_index, CrackedMessage, MessageColour};
use crate::errors::CrackedError;
use crate::urls::{url_serialization_of, url_serialized};

verus! {

/// Parses `url` and hands back the URL in its serialized form, or
/// `UrlParse` where the text is no URL.
pub fn parse_url(url: &str) -> (r: Result<String, CrackedError>)
    ensures
        r is Err <==> url_serialization_of(url@) is None,
        r matches Err(e) ==> e == CrackedError::UrlParse,
        r matches Ok(s) ==> Some(s@) == url_serialization_of(url@),
{
    match url_serialized(url) {
        Some(s) => Ok(s),
        None => Err(CrackedError::UrlParse),
    }
}

/// The parameters of a message send. `E` is the embed type of the chat
/// library that sends it.
#[derive(Debug)]
pub struct SendMessageParams<E> {
    pub channel: ChannelId,
    pub as_embed: bool,
    pub ephemeral: bool,
    pub reply: bool,
    pub color: MessageColour,
    pub cache_msg: bool,
    pub msg: CrackedMessage,
    pub embed: Option<E>,
}

/// Two parameter sets are equal when everything but the embed is: the same
/// channel, form and colour, and messages of the same kind.
impl<E> PartialEq for SendMessageParams<E> {
    fn eq(&self, other: &Self) -> (r: bool) {
        self.channel == other.channel && self.as_embed == other.as_embed && self.ephemeral
            == other.ephemeral && self.reply == other.reply && self.color == other.color
            && self.cache_msg == other.cache_msg && self.msg == other.msg
    }
}

impl<E> vstd::std_specs::cmp::PartialEqSpecImpl for SendMessageParams<E> {
    open spec fn obeys_eq_spec() -> bool {
        true
    }

    open spec fn eq_spec(&self, other: &Self) -> bool {
        &&& self.channel == other.channel
        &&& self.as_embed == other.as_embed
        &&& self.ephemeral == other.ephemeral
        &&& self.reply == other.reply
        &&& self.color == other.color
        &&& self.cache_msg == other.cache_msg
        &&& kind_index(self.msg) == kind_index(other.msg)
    }
}

/// Whether `p` holds the defaults, apart from its message: channel 1, sent
/// as an embed replying to the command, not ephemeral, blue, cached, with no
/// embed of its own.
pub open spec fn default_form<E>(p: SendMessageParams<E>) -> bool {
    &&& p.channel == ChannelId(1)
    &&& p.as_embed
    &&& !p.ephemeral
    &&& p.reply
    &&& p.color == MessageColour::Blue
    &&& p.cache_msg
    &&& p.embed is None
}

impl<E> Default for SendMessageParams<E> {
    fn default() -> (r: Self)
        ensures
            default_form(r),
            r.msg matches CrackedMessage::Other(m) && m@.len() == 0,
    {
        SendMessageParams {
            channel: ChannelId(1),
            as_embed: true,
            ephemeral: false,
            reply: true,
            color: MessageColour::Blue,
            cache_msg: true,
            msg: CrackedMessage::Other(String::new()),
            embed: None,
        }
    }
}

impl<E> SendMessageParams<E> {
    /// The defaults, with `msg` as the message.
    pub fn new(msg: CrackedMessage) -> (r: Self)
        ensures
            default_form(r),
            r.msg == msg,
    {
        SendMessageParams {
            channel: ChannelId(1),
            as_embed: true,
            ephemeral: false,
            reply: true,
            color: MessageColour::Blue,
            cache_msg: true,
            msg,
            embed: None,
        }
    }

    pub fn with_as_embed(self, as_embed: bool) -> (r: Self)
        ensures
            r == (SendMessageParams { as_embed, ..self }),
    {
        SendMessageParams { as_embed, ..self }
    }

    pub fn with_ephemeral(self, ephemeral: bool) -> (r: Self)
        ensures
            r == (SendMessageParams { ephemeral, ..self }),
    {
        SendMessageParams { ephemeral, ..self }
    }

    pub fn with_reply(self, reply: bool) -> (r: Self)
        ensures
            r == (SendMessageParams { reply, ..self }),
    {
        SendMessageParams { reply, ..self }
    }

    pub fn with_color(self, color: MessageColour) -> (r: Self)
        ensures
            r == (SendMessageParams { color, ..self }),
    {
        SendMessageParams { color, ..self }
    }

    pub fn with_msg(self, msg: CrackedMessage) -> (r: Self)
        ensures
            r == (SendMessageParams { msg, ..self }),
    {
        SendMessageParams { msg, ..self }
    }

    pub fn with_channel(self, channel: ChannelId) -> (r: Self)
        ensures
            r == (SendMessageParams { channel, ..self }),
    {
        SendMessageParams { channel, ..self }
    }

    pub fn with_cache_msg(self, cache_msg: bool) -> (r: Self)
        ensures
            r == (SendMessageParams { cache_msg, ..self }),
    {
        SendMessageParams { cache_msg, ..self }
    }

    pub fn with_embed(self, embed: Option<E>) -> (r: Self)
        ensures
            r == (SendMessageParams { embed, ..self }),
    {
        SendMessageParams { embed, ..self }
    }
}

} // verus!
