use crack_core::errors::CrackedError;
use crack_core::http_utils::{parse_url, SendMessageParams};
use crack_core::ids::ChannelId;
use crack_core::message::{CrackedMessage, MessageColour};

#[test]
fn test_build_send_message_params() {
    let channel_id = ChannelId::new(1);
    let msg = CrackedMessage::Other("Hello, world!".to_string());
    let params = SendMessageParams::<()>::new(msg)
        .with_as_embed(true)
        .with_ephemeral(false)
        .with_reply(true)
        .with_color(MessageColour::Blue)
        .with_cache_msg(true)
        .with_channel(channel_id)
        .with_embed(None);

    assert_eq!(params.channel, channel_id);
    assert_eq!(params.as_embed, true);
    assert_eq!(params.ephemeral, false);
    assert_eq!(params.reply, true);
    assert_eq!(params.color, MessageColour::Blue);
    assert_eq!(params.cache_msg, true);
    assert_eq!(
        params.msg,
        CrackedMessage::Other("Hello, world!".to_string())
    );
    assert_eq!(params.embed.is_none(), true);
}

#[test]
fn default_params_reply_in_a_blue_embed_and_ignore_the_embed_in_comparisons() {
    let d = SendMessageParams::<u32>::default();
    assert_eq!(d.channel, ChannelId::new(1));
    assert!(d.as_embed && d.reply && d.cache_msg && !d.ephemeral);
    assert_eq!(d.color, MessageColour::Blue);
    assert!(matches!(d.msg, CrackedMessage::Other(ref m) if m.is_empty()));

    let with = SendMessageParams::<u32>::default().with_embed(Some(7));
    assert!(with == d);
    let elsewhere = SendMessageParams::<u32>::default().with_channel(ChannelId::new(2));
    assert!(elsewhere != d);
}

#[test]
fn a_url_comes_back_in_its_serialized_form() {
    assert_eq!(parse_url("HTTPS://Example.COM").unwrap(), "https://example.com/");
    assert_eq!(
        parse_url("https://www.youtube.com/watch?v=abc").unwrap(),
        "https://www.youtube.com/watch?v=abc"
    );
}

#[test]
fn a_text_that_is_no_url_is_refused() {
    assert_eq!(parse_url("not a url"), Err(CrackedError::UrlParse));
    assert_eq!(parse_url(""), Err(CrackedError::UrlParse));
    assert_eq!(CrackedError::UrlParse.to_text(), "invalid URL");
}
