use crack_core::query::{get_mode, get_msg, parse_mode, Mode};
use crack_core::queue::QueuePosition;

#[test]
fn test_get_msg() {
    let mode = Some("".to_string());
    let query_or_url = Some("".to_string());
    let is_prefix = true;
    let res = get_msg(mode, query_or_url, is_prefix);
    assert_eq!(res, None);

    let mode = None;
    let query_or_url = Some("".to_string());
    let is_prefix = true;
    let res = get_msg(mode, query_or_url, is_prefix);
    assert_eq!(res, None);

    let mode = None;
    let query_or_url = None;
    let is_prefix = true;
    let res = get_msg(mode, query_or_url, is_prefix);
    assert_eq!(res, None);

    let mode = Some("".to_string());
    let query_or_url = Some("".to_string());
    let is_prefix = false;
    let res = get_msg(mode, query_or_url, is_prefix);
    assert_eq!(res, Some("".to_string()));

    let mode = None;
    let query_or_url = Some("".to_string());
    let is_prefix = false;
    let res = get_msg(mode, query_or_url, is_prefix);
    assert_eq!(res, Some("".to_string()));

    let mode = None;
    let query_or_url = None;
    let is_prefix = false;
    let res = get_msg(mode, query_or_url, is_prefix);
    assert_eq!(res, None);

    let mode = Some("".to_string());
    let query_or_url = None;
    let is_prefix = true;
    let res = get_msg(mode, query_or_url, is_prefix);
    assert_eq!(res, None);

    let mode = Some("".to_string());
    let query_or_url = None;
    let is_prefix = false;
    let res = get_msg(mode, query_or_url, is_prefix);
    assert_eq!(res, None);

    let mode: Option<String> = None;
    let query_or_url = Some("asdf asdf asdf asd f".to_string());
    let is_prefix = true;
    let res = get_msg(mode, query_or_url, is_prefix);
    assert_eq!(res, Some("asdf asdf asdf asd f".to_string()));
}

#[test]
fn test_get_mode() {
    let is_prefix = true;
    let x = "asdf".to_string();
    let msg = Some(x.clone());
    let mode = Some("".to_string());

    assert_eq!(get_mode(is_prefix, msg, mode), (Mode::End, x.clone()));

    let x = "".to_string();
    let is_prefix = true;
    let msg = None;
    let mode = Some(x.clone());

    assert_eq!(get_mode(is_prefix, msg, mode), (Mode::End, x.clone()));

    let is_prefix = true;
    let msg = None;
    let mode = None;

    assert_eq!(get_mode(is_prefix, msg, mode), (Mode::End, x.clone()));

    let is_prefix = false;
    let msg = Some(x.clone());
    let mode = Some("next".to_string());

    assert_eq!(get_mode(is_prefix, msg, mode), (Mode::Next, x.clone()));

    let is_prefix = false;
    let msg = None;
    let mode = Some("downloadmkv".to_string());

    assert_eq!(
        get_mode(is_prefix, msg, mode),
        (Mode::DownloadMKV, x.clone())
    );

    let is_prefix = false;
    let msg = None;
    let mode = Some("downloadmp3".to_string());

    assert_eq!(
        get_mode(is_prefix, msg, mode),
        (Mode::DownloadMP3, x.clone())
    );

    let is_prefix = false;
    let msg = None;
    let mode = None;

    assert_eq!(get_mode(is_prefix, msg, mode), (Mode::End, x));
}

#[test]
fn a_prefix_mode_word_is_split_off_the_query() {
    assert_eq!(
        get_mode(true, Some("next never gonna give".to_string()), None),
        (Mode::Next, "never gonna give".to_string())
    );
    assert_eq!(
        get_mode(true, Some("query_or_url:shuffle  a b".to_string()), None),
        (Mode::Shuffle, " a b".to_string())
    );
    assert_eq!(
        get_mode(true, Some("  searching for  x".to_string()), None),
        (Mode::Search, " searching for  x".to_string())
    );
}

#[test]
fn a_slash_mode_must_be_named_exactly() {
    assert_eq!(
        get_mode(false, Some("q".to_string()), Some("query_or_url:jump".to_string())),
        (Mode::Jump, "q".to_string())
    );
    assert_eq!(
        get_mode(false, Some("q".to_string()), Some("nextt".to_string())),
        (Mode::End, "q".to_string())
    );
}

#[test]
fn a_prefix_mode_and_query_are_rejoined_and_trimmed() {
    assert_eq!(
        get_msg(Some("query_or_url:next".to_string()), Some(" song  ".to_string()), true),
        Some("next  song".to_string())
    );
    assert_eq!(
        get_msg(None, Some("query_or_url:abc query_or_url:".to_string()), false),
        Some("abc ".to_string())
    );
}

#[test]
fn parse_mode_understands_next_and_front() {
    assert_eq!(parse_mode(Some("next".to_string()), true), QueuePosition::Next);
    assert_eq!(parse_mode(Some("front".to_string()), false), QueuePosition::Front);
    assert_eq!(parse_mode(Some("back".to_string()), false), QueuePosition::End);
    assert_eq!(parse_mode(None, true), QueuePosition::End);
}
