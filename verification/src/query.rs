//! Reading the play command's arguments: the play mode and the query.
//!
//! A prefix command arrives as one run of text, so the mode is its first word
//! and the query what follows it; a slash command has the two as separate
//! options. Either may carry a stray `query_or_url:` option label.
use vstd::prelude::*;
use crate::queue::QueuePosition;
use crate::text::{
    after_first_white, after_first_white_chars, chars_of, first_word, first_word_chars,
    remove_all, remove_all_chars, seq_starts_with, starts_with, string_of, trim, trim_chars,
};

verus! {

/// How a play command queues what it finds.
#[derive(Debug, Clone, Copy, PartialEq, Eq, Structural)]
pub enum Mode {
    End,
    Next,
    All,
    Shuffle,
    Reverse,
    Jump,
    DownloadMKV,
    DownloadMP3,
    Search,
}

/// The option label a mangled prefix argument may carry.
pub open spec fn label() -> Seq<char> {
    "query_or_url:"@
}

pub open spec fn unlabel(s: Seq<char>) -> Seq<char> {
    remove_all(s, label())
}

/// The mode a prefix command's first word selects: the first mode name it
/// starts with, in this order, else `End`.
pub open spec fn mode_of_word(w: Seq<char>) -> Mode {
    if starts_with(w, "next"@) {
        Mode::Next
    } else if starts_with(w, "all"@) {
        Mode::All
    } else if starts_with(w, "shuffle"@) {
        Mode::Shuffle
    } else if starts_with(w, "reverse"@) {
        Mode::Reverse
    } else if starts_with(w, "jump"@) {
        Mode::Jump
    } else if starts_with(w, "downloadmkv"@) {
        Mode::DownloadMKV
    } else if starts_with(w, "downloadmp3"@) {
        Mode::DownloadMP3
    } else if starts_with(w, "search"@) {
        Mode::Search
    } else {
        Mode::End
    }
}

/// The mode a slash command's mode option names exactly, else `End`.
pub open spec fn mode_of_name(n: Seq<char>) -> Mode {
    if n == "next"@ {
        Mode::Next
    } else if n == "all"@ {
        Mode::All
    } else if n == "reverse"@ {
        Mode::Reverse
    } else if n == "shuffle"@ {
        Mode::Shuffle
    } else if n == "jump"@ {
        Mode::Jump
    } else if n == "downloadmkv"@ {
        Mode::DownloadMKV
    } else if n == "downloadmp3"@ {
        Mode::DownloadMP3
    } else if n == "search"@ {
        Mode::Search
    } else {
        Mode::End
    }
}

pub open spec fn or_empty(s: Option<Seq<char>>) -> Seq<char> {
    match s {
        Some(v) => v,
        None => Seq::empty(),
    }
}

/// What [`get_mode`] answers.
pub open spec fn get_mode_spec(is_prefix: bool, msg: Option<Seq<char>>, mode: Option<Seq<char>>) -> (
    Mode,
    Seq<char>,
) {
    if is_prefix {
        let m = mode_of_word(first_word(unlabel(or_empty(msg))));
        if m != Mode::End {
            (m, after_first_white(or_empty(msg)))
        } else {
            (Mode::End, or_empty(msg))
        }
    } else {
        (mode_of_name(unlabel(or_empty(mode))), or_empty(msg))
    }
}

/// What [`get_msg`] answers.
pub open spec fn get_msg_spec(mode: Option<Seq<char>>, query_or_url: Option<Seq<char>>, is_prefix: bool) -> Option<Seq<char>> {
    if is_prefix {
        let joined = trim(unlabel(or_empty(mode)) + " "@ + or_empty(
            match query_or_url {
                Some(q) => Some(unlabel(q)),
                None => None,
            },
        ));
        if joined.len() == 0 {
            None
        } else {
            Some(joined)
        }
    } else {
        match query_or_url {
            Some(q) => Some(unlabel(q)),
            None => None,
        }
    }
}

pub open spec fn opt_view(s: Option<String>) -> Option<Seq<char>> {
    match s {
        Some(v) => Some(v@),
        None => None,
    }
}

fn label_chars() -> (r: Vec<char>)
    ensures
        r@ == label(),
{
    chars_of("query_or_url:")
}

fn unlabeled(s: &String) -> (r: Vec<char>)
    ensures
        r@ == unlabel(s@),
{
    remove_all_chars(&chars_of(s.as_str()), &label_chars())
}

fn word_starts(w: &Vec<char>, p: &str) -> (r: bool)
    ensures
        r == starts_with(w@, p@),
{
    seq_starts_with(w, &chars_of(p))
}

fn chars_eq(a: &Vec<char>, b: &str) -> (r: bool)
    ensures
        r == (a@ == b@),
{
    let bv = chars_of(b);
    if a.len() != bv.len() {
        return false;
    }
    let r = seq_starts_with(a, &bv);
    assert(a@ =~= a@.take(bv@.len() as int));
    r
}

/// The play mode and the query, from the play command's parameters.
pub fn get_mode(is_prefix: bool, msg: Option<String>, mode: Option<String>) -> (r: (Mode, String))
    ensures
        (r.0, r.1@) == get_mode_spec(is_prefix, opt_view(msg), opt_view(mode)),
{
    let msg_text = match msg {
        Some(s) => s,
        None => String::new(),
    };
    assert(msg_text@ == or_empty(opt_view(msg)));
    if is_prefix {
        let word = first_word_chars(&unlabeled(&msg_text));
        let m = if word_starts(&word, "next") {
            Mode::Next
        } else if word_starts(&word, "all") {
            Mode::All
        } else if word_starts(&word, "shuffle") {
            Mode::Shuffle
        } else if word_starts(&word, "reverse") {
            Mode::Reverse
        } else if word_starts(&word, "jump") {
            Mode::Jump
        } else if word_starts(&word, "downloadmkv") {
            Mode::DownloadMKV
        } else if word_starts(&word, "downloadmp3") {
            Mode::DownloadMP3
        } else if word_starts(&word, "search") {
            Mode::Search
        } else {
            Mode::End
        };
        if m != Mode::End {
            let rest = after_first_white_chars(&chars_of(msg_text.as_str()));
            (m, string_of(&rest))
        } else {
            (Mode::End, msg_text)
        }
    } else {
        let mode_text = match mode {
            Some(s) => s,
            None => String::new(),
        };
        assert(mode_text@ == or_empty(opt_view(mode)));
        let name = unlabeled(&mode_text);
        let m = if chars_eq(&name, "next") {
            Mode::Next
        } else if chars_eq(&name, "all") {
            Mode::All
        } else if chars_eq(&name, "reverse") {
            Mode::Reverse
        } else if chars_eq(&name, "shuffle") {
            Mode::Shuffle
        } else if chars_eq(&name, "jump") {
            Mode::Jump
        } else if chars_eq(&name, "downloadmkv") {
            Mode::DownloadMKV
        } else if chars_eq(&name, "downloadmp3") {
            Mode::DownloadMP3
        } else if chars_eq(&name, "search") {
            Mode::Search
        } else {
            Mode::End
        };
        (m, msg_text)
    }
}

/// The query text from the play command's parameters. A prefix command's mode
/// and query are rejoined, since the framework may have split one run of text
/// between them; nothing but white space means no query.
pub fn get_msg(mode: Option<String>, query_or_url: Option<String>, is_prefix: bool) -> (r: Option<
    String,
>)
    ensures
        opt_view(r) == get_msg_spec(opt_view(mode), opt_view(query_or_url), is_prefix),
{
    let step1: Option<Vec<char>> = match &query_or_url {
        Some(q) => Some(unlabeled(q)),
        None => None,
    };
    if is_prefix {
        let mut joined: Vec<char> = match &mode {
            Some(m) => unlabeled(m),
            None => Vec::new(),
        };
        joined.push(' ');
        match &step1 {
            Some(q) => {
                let mut i: usize = 0;
                let ghost base = joined@;
                while i < q.len()
                    invariant
                        i <= q@.len(),
                        joined@ == base + q@.take(i as int),
                    decreases q@.len() - i,
                {
                    joined.push(q[i]);
                    assert(joined@ =~= base + q@.take(i + 1));
                    i = i + 1;
                }
                assert(q@.take(q@.len() as int) =~= q@);
            },
            None => {},
        }
        proof {
            reveal_strlit(" ");
            assert(joined@ =~= unlabel(or_empty(opt_view(mode))) + " "@ + or_empty(
                match opt_view(query_or_url) {
                    Some(q) => Some(unlabel(q)),
                    None => None,
                },
            ));
        }
        let trimmed = trim_chars(&joined);
        if trimmed.len() == 0 {
            None
        } else {
            Some(string_of(&trimmed))
        }
    } else {
        match step1 {
            Some(q) => Some(string_of(&q)),
            None => None,
        }
    }
}

/// Where a queued track goes, from a command's mode option: "next" and "front"
/// are understood, anything else queues at the end. Prefix and slash commands
/// read it the same way.
pub fn parse_mode(mode_str: Option<String>, is_prefix: bool) -> (r: QueuePosition)
    ensures
        r == (match opt_view(mode_str) {
            Some(m) => if m == "next"@ {
                QueuePosition::Next
            } else if m == "front"@ {
                QueuePosition::Front
            } else {
                QueuePosition::End
            },
            None => QueuePosition::End,
        }),
{
    match mode_str {
        Some(m) => {
            let v = chars_of(m.as_str());
            if chars_eq(&v, "next") {
                QueuePosition::Next
            } else if chars_eq(&v, "front") {
                QueuePosition::Front
            } else {
                QueuePosition::End
            }
        },
        None => QueuePosition::End,
    }
}


proof fn lemma_short_text_has_no_label(s: Seq<char>, p: Seq<char>)
    requires
        s.len() < p.len(),
    ensures
        remove_all(s, p) == s,
    decreases s.len(),
{
    if s.len() > 0 {
        lemma_short_text_has_no_label(s.drop_first(), p);
        assert(seq![s[0]] + s.drop_first() =~= s);
    }
}

/// A slash command's mode option selects the mode of that name, and the
/// query is the message as given.
pub proof fn a_slash_mode_option_selects_the_mode_it_names(msg: Option<Seq<char>>)
    ensures
        get_mode_spec(false, msg, Some("next"@)) == (Mode::Next, or_empty(msg)),
        get_mode_spec(false, msg, Some("all"@)) == (Mode::All, or_empty(msg)),
        get_mode_spec(false, msg, Some("reverse"@)) == (Mode::Reverse, or_empty(msg)),
        get_mode_spec(false, msg, Some("shuffle"@)) == (Mode::Shuffle, or_empty(msg)),
        get_mode_spec(false, msg, Some("jump"@)) == (Mode::Jump, or_empty(msg)),
        get_mode_spec(false, msg, Some("downloadmkv"@)) == (Mode::DownloadMKV, or_empty(msg)),
        get_mode_spec(false, msg, Some("downloadmp3"@)) == (Mode::DownloadMP3, or_empty(msg)),
        get_mode_spec(false, msg, Some("search"@)) == (Mode::Search, or_empty(msg)),
        get_mode_spec(false, msg, None) == (Mode::End, or_empty(msg)),
{
    reveal_strlit("query_or_url:");
    reveal_strlit("next");
    reveal_strlit("all");
    reveal_strlit("reverse");
    reveal_strlit("shuffle");
    reveal_strlit("jump");
    reveal_strlit("downloadmkv");
    reveal_strlit("downloadmp3");
    reveal_strlit("search");
    lemma_short_text_has_no_label("next"@, label());
    lemma_short_text_has_no_label("all"@, label());
    lemma_short_text_has_no_label("reverse"@, label());
    lemma_short_text_has_no_label("shuffle"@, label());
    lemma_short_text_has_no_label("jump"@, label());
    lemma_short_text_has_no_label("downloadmkv"@, label());
    lemma_short_text_has_no_label("downloadmp3"@, label());
    lemma_short_text_has_no_label("search"@, label());
    lemma_short_text_has_no_label(Seq::<char>::empty(), label());
    assert("downloadmp3"@[9] != "downloadmkv"@[9]);
}


proof fn lemma_prefix_char(w: Seq<char>, p: Seq<char>, i: int)
    requires
        starts_with(w, p),
        0 <= i < p.len(),
    ensures
        w[i] == p[i],
{
    assert(w.take(p.len() as int)[i] == p[i]);
}

/// A prefix command's first word selects the mode whose name it starts
/// with, and no mode when it starts with none of them.
pub proof fn a_prefix_word_selects_the_mode_it_starts_with(w: Seq<char>)
    ensures
        starts_with(w, "next"@) ==> mode_of_word(w) == Mode::Next,
        starts_with(w, "all"@) ==> mode_of_word(w) == Mode::All,
        starts_with(w, "shuffle"@) ==> mode_of_word(w) == Mode::Shuffle,
        starts_with(w, "reverse"@) ==> mode_of_word(w) == Mode::Reverse,
        starts_with(w, "jump"@) ==> mode_of_word(w) == Mode::Jump,
        starts_with(w, "downloadmkv"@) ==> mode_of_word(w) == Mode::DownloadMKV,
        starts_with(w, "downloadmp3"@) ==> mode_of_word(w) == Mode::DownloadMP3,
        starts_with(w, "search"@) ==> mode_of_word(w) == Mode::Search,
        !starts_with(w, "next"@) && !starts_with(w, "all"@) && !starts_with(w, "shuffle"@) && !starts_with(w, "reverse"@) && !starts_with(w, "jump"@) && !starts_with(w, "downloadmkv"@) && !starts_with(w, "downloadmp3"@) && !starts_with(w, "search"@) ==> mode_of_word(w) == Mode::End,
{
    reveal_strlit("next");
    reveal_strlit("all");
    reveal_strlit("shuffle");
    reveal_strlit("reverse");
    reveal_strlit("jump");
    reveal_strlit("downloadmkv");
    reveal_strlit("downloadmp3");
    reveal_strlit("search");
    if starts_with(w, "next"@) {
        lemma_prefix_char(w, "next"@, 0);
        lemma_prefix_char(w, "next"@, 1);
    }
    if starts_with(w, "all"@) {
        lemma_prefix_char(w, "all"@, 0);
        lemma_prefix_char(w, "all"@, 1);
    }
    if starts_with(w, "shuffle"@) {
        lemma_prefix_char(w, "shuffle"@, 0);
        lemma_prefix_char(w, "shuffle"@, 1);
    }
    if starts_with(w, "reverse"@) {
        lemma_prefix_char(w, "reverse"@, 0);
        lemma_prefix_char(w, "reverse"@, 1);
    }
    if starts_with(w, "jump"@) {
        lemma_prefix_char(w, "jump"@, 0);
        lemma_prefix_char(w, "jump"@, 1);
    }
    if starts_with(w, "downloadmkv"@) {
        lemma_prefix_char(w, "downloadmkv"@, 0);
        lemma_prefix_char(w, "downloadmkv"@, 1);
        lemma_prefix_char(w, "downloadmkv"@, 9);
    }
    if starts_with(w, "downloadmp3"@) {
        lemma_prefix_char(w, "downloadmp3"@, 0);
        lemma_prefix_char(w, "downloadmp3"@, 1);
        lemma_prefix_char(w, "downloadmp3"@, 9);
    }
    if starts_with(w, "search"@) {
        lemma_prefix_char(w, "search"@, 0);
        lemma_prefix_char(w, "search"@, 1);
    }
}


proof fn lemma_no_label_is_kept(s: Seq<char>, p: Seq<char>)
    requires
        forall|i: int| 0 <= i < s.len() ==> !starts_with(#[trigger] s.skip(i), p),
    ensures
        remove_all(s, p) == s,
    decreases s.len(),
{
    if s.len() > 0 && p.len() > 0 {
        assert(s.skip(0) =~= s);
        let t = s.drop_first();
        assert forall|i: int| 0 <= i < t.len() implies !starts_with(#[trigger] t.skip(i), p) by {
            assert(t.skip(i) =~= s.skip(i + 1));
        }
        lemma_no_label_is_kept(t, p);
        assert(seq![s[0]] + t =~= s);
    }
}

/// A slash command's query, when it carries no option label, is passed on
/// as the user typed it, whatever the mode; no query gives none.
pub proof fn a_slash_query_is_passed_on_as_typed(mode: Option<Seq<char>>, q: Seq<char>)
    requires
        forall|i: int| 0 <= i < q.len() ==> !starts_with(#[trigger] q.skip(i), label()),
    ensures
        get_msg_spec(mode, Some(q), false) == Some(q),
        get_msg_spec(mode, None, false) is None,
        get_mode_spec(false, Some(q), mode).1 == q,
{
    lemma_no_label_is_kept(q, label());
}

} // verus!
