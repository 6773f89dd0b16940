//! Reading URLs. Parsing is the `url` crate's; what this module states is
//! how the library reads the parts that come back.
use vstd::prelude::*;
use crate::text::{chars_of, split_chars, split_on, views_of, string_of};

verus! {

broadcast use vstd::string::group_string_axioms;

/// The host that `url::Url::parse` finds in `input`: `None` when the input
/// does not parse, `Some(None)` when it parses to a URL without a host.
pub uninterp spec fn url_host_of(input: Seq<char>) -> Option<Option<Seq<char>>>;

/// The path that `url::Url::parse` finds in `input`, `None` when it does
/// not parse.
pub uninterp spec fn url_path_of(input: Seq<char>) -> Option<Seq<char>>;

/// The fragment that `url::Url::parse` finds in `input`: `None` when the
/// input does not parse, `Some(None)` when the URL has no fragment.
pub uninterp spec fn url_fragment_of(input: Seq<char>) -> Option<Option<Seq<char>>>;

/// The decoded query pairs of the URL `url::Url::parse` finds in `input`,
/// in order, `None` when it does not parse.
pub uninterp spec fn url_query_pairs_of(input: Seq<char>) -> Option<Seq<(Seq<char>, Seq<char>)>>;

/// What `url::Url::parse` then `to_string` gives for `input`: the URL's
/// serialization, `None` when the input does not parse.
pub uninterp spec fn url_serialization_of(input: Seq<char>) -> Option<Seq<char>>;

pub open spec fn opt_string_view(o: Option<String>) -> Option<Seq<char>> {
    match o {
        Some(s) => Some(s@),
        None => None,
    }
}

pub open spec fn opt_opt_string_view(o: Option<Option<String>>) -> Option<Option<Seq<char>>> {
    match o {
        Some(h) => Some(opt_string_view(h)),
        None => None,
    }
}

pub open spec fn pairs_view(v: Seq<(String, String)>) -> Seq<(Seq<char>, Seq<char>)> {
    v.map_values(|p: (String, String)| (p.0@, p.1@))
}

pub open spec fn opt_pairs_view(o: Option<Vec<(String, String)>>) -> Option<
    Seq<(Seq<char>, Seq<char>)>,
> {
    match o {
        Some(v) => Some(pairs_view(v@)),
        None => None,
    }
}

/// `url::Url::parse`, then `Url::host_str` on what it parsed. Parsing is
/// a function of the input alone; the contract names its result and says
/// nothing more of it.
#[verifier::external_body]
pub(crate) fn url_host(input: &str) -> (r: Option<Option<String>>)
    ensures
        opt_opt_string_view(r) == url_host_of(input@),
{
    match url::Url::parse(input) {
        Ok(u) => Some(u.host_str().map(|h| h.to_string())),
        Err(_) => None,
    }
}

/// `url::Url::parse`, then the parsed URL's `to_string`. The contract names
/// the result and says nothing more of it.
#[verifier::external_body]
pub(crate) fn url_serialized(input: &str) -> (r: Option<String>)
    ensures
        opt_string_view(r) == url_serialization_of(input@),
{
    match url::Url::parse(input) {
        Ok(u) => Some(u.to_string()),
        Err(_) => None,
    }
}

/// `url::Url::parse`, then `Url::path` on what it parsed. The contract
/// names the result and says nothing more of it.
#[verifier::external_body]
pub(crate) fn url_path(input: &str) -> (r: Option<String>)
    ensures
        opt_string_view(r) == url_path_of(input@),
{
    match url::Url::parse(input) {
        Ok(u) => Some(u.path().to_string()),
        Err(_) => None,
    }
}

/// `url::Url::parse`, then `Url::fragment` on what it parsed. The contract
/// names the result and says nothing more of it.
#[verifier::external_body]
pub(crate) fn url_fragment(input: &str) -> (r: Option<Option<String>>)
    ensures
        opt_opt_string_view(r) == url_fragment_of(input@),
{
    match url::Url::parse(input) {
        Ok(u) => Some(u.fragment().map(|f| f.to_string())),
        Err(_) => None,
    }
}

/// `url::Url::parse`, then `Url::query_pairs` on what it parsed, each pair
/// copied out in order. The contract names the result and says nothing more
/// of it.
#[verifier::external_body]
pub(crate) fn url_query_pairs(input: &str) -> (r: Option<Vec<(String, String)>>)
    ensures
        opt_pairs_view(r) == url_query_pairs_of(input@),
{
    match url::Url::parse(input) {
        Ok(u) => Some(u.query_pairs().map(|(k, v)| (k.into_owned(), v.into_owned())).collect()),
        Err(_) => None,
    }
}

/// The segments of a URL path, as `Url::path_segments` gives them: the path
/// after its leading `/`, split at every `/`; `None` for a path without a
/// leading `/` (a cannot-be-a-base URL).
pub open spec fn path_segments(path: Seq<char>) -> Option<Seq<Seq<char>>> {
    if path.len() > 0 && path[0] == '/' {
        Some(split_on(path.drop_first(), '/'))
    } else {
        None
    }
}

pub open spec fn strings_view(v: Seq<String>) -> Seq<Seq<char>> {
    v.map_values(|s: String| s@)
}

/// The segments of a URL path.
pub fn path_segments_of(path: &str) -> (r: Option<Vec<String>>)
    ensures
        match r {
            Some(v) => path_segments(path@) == Some(strings_view(v@)),
            None => path_segments(path@) is None,
        },
{
    let chars = chars_of(path);
    if chars.len() == 0 || chars[0] != '/' {
        return None;
    }
    let mut rest: Vec<char> = Vec::new();
    let mut i: usize = 1;
    while i < chars.len()
        invariant
            1 <= i <= chars@.len(),
            rest@ == chars@.subrange(1, i as int),
        decreases chars@.len() - i,
    {
        rest.push(chars[i]);
        assert(rest@ =~= chars@.subrange(1, i + 1));
        i = i + 1;
    }
    assert(rest@ =~= path@.drop_first());
    let pieces = split_chars(&rest, '/');
    let mut out: Vec<String> = Vec::new();
    let mut j: usize = 0;
    while j < pieces.len()
        invariant
            j <= pieces@.len(),
            strings_view(out@) == views_of(pieces@).take(j as int),
        decreases pieces@.len() - j,
    {
        let piece = string_of(&pieces[j]);
        let ghost old_out = out@;
        out.push(piece);
        assert(strings_view(out@) =~= strings_view(old_out).push(piece@));
        assert(views_of(pieces@).take(j + 1) =~= views_of(pieces@).take(j as int).push(
            pieces@[j as int]@,
        ));
        j = j + 1;
    }
    assert(views_of(pieces@).take(pieces@.len() as int) =~= views_of(pieces@));
    Some(out)
}

} // verus!
