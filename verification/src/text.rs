//! Building message text: decimal numbers, Discord mentions, whitespace
//! trimming and the byte-bounded truncation embed fields need.
use vstd::prelude::*;
use vstd::string::StringSliceAdditionalSpecFns;

verus! {

/// The ASCII digit for `d`.
pub open spec fn digit_char(d: nat) -> char {
    if d == 0 { '0' }
    else if d == 1 { '1' }
    else if d == 2 { '2' }
    else if d == 3 { '3' }
    else if d == 4 { '4' }
    else if d == 5 { '5' }
    else if d == 6 { '6' }
    else if d == 7 { '7' }
    else if d == 8 { '8' }
    else { '9' }
}

/// The decimal rendering of `n`, without leading zeros ("0" for zero).
pub open spec fn decimal(n: nat) -> Seq<char>
    decreases n,
{
    if n < 10 {
        seq![digit_char(n)]
    } else {
        decimal(n / 10).push(digit_char(n % 10))
    }
}

/// Appends one character. `String::push` documents exactly this.
#[verifier::external_body]
pub(crate) fn push_char(s: &mut String, c: char)
    ensures
        final(s)@ == old(s)@.push(c),
{
    s.push(c);
}

fn digit(d: u64) -> (c: char)
    requires
        d < 10,
    ensures
        c == digit_char(d as nat),
{
    match d {
        0 => '0',
        1 => '1',
        2 => '2',
        3 => '3',
        4 => '4',
        5 => '5',
        6 => '6',
        7 => '7',
        8 => '8',
        _ => '9',
    }
}

/// Appends the decimal rendering of `n`.
pub fn push_decimal(s: &mut String, n: u64)
    ensures
        final(s)@ == old(s)@ + decimal(n as nat),
    decreases n,
{
    if n >= 10 {
        push_decimal(s, n / 10);
    }
    let ghost mid = s@;
    push_char(s, digit(n % 10));
    proof {
        if n >= 10 {
            assert(mid == old(s)@ + decimal((n / 10) as nat));
            assert(s@ =~= old(s)@ + decimal(n as nat));
        } else {
            assert(s@ =~= old(s)@ + decimal(n as nat));
        }
    }
}

/// The decimal rendering of `n` as a new string.
pub fn decimal_string(n: u64) -> (s: String)
    ensures
        s@ == decimal(n as nat),
{
    let mut s = String::new();
    push_decimal(&mut s, n);
    proof {
        assert(s@ =~= decimal(n as nat));
    }
    s
}

/// `<@id>`: how Discord renders a user mention.
pub open spec fn user_mention(id: u64) -> Seq<char> {
    "<@"@ + decimal(id as nat) + ">"@
}

/// `<#id>`: how Discord renders a channel mention.
pub open spec fn channel_mention(id: u64) -> Seq<char> {
    "<#"@ + decimal(id as nat) + ">"@
}

/// `<@&id>`: how Discord renders a role mention.
pub open spec fn role_mention(id: u64) -> Seq<char> {
    "<@&"@ + decimal(id as nat) + ">"@
}

/// Appends `<@id>`.
pub fn push_user_mention(s: &mut String, id: u64)
    ensures
        final(s)@ == old(s)@ + user_mention(id),
{
    s.append("<@");
    push_decimal(s, id);
    s.append(">");
    proof {
        assert(s@ =~= old(s)@ + user_mention(id));
    }
}

/// Appends `<#id>`.
pub fn push_channel_mention(s: &mut String, id: u64)
    ensures
        final(s)@ == old(s)@ + channel_mention(id),
{
    s.append("<#");
    push_decimal(s, id);
    s.append(">");
    proof {
        assert(s@ =~= old(s)@ + channel_mention(id));
    }
}

/// Appends `<@&id>`.
pub fn push_role_mention(s: &mut String, id: u64)
    ensures
        final(s)@ == old(s)@ + role_mention(id),
{
    s.append("<@&");
    push_decimal(s, id);
    s.append(">");
    proof {
        assert(s@ =~= old(s)@ + role_mention(id));
    }
}

} // verus!

verus! {

broadcast use vstd::string::group_string_axioms;

/// The characters of `s`, in order.
pub fn chars_of(s: &str) -> (v: Vec<char>)
    ensures
        v@ == s@,
{
    let mut v: Vec<char> = Vec::new();
    for c in it: s.chars()
        invariant
            v@ == it.seq().take(it.index() as int),
    {
        v.push(c);
        assert(v@ =~= it.seq().take(it.index() as int + 1));
    }
    assert(v@ =~= s@);
    v
}

} // verus!

verus! {

/// The string with these characters.
pub fn string_of(v: &Vec<char>) -> (s: String)
    ensures
        s@ == v@,
{
    let mut s = String::new();
    let mut i: usize = 0;
    while i < v.len()
        invariant
            i <= v@.len(),
            s@ == v@.take(i as int),
        decreases v@.len() - i,
    {
        push_char(&mut s, v[i]);
        assert(s@ =~= v@.take(i + 1));
        i = i + 1;
    }
    assert(v@.take(v@.len() as int) =~= v@);
    s
}

/// The characters with Unicode's White_Space property, which is what
/// `char::is_whitespace` and `str::trim` go by.
pub open spec fn is_white(c: char) -> bool {
    let n = c as u32;
    ||| 9 <= n <= 13
    ||| n == 32
    ||| n == 0x85
    ||| n == 0xA0
    ||| n == 0x1680
    ||| 0x2000 <= n <= 0x200A
    ||| n == 0x2028
    ||| n == 0x2029
    ||| n == 0x202F
    ||| n == 0x205F
    ||| n == 0x3000
}

pub fn is_white_char(c: char) -> (r: bool)
    ensures
        r == is_white(c),
{
    let n = c as u32;
    (9 <= n && n <= 13) || n == 32 || n == 0x85 || n == 0xA0 || n == 0x1680 || (0x2000 <= n && n
        <= 0x200A) || n == 0x2028 || n == 0x2029 || n == 0x202F || n == 0x205F || n == 0x3000
}

/// `s` without its leading white space.
pub open spec fn trim_start(s: Seq<char>) -> Seq<char>
    decreases s.len(),
{
    if s.len() > 0 && is_white(s[0]) {
        trim_start(s.drop_first())
    } else {
        s
    }
}

/// `s` without its trailing white space.
pub open spec fn trim_end(s: Seq<char>) -> Seq<char>
    decreases s.len(),
{
    if s.len() > 0 && is_white(s.last()) {
        trim_end(s.drop_last())
    } else {
        s
    }
}

/// `s` without leading or trailing white space, as `str::trim` gives it.
pub open spec fn trim(s: Seq<char>) -> Seq<char> {
    trim_end(trim_start(s))
}

/// Whether `s` begins with `p`.
pub open spec fn starts_with(s: Seq<char>, p: Seq<char>) -> bool {
    p.len() <= s.len() && s.take(p.len() as int) == p
}

/// `s` with every occurrence of the non-empty `p` removed, scanning left to
/// right as `str::replace(p, "")` does.
pub open spec fn remove_all(s: Seq<char>, p: Seq<char>) -> Seq<char>
    decreases s.len(),
{
    if s.len() == 0 || p.len() == 0 {
        s
    } else if starts_with(s, p) {
        remove_all(s.skip(p.len() as int), p)
    } else {
        seq![s[0]] + remove_all(s.drop_first(), p)
    }
}

/// The first white-space separated word of `s` (empty when there is none), as
/// `split_whitespace().next().unwrap_or_default()` gives it.
pub open spec fn first_word(s: Seq<char>) -> Seq<char> {
    word_prefix(trim_start(s))
}

/// The characters of `s` up to its first white space.
pub open spec fn word_prefix(s: Seq<char>) -> Seq<char>
    decreases s.len(),
{
    if s.len() == 0 || is_white(s[0]) {
        Seq::empty()
    } else {
        seq![s[0]] + word_prefix(s.drop_first())
    }
}

/// What follows the first white space of `s`, or all of `s` when it has none,
/// as `splitn(2, char::is_whitespace).last()` gives it.
pub open spec fn after_first_white(s: Seq<char>) -> Seq<char>
    decreases s.len(),
{
    if s.len() == 0 {
        s
    } else if is_white(s[0]) {
        s.drop_first()
    } else {
        let rest = after_first_white(s.drop_first());
        if rest.len() == s.len() - 1 {
            s
        } else {
            rest
        }
    }
}

pub fn seq_starts_with(s: &Vec<char>, p: &Vec<char>) -> (r: bool)
    ensures
        r == starts_with(s@, p@),
{
    if p.len() > s.len() {
        return false;
    }
    let mut i: usize = 0;
    while i < p.len()
        invariant
            p@.len() <= s@.len(),
            i <= p@.len(),
            forall|j: int| 0 <= j < i ==> s@[j] == p@[j],
        decreases p@.len() - i,
    {
        if s[i] != p[i] {
            assert(s@.take(p@.len() as int)[i as int] != p@[i as int]);
            return false;
        }
        i = i + 1;
    }
    assert(s@.take(p@.len() as int) =~= p@);
    true
}

fn starts_with_at(s: &Vec<char>, at: usize, p: &Vec<char>) -> (r: bool)
    requires
        at <= s@.len(),
    ensures
        r == starts_with(s@.skip(at as int), p@),
{
    if p.len() > s.len() - at {
        return false;
    }
    let mut i: usize = 0;
    while i < p.len()
        invariant
            at <= s@.len() <= usize::MAX,
            p@.len() <= s@.len() - at,
            i <= p@.len(),
            forall|j: int| 0 <= j < i ==> s@[at + j] == p@[j],
        decreases p@.len() - i,
    {
        assert(at + i < s@.len());
        if s[at + i] != p[i] {
            assert(s@.skip(at as int).take(p@.len() as int)[i as int] != p@[i as int]);
            return false;
        }
        i = i + 1;
    }
    assert(s@.skip(at as int).take(p@.len() as int) =~= p@);
    true
}

/// `s` with every occurrence of `p` removed.
pub fn remove_all_chars(s: &Vec<char>, p: &Vec<char>) -> (r: Vec<char>)
    ensures
        r@ == remove_all(s@, p@),
{
    let mut out: Vec<char> = Vec::new();
    let mut at: usize = 0;
    assert(s@.skip(0) =~= s@);
    while at < s.len()
        invariant
            at <= s@.len(),
            out@ + remove_all(s@.skip(at as int), p@) == remove_all(s@, p@),
        decreases s@.len() - at,
    {
        let ghost rest = s@.skip(at as int);
        if p.len() > 0 && starts_with_at(s, at, p) {
            assert(rest.skip(p@.len() as int) =~= s@.skip(at + p@.len()));
            at = at + p.len();
        } else {
            out.push(s[at]);
            assert(rest.drop_first() =~= s@.skip(at + 1));
            proof {
                if p@.len() == 0 {
                    assert(remove_all(rest, p@) == rest);
                    assert(remove_all(s@.skip(at + 1), p@) == s@.skip(at + 1));
                }
            }
            assert(rest[0] == s@[at as int]);
            assert(out@ + remove_all(s@.skip(at + 1), p@) =~= out@.drop_last() + (seq![s@[at as int]]
                + remove_all(rest.drop_first(), p@)));
            at = at + 1;
        }
    }
    assert(s@.skip(at as int).len() == 0);
    assert(out@ =~= remove_all(s@, p@));
    out
}

/// `s` without leading and trailing white space.
pub fn trim_chars(s: &Vec<char>) -> (r: Vec<char>)
    ensures
        r@ == trim(s@),
{
    let mut start: usize = 0;
    assert(s@.skip(0) =~= s@);
    while start < s.len() && is_white_char(s[start])
        invariant
            start <= s@.len(),
            trim_start(s@) == trim_start(s@.skip(start as int)),
        decreases s@.len() - start,
    {
        assert(s@.skip(start as int).drop_first() =~= s@.skip(start + 1));
        start = start + 1;
    }
    let mut end: usize = s.len();
    assert(s@.skip(start as int) =~= s@.subrange(start as int, end as int));
    while end > start && is_white_char(s[end - 1])
        invariant
            start <= end <= s@.len(),
            trim(s@) == trim_end(s@.subrange(start as int, end as int)),
        decreases end - start,
    {
        assert(s@.subrange(start as int, end as int).drop_last() =~= s@.subrange(
            start as int,
            end - 1,
        ));
        end = end - 1;
    }
    let mut out: Vec<char> = Vec::new();
    let mut i: usize = start;
    while i < end
        invariant
            start <= i <= end <= s@.len(),
            out@ == s@.subrange(start as int, i as int),
        decreases end - i,
    {
        out.push(s[i]);
        assert(out@ =~= s@.subrange(start as int, i + 1));
        i = i + 1;
    }
    out
}

/// The first white-space separated word of `s`.
pub fn first_word_chars(s: &Vec<char>) -> (r: Vec<char>)
    ensures
        r@ == first_word(s@),
{
    let mut start: usize = 0;
    assert(s@.skip(0) =~= s@);
    while start < s.len() && is_white_char(s[start])
        invariant
            start <= s@.len(),
            trim_start(s@) == trim_start(s@.skip(start as int)),
        decreases s@.len() - start,
    {
        assert(s@.skip(start as int).drop_first() =~= s@.skip(start + 1));
        start = start + 1;
    }
    let mut out: Vec<char> = Vec::new();
    let mut i: usize = start;
    while i < s.len() && !is_white_char(s[i])
        invariant
            start <= i <= s@.len(),
            trim_start(s@) == s@.skip(start as int),
            out@ + word_prefix(s@.skip(i as int)) == first_word(s@),
        decreases s@.len() - i,
    {
        let ghost rest = s@.skip(i as int);
        assert(rest.drop_first() =~= s@.skip(i + 1));
        out.push(s[i]);
        assert(out@ + word_prefix(s@.skip(i + 1)) =~= out@.drop_last() + (seq![rest[0]]
            + word_prefix(rest.drop_first())));
        i = i + 1;
    }
    assert(word_prefix(s@.skip(i as int)) =~= Seq::<char>::empty());
    assert(out@ =~= first_word(s@));
    out
}

proof fn lemma_after_first_white_none(s: Seq<char>)
    requires
        forall|j: int| 0 <= j < s.len() ==> !is_white(#[trigger] s[j]),
    ensures
        after_first_white(s) == s,
    decreases s.len(),
{
    if s.len() > 0 {
        lemma_after_first_white_none(s.drop_first());
    }
}

proof fn lemma_after_first_white_at(s: Seq<char>, i: int)
    requires
        0 <= i < s.len(),
        is_white(s[i]),
        forall|j: int| 0 <= j < i ==> !is_white(#[trigger] s[j]),
    ensures
        after_first_white(s) == s.skip(i + 1),
    decreases s.len(),
{
    if i > 0 {
        lemma_after_first_white_at(s.drop_first(), i - 1);
        assert(s.drop_first().skip(i) =~= s.skip(i + 1));
        assert(after_first_white(s.drop_first()).len() < s.len() - 1);
    } else {
        assert(s.drop_first() =~= s.skip(1));
    }
}

/// What follows the first white space of `s`, or all of `s` when it has none.
pub fn after_first_white_chars(s: &Vec<char>) -> (r: Vec<char>)
    ensures
        r@ == after_first_white(s@),
{
    let mut i: usize = 0;
    while i < s.len() && !is_white_char(s[i])
        invariant
            i <= s@.len(),
            forall|j: int| 0 <= j < i ==> !is_white(#[trigger] s@[j]),
        decreases s@.len() - i,
    {
        i = i + 1;
    }
    if i == s.len() {
        proof {
            lemma_after_first_white_none(s@);
        }
        return s.clone();
    }
    proof {
        lemma_after_first_white_at(s@, i as int);
    }
    let mut out: Vec<char> = Vec::new();
    let mut k: usize = i + 1;
    while k < s.len()
        invariant
            i < k <= s@.len(),
            out@ == s@.subrange(i + 1, k as int),
        decreases s@.len() - k,
    {
        out.push(s[k]);
        assert(out@ =~= s@.subrange(i + 1, k + 1));
        k = k + 1;
    }
    assert(out@ =~= s@.skip(i + 1));
    out
}

} // verus!

verus! {

/// The pieces of `s` between occurrences of `sep`, as `str::split(sep)`
/// gives them: one more piece than there are separators, empty pieces kept.
pub open spec fn split_on(s: Seq<char>, sep: char) -> Seq<Seq<char>>
    decreases s.len(),
{
    if s.len() == 0 {
        seq![Seq::empty()]
    } else {
        let rest = split_on(s.drop_first(), sep);
        if s[0] == sep {
            seq![Seq::empty()] + rest
        } else {
            rest.update(0, seq![s[0]] + rest[0])
        }
    }
}

/// A split always gives at least one piece, the empty text included.
pub proof fn lemma_split_on_nonempty(s: Seq<char>, sep: char)
    ensures
        split_on(s, sep).len() >= 1,
    decreases s.len(),
{
    if s.len() > 0 {
        lemma_split_on_nonempty(s.drop_first(), sep);
    }
}

/// The views of a vector of character vectors.
pub open spec fn views_of(v: Seq<Vec<char>>) -> Seq<Seq<char>> {
    v.map_values(|x: Vec<char>| x@)
}

/// The pieces of `s` between occurrences of `sep`.
pub fn split_chars(s: &Vec<char>, sep: char) -> (r: Vec<Vec<char>>)
    ensures
        views_of(r@) == split_on(s@, sep),
{
    let mut done: Vec<Vec<char>> = Vec::new();
    let mut cur: Vec<char> = Vec::new();
    let mut i: usize = 0;
    assert(s@.skip(0) =~= s@);
    proof {
        lemma_split_on_nonempty(s@, sep);
    }
    while i < s.len()
        invariant
            i <= s@.len(),
            ({
                let r = split_on(s@.skip(i as int), sep);
                &&& r.len() >= 1
                &&& split_on(s@, sep) == views_of(done@) + seq![cur@ + r[0]] + r.drop_first()
            }),
        decreases s@.len() - i,
    {
        let ghost rest = s@.skip(i as int);
        let ghost r2 = split_on(s@.skip(i + 1), sep);
        proof {
            assert(rest.drop_first() =~= s@.skip(i + 1));
            lemma_split_on_nonempty(s@.skip(i + 1), sep);
            assert(rest[0] == s@[i as int]);
        }
        let c = s[i];
        if c == sep {
            let piece = cur;
            let ghost old_done = done@;
            done.push(piece);
            cur = Vec::new();
            proof {
                assert(views_of(done@) =~= views_of(old_done) + seq![piece@]);
                let r = split_on(rest, sep);
                assert(r =~= seq![Seq::<char>::empty()] + r2);
                assert(r[0] =~= Seq::<char>::empty());
                assert(r.drop_first() =~= r2);
                assert(piece@ + r[0] =~= piece@);
                assert(views_of(done@) + seq![cur@ + r2[0]] + r2.drop_first() =~= views_of(
                    old_done,
                ) + seq![piece@ + r[0]] + r.drop_first());
            }
        } else {
            let ghost old_cur = cur@;
            cur.push(c);
            proof {
                let r = split_on(rest, sep);
                assert(r == r2.update(0, seq![c] + r2[0]));
                assert(r[0] == seq![c] + r2[0]);
                assert(r.drop_first() =~= r2.drop_first());
                assert(cur@ + r2[0] =~= old_cur + r[0]);
            }
        }
        i = i + 1;
    }
    proof {
        assert(s@.skip(i as int) =~= Seq::<char>::empty());
        let r = split_on(s@.skip(i as int), sep);
        assert(r =~= seq![Seq::<char>::empty()]);
        assert(cur@ + r[0] =~= cur@);
        assert(r.drop_first() =~= Seq::<Seq<char>>::empty());
    }
    let ghost old_done = done@;
    done.push(cur);
    proof {
        assert(views_of(done@) =~= views_of(old_done) + seq![done@.last()@]);
        let r = split_on(s@.skip(i as int), sep);
        assert(views_of(done@) =~= views_of(old_done) + seq![done@.last()@ + r[0]] + r.drop_first());
    }
    done
}

} // verus!

verus! {

/// `parts` joined with `sep` between neighbours, as `[String]::join` gives.
pub open spec fn join(parts: Seq<Seq<char>>, sep: Seq<char>) -> Seq<char>
    decreases parts.len(),
{
    if parts.len() == 0 {
        Seq::empty()
    } else if parts.len() == 1 {
        parts[0]
    } else {
        join(parts.drop_last(), sep) + sep + parts.last()
    }
}

/// `parts` joined with `sep` between neighbours.
pub fn join_strings(parts: &Vec<String>, sep: &str) -> (r: String)
    ensures
        r@ == join(parts@.map_values(|s: String| s@), sep@),
{
    let ghost views = parts@.map_values(|s: String| s@);
    let mut out = String::new();
    let mut i: usize = 0;
    while i < parts.len()
        invariant
            i <= parts@.len(),
            views == parts@.map_values(|s: String| s@),
            out@ == join(views.take(i as int), sep@),
        decreases parts@.len() - i,
    {
        if i > 0 {
            out.append(sep);
        }
        out.append(parts[i].as_str());
        proof {
            let t = views.take(i + 1);
            assert(t.drop_last() =~= views.take(i as int));
            assert(t.last() == parts@[i as int]@);
            if i == 0 {
                assert(out@ =~= join(t, sep@));
            } else {
                assert(out@ =~= join(t, sep@));
            }
        }
        i = i + 1;
    }
    assert(views.take(parts@.len() as int) =~= views);
    out
}

/// Whether two character vectors hold the same characters.
pub fn same_chars(a: &Vec<char>, b: &Vec<char>) -> (r: bool)
    ensures
        r == (a@ == b@),
{
    if a.len() != b.len() {
        return false;
    }
    let mut i: usize = 0;
    while i < a.len()
        invariant
            a@.len() == b@.len(),
            i <= a@.len(),
            forall|j: int| 0 <= j < i ==> a@[j] == b@[j],
        decreases a@.len() - i,
    {
        if a[i] != b[i] {
            return false;
        }
        i = i + 1;
    }
    assert(a@ =~= b@);
    true
}

} // verus!

verus! {

/// `true` or `false`, as `bool` prints.
pub open spec fn bool_text(b: bool) -> Seq<char> {
    if b {
        "true"@
    } else {
        "false"@
    }
}

/// Appends `true` or `false`.
pub fn push_bool(s: &mut String, b: bool)
    ensures
        final(s)@ == old(s)@ + bool_text(b),
{
    if b {
        s.append("true");
    } else {
        s.append("false");
    }
}

/// The decimal rendering of a signed number: a minus sign before the
/// magnitude of a negative one.
pub open spec fn signed_decimal(n: int) -> Seq<char> {
    if n < 0 {
        "-"@ + decimal((-n) as nat)
    } else {
        decimal(n as nat)
    }
}

/// Appends the decimal rendering of a signed number.
pub fn push_signed(s: &mut String, n: i64)
    ensures
        final(s)@ == old(s)@ + signed_decimal(n as int),
{
    if n < 0 {
        s.append("-");
        let ghost mid = s@;
        let m: u64 = if n == i64::MIN {
            9223372036854775808u64
        } else {
            (-n) as u64
        };
        push_decimal(s, m);
        proof {
            assert(m == -(n as int));
            assert(s@ =~= old(s)@ + signed_decimal(n as int));
        }
    } else {
        push_decimal(s, n as u64);
    }
}

} // verus!

verus! {

/// `s` with every occurrence of the non-empty `p` replaced by `w`, scanning
/// left to right as `str::replace(p, w)` does.
pub open spec fn replace_all(s: Seq<char>, p: Seq<char>, w: Seq<char>) -> Seq<char>
    decreases s.len(),
{
    if s.len() == 0 || p.len() == 0 {
        s
    } else if starts_with(s, p) {
        w + replace_all(s.skip(p.len() as int), p, w)
    } else {
        seq![s[0]] + replace_all(s.drop_first(), p, w)
    }
}

/// `s` with every occurrence of `p` replaced by `w`.
pub fn replace_all_chars(s: &Vec<char>, p: &Vec<char>, w: &Vec<char>) -> (r: Vec<char>)
    ensures
        r@ == replace_all(s@, p@, w@),
{
    let mut out: Vec<char> = Vec::new();
    let mut at: usize = 0;
    assert(s@.skip(0) =~= s@);
    while at < s.len()
        invariant
            at <= s@.len(),
            out@ + replace_all(s@.skip(at as int), p@, w@) == replace_all(s@, p@, w@),
        decreases s@.len() - at,
    {
        let ghost rest = s@.skip(at as int);
        if p.len() > 0 && starts_with_at(s, at, p) {
            assert(rest.skip(p@.len() as int) =~= s@.skip(at + p@.len()));
            let ghost before = out@;
            let mut k: usize = 0;
            while k < w.len()
                invariant
                    k <= w@.len(),
                    out@ == before + w@.take(k as int),
                decreases w@.len() - k,
            {
                out.push(w[k]);
                assert(out@ =~= before + w@.take(k + 1));
                k = k + 1;
            }
            assert(w@.take(w@.len() as int) =~= w@);
            assert(out@ + replace_all(s@.skip(at + p@.len()), p@, w@) =~= before + (w@
                + replace_all(rest.skip(p@.len() as int), p@, w@)));
            at = at + p.len();
        } else {
            out.push(s[at]);
            assert(rest.drop_first() =~= s@.skip(at + 1));
            proof {
                if p@.len() == 0 {
                    assert(replace_all(rest, p@, w@) == rest);
                    assert(replace_all(s@.skip(at + 1), p@, w@) == s@.skip(at + 1));
                }
            }
            assert(rest[0] == s@[at as int]);
            assert(out@ + replace_all(s@.skip(at + 1), p@, w@) =~= out@.drop_last() + (seq![
                s@[at as int],
            ] + replace_all(rest.drop_first(), p@, w@)));
            at = at + 1;
        }
    }
    assert(s@.skip(at as int).len() == 0);
    assert(out@ =~= replace_all(s@, p@, w@));
    out
}

/// The decimal renderings of `v`, in order.
pub open spec fn decimals(v: Seq<u32>) -> Seq<Seq<char>> {
    v.map_values(|x: u32| decimal(x as nat))
}

/// The numbers of `v` in decimal, joined with ", ".
pub fn join_decimals(v: &Vec<u32>) -> (r: String)
    ensures
        r@ == join(decimals(v@), ", "@),
{
    let mut parts: Vec<String> = Vec::new();
    let mut i: usize = 0;
    while i < v.len()
        invariant
            i <= v@.len(),
            parts@.map_values(|s: String| s@) == decimals(v@).take(i as int),
        decreases v@.len() - i,
    {
        let d = decimal_string(v[i] as u64);
        let ghost before = parts@;
        parts.push(d);
        assert(parts@.map_values(|s: String| s@) =~= before.map_values(|s: String| s@).push(d@));
        assert(decimals(v@).take(i + 1) =~= decimals(v@).take(i as int).push(decimal(
            v@[i as int] as nat,
        )));
        i = i + 1;
    }
    assert(decimals(v@).take(v@.len() as int) =~= decimals(v@));
    join_strings(&parts, ", ")
}

} // verus!

verus! {

/// The nearest character boundary of `src` at or before byte `i`: slicing
/// there cannot split a character.
pub fn floor_boundary(src: &str, i: usize) -> (r: usize)
    ensures
        r <= i,
        vstd::utf8::is_char_boundary(src.spec_bytes(), r as int),
        forall|j: int| r < j <= i ==> !vstd::utf8::is_char_boundary(src.spec_bytes(), j),
{
    let mut k: usize = i;
    while k > 0 && !src.is_char_boundary(k)
        invariant
            k <= i,
            forall|j: int| k < j <= i ==> !vstd::utf8::is_char_boundary(src.spec_bytes(), j),
        decreases k,
    {
        k = k - 1;
    }
    proof {
        if k == 0 {
            vstd::utf8::encode_utf8_valid_utf8(src@);
            vstd::utf8::is_char_boundary_start_end_of_seq(src.spec_bytes());
        }
    }
    k
}

} // verus!

verus! {

/// Whether `p` occurs in `s`.
pub open spec fn has_infix(s: Seq<char>, p: Seq<char>) -> bool {
    exists|i: int| 0 <= i <= s.len() && #[trigger] starts_with(s.skip(i), p)
}

/// Whether `p` occurs in `s`.
pub fn contains_chars(s: &Vec<char>, p: &Vec<char>) -> (r: bool)
    ensures
        r == has_infix(s@, p@),
{
    let mut at: usize = 0;
    while at < s.len()
        invariant
            at <= s@.len(),
            forall|i: int| 0 <= i < at ==> !#[trigger] starts_with(s@.skip(i), p@),
        decreases s@.len() - at,
    {
        if starts_with_at(s, at, p) {
            return true;
        }
        at = at + 1;
    }
    starts_with_at(s, at, p)
}

/// What `s` holds before the first occurrence of the non-empty `p`, all of
/// `s` when `p` does not occur: the first piece `str::split(p)` gives.
pub open spec fn before_first(s: Seq<char>, p: Seq<char>) -> Seq<char>
    decreases s.len(),
{
    if s.len() == 0 || starts_with(s, p) {
        Seq::empty()
    } else {
        seq![s[0]] + before_first(s.drop_first(), p)
    }
}

/// What `s` holds before the first occurrence of `p`.
pub fn before_first_chars(s: &Vec<char>, p: &Vec<char>) -> (r: Vec<char>)
    ensures
        r@ == before_first(s@, p@),
{
    let mut out: Vec<char> = Vec::new();
    let mut at: usize = 0;
    assert(s@.skip(0) =~= s@);
    while at < s.len() && !starts_with_at(s, at, p)
        invariant
            at <= s@.len(),
            out@ + before_first(s@.skip(at as int), p@) == before_first(s@, p@),
        decreases s@.len() - at,
    {
        let ghost rest = s@.skip(at as int);
        assert(rest.drop_first() =~= s@.skip(at + 1));
        assert(rest[0] == s@[at as int]);
        out.push(s[at]);
        assert(out@ + before_first(s@.skip(at + 1), p@) =~= out@.drop_last() + (seq![rest[0]]
            + before_first(rest.drop_first(), p@)));
        at = at + 1;
    }
    assert(out@ + before_first(s@.skip(at as int), p@) =~= out@);
    out
}

} // verus!

verus! {

/// No piece of a split holds the separator.
pub proof fn lemma_split_pieces_lack_sep(s: Seq<char>, sep: char)
    ensures
        forall|i: int|
            0 <= i < split_on(s, sep).len() ==> !(#[trigger] split_on(s, sep)[i]).contains(sep),
    decreases s.len(),
{
    if s.len() > 0 {
        let rest = split_on(s.drop_first(), sep);
        lemma_split_pieces_lack_sep(s.drop_first(), sep);
        lemma_split_on_nonempty(s.drop_first(), sep);
        let r = split_on(s, sep);
        if s[0] == sep {
            assert forall|i: int| 0 <= i < r.len() implies !(#[trigger] r[i]).contains(sep) by {
                if i == 0 {
                    assert(r[0] =~= Seq::<char>::empty());
                } else {
                    assert(r[i] == rest[i - 1]);
                }
            }
        } else {
            assert forall|i: int| 0 <= i < r.len() implies !(#[trigger] r[i]).contains(sep) by {
                if i == 0 {
                    let p = seq![s[0]] + rest[0];
                    assert(r[0] == p);
                    if p.contains(sep) {
                        let k = choose|k: int| 0 <= k < p.len() && p[k] == sep;
                        if k > 0 {
                            assert(rest[0][k - 1] == sep);
                        }
                    }
                } else {
                    assert(r[i] == rest[i]);
                }
            }
        }
    }
}

} // verus!
