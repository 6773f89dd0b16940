//! Small pieces of what the bot shows: requester credits, the queue's page
//! buttons, embed author lines and log-entry defaults.
use vstd::prelude::*;
use crate::ids::{MessageId, UserId};
use crate::errors::CrackedError;
use crate::text::{chars_of, decimal, push_decimal, push_user_mention, string_of, user_mention};
use crate::messages::{
    QUEUE_NOTHING_IS_PLAYING, QUEUE_NOW_PLAYING, QUEUE_NO_SONGS, QUEUE_NO_SRC, QUEUE_NO_TITLE,
    QUEUE_PAGE, QUEUE_PAGE_OF, QUEUE_UP_NEXT, PROGRESS, REQUESTED_BY, UNKNOWN,
};
use crate::urls::{url_serialization_of, url_serialized};

verus! {

broadcast use vstd::string::group_string_axioms;

/// How a requester is credited: autoplay's placeholder user 1 reads
/// "(auto)", anyone else is mentioned.
pub open spec fn requester_text(user_id: UserId) -> Seq<char> {
    if user_id.0 == 1 {
        "(auto)"@
    } else {
        user_mention(user_id.0)
    }
}

/// Credits a requester, with special handling for autoplay.
pub fn requesting_user_to_string(user_id: UserId) -> (s: String)
    ensures
        s@ == requester_text(user_id),
{
    if user_id.get() == 1 {
        String::from_str("(auto)")
    } else {
        let mut s = String::new();
        push_user_mention(&mut s, user_id.get());
        proof {
            assert(s@ =~= user_mention(user_id.0));
        }
        s
    }
}

/// `c` with ASCII upper case letters turned to lower case.
pub open spec fn ascii_lower(c: char) -> char {
    if 'A' <= c <= 'Z' {
        ((c as u32) + 32) as char
    } else {
        c
    }
}

fn ascii_lower_char(c: char) -> (r: char)
    ensures
        r == ascii_lower(c),
{
    if 'A' <= c && c <= 'Z' {
        let n: u32 = (c as u32) + 32;
        let b: u8 = n as u8;
        proof {
            assert(n < 256);
        }
        b as char
    } else {
        c
    }
}

/// How a button is drawn.
#[derive(Debug, Clone, Copy, PartialEq, Eq, Structural)]
pub enum ButtonStyle {
    Primary,
    Secondary,
    Success,
    Danger,
}

/// A button of the queue's page navigation.
#[derive(Clone, Debug)]
pub struct NavButton {
    /// What the button reports when pressed: its label in lower case.
    pub custom_id: String,
    /// What the button shows.
    pub label: String,
    /// Whether it can be pressed.
    pub disabled: bool,
    /// How it is drawn.
    pub style: ButtonStyle,
}

/// Builds a single navigation button for the queue.
pub fn create_single_nav_btn(label: &str, is_disabled: bool) -> (b: NavButton)
    ensures
        b.custom_id@ == label@.map_values(|c: char| ascii_lower(c)),
        b.label@ == label@,
        b.disabled == is_disabled,
        b.style == ButtonStyle::Primary,
{
    let chars = chars_of(label);
    let mut lower: Vec<char> = Vec::new();
    let mut i: usize = 0;
    while i < chars.len()
        invariant
            i <= chars@.len(),
            lower@ == chars@.take(i as int).map_values(|c: char| ascii_lower(c)),
        decreases chars@.len() - i,
    {
        lower.push(ascii_lower_char(chars[i]));
        assert(lower@ =~= chars@.take(i + 1).map_values(|c: char| ascii_lower(c)));
        i = i + 1;
    }
    assert(chars@.take(chars@.len() as int) =~= chars@);
    NavButton {
        custom_id: string_of(&lower),
        label: String::from_str(label),
        disabled: is_disabled,
        style: ButtonStyle::Primary,
    }
}

/// The label and pressability of each of the four page buttons on `page` of
/// `num_pages`: back to the first, back one, on one, on to the last.
pub open spec fn nav_plan(page: nat, num_pages: nat) -> Seq<(Seq<char>, bool)> {
    let cant_left = page < 1;
    let cant_right = page >= num_pages - 1;
    seq![("<<"@, cant_left), ("<"@, cant_left), (">"@, cant_right), (">>"@, cant_right)]
}

/// Whether one row of buttons carries the labels and disabled flags of
/// `plan`, each button drawn as a primary one.
pub open spec fn row_matches(row: Seq<NavButton>, plan: Seq<(Seq<char>, bool)>) -> bool {
    &&& row.len() == plan.len()
    &&& forall|i: int|
        0 <= i < row.len() ==> {
            &&& (#[trigger] row[i]).label@ == plan[i].0
            &&& row[i].custom_id@ == plan[i].0
            &&& row[i].disabled == plan[i].1
            &&& row[i].style == ButtonStyle::Primary
        }
}

/// Builds the four navigation buttons for the queue, as one row.
pub fn create_nav_btns(page: usize, num_pages: usize) -> (rows: Vec<Vec<NavButton>>)
    requires
        num_pages >= 1,
    ensures
        rows@.len() == 1,
        row_matches(rows@[0]@, nav_plan(page as nat, num_pages as nat)),
{
    let cant_left = page < 1;
    let cant_right = page >= num_pages - 1;
    proof {
        reveal_strlit("<<");
        reveal_strlit("<");
        reveal_strlit(">");
        reveal_strlit(">>");
    }
    let b0 = create_single_nav_btn("<<", cant_left);
    let b1 = create_single_nav_btn("<", cant_left);
    let b2 = create_single_nav_btn(">", cant_right);
    let b3 = create_single_nav_btn(">>", cant_right);
    proof {
        assert(b0.custom_id@ =~= "<<"@);
        assert(b1.custom_id@ =~= "<"@);
        assert(b2.custom_id@ =~= ">"@);
        assert(b3.custom_id@ =~= ">>"@);
    }
    let row = vec![b0, b1, b2, b3];
    let rows = vec![row];
    proof {
        let r = rows@[0]@;
        let plan = nav_plan(page as nat, num_pages as nat);
        assert forall|i: int| 0 <= i < r.len() implies {
            &&& (#[trigger] r[i]).label@ == plan[i].0
            &&& r[i].custom_id@ == plan[i].0
            &&& r[i].disabled == plan[i].1
            &&& r[i].style == ButtonStyle::Primary
        } by {
            if i == 0 {
            } else if i == 1 {
            } else if i == 2 {
            } else {
            }
        }
    }
    rows
}

/// Builds a single navigation button for the queue (the older name).
pub fn build_single_nav_btn(label: &str, is_disabled: bool) -> (b: NavButton)
    ensures
        b.custom_id@ == label@.map_values(|c: char| ascii_lower(c)),
        b.label@ == label@,
        b.disabled == is_disabled,
        b.style == ButtonStyle::Primary,
{
    create_single_nav_btn(label, is_disabled)
}

/// Builds the four navigation buttons for the queue (the older name).
pub fn build_nav_btns(page: usize, num_pages: usize) -> (rows: Vec<Vec<NavButton>>)
    requires
        num_pages >= 1,
    ensures
        rows@.len() == 1,
        row_matches(rows@[0]@, nav_plan(page as nat, num_pages as nat)),
{
    create_nav_btns(page, num_pages)
}

/// The title, description and avatar of a log entry for an edited message
/// whose content is not known: an empty id, "Message Updated", the message id
/// and no avatar.
pub fn default_msg_string(msg_id: MessageId) -> (r: (String, String, String, String))
    ensures
        r.0@ == Seq::<char>::empty(),
        r.1@ == "Message Updated"@,
        r.2@ == decimal(msg_id.0 as nat),
        r.3@ == Seq::<char>::empty(),
{
    let title = String::from_str("Message Updated");
    let description = crate::text::decimal_string(msg_id.get());
    let avatar_url = String::new();
    let id = String::new();
    (id, title, description, avatar_url)
}

/// Whether a query may be played in a guild. No domain is banned: every query
/// is passed through as it came.
pub fn check_banned_domains<S, T>(_guild_settings: &S, query_type: Option<T>) -> (r: Result<
    Option<T>,
    CrackedError,
>)
    ensures
        r == Ok::<Option<T>, CrackedError>(query_type),
{
    Ok(query_type)
}


/// How many bytes UTF-8 takes to encode `c`.
pub open spec fn utf8_width(c: char) -> nat {
    let n = c as u32;
    if n < 0x80 {
        1
    } else if n < 0x800 {
        2
    } else if n < 0x10000 {
        3
    } else {
        4
    }
}

/// How many bytes UTF-8 takes to encode `s`.
pub open spec fn utf8_len(s: Seq<char>) -> nat
    decreases s.len(),
{
    if s.len() == 0 {
        0
    } else {
        utf8_width(s[0]) + utf8_len(s.drop_first())
    }
}

/// How many leading characters of `s` fit in `budget` bytes of UTF-8.
pub open spec fn fitting_chars(s: Seq<char>, budget: nat) -> nat
    decreases s.len(),
{
    if s.len() == 0 || utf8_width(s[0]) > budget {
        0
    } else {
        1 + fitting_chars(s.drop_first(), (budget - utf8_width(s[0])) as nat)
    }
}

/// The most bytes an embed author line holds.
pub const EMBED_AUTHOR_MAX_BYTES: usize = 255;

fn utf8_width_of(c: char) -> (w: usize)
    ensures
        w == utf8_width(c),
{
    let n = c as u32;
    if n < 0x80 {
        1
    } else if n < 0x800 {
        2
    } else if n < 0x10000 {
        3
    } else {
        4
    }
}

/// The prefix that `fitting_chars` keeps is the longest one whose encoding
/// fits the budget.
pub proof fn lemma_fitting_chars(s: Seq<char>, budget: nat)
    ensures
        fitting_chars(s, budget) <= s.len(),
        utf8_len(s.take(fitting_chars(s, budget) as int)) <= budget,
        fitting_chars(s, budget) < s.len() ==> utf8_len(s.take(fitting_chars(s, budget) as int))
            + utf8_width(s[fitting_chars(s, budget) as int]) > budget,
    decreases s.len(),
{
    let k = fitting_chars(s, budget);
    if s.len() == 0 || utf8_width(s[0]) > budget {
        assert(s.take(0).len() == 0);
    } else {
        let w = utf8_width(s[0]);
        let rest = s.drop_first();
        let b2 = (budget - w) as nat;
        lemma_fitting_chars(rest, b2);
        let k2 = fitting_chars(rest, b2);
        assert(k == k2 + 1);
        let t = s.take(k as int);
        assert(t[0] == s[0]);
        assert(t.drop_first() =~= rest.take(k2 as int));
        assert(utf8_len(t) == w + utf8_len(rest.take(k2 as int)));
        if k < s.len() {
            assert(s[k as int] == rest[k2 as int]);
        }
    }
}

/// An embed author line for a lyrics credit: the credit cut to its longest
/// prefix that fits in 255 bytes of UTF-8, never inside a character. Credits
/// naming dozens of artists run far past that.
pub fn lyrics_author(artists: &str) -> (r: String)
    ensures
        r@ == artists@.take(fitting_chars(artists@, 255) as int),
        utf8_len(r@) <= 255,
        r@.len() < artists@.len() ==> utf8_len(r@) + utf8_width(artists@[r@.len() as int]) > 255,
{
    let chars = chars_of(artists);
    let mut budget: usize = EMBED_AUTHOR_MAX_BYTES;
    let mut i: usize = 0;
    assert(chars@.skip(0) =~= chars@);
    while i < chars.len() && utf8_width_of(chars[i]) <= budget
        invariant
            i <= chars@.len(),
            budget <= 255,
            fitting_chars(chars@, 255) == i + fitting_chars(chars@.skip(i as int), budget as nat),
        decreases chars@.len() - i,
    {
        let w = utf8_width_of(chars[i]);
        let ghost rest = chars@.skip(i as int);
        assert(rest.drop_first() =~= chars@.skip(i + 1));
        assert(rest[0] == chars@[i as int]);
        budget = budget - w;
        i = i + 1;
    }
    let mut out: Vec<char> = Vec::new();
    let mut j: usize = 0;
    while j < i
        invariant
            j <= i <= chars@.len(),
            out@ == chars@.take(j as int),
        decreases i - j,
    {
        out.push(chars[j]);
        assert(out@ =~= chars@.take(j + 1));
        j = j + 1;
    }
    proof {
        if i < chars@.len() {
            assert(chars@.skip(i as int)[0] == chars@[i as int]);
        }
        lemma_fitting_chars(artists@, 255);
    }
    string_of(&out)
}


/// How many tracks a page of "Up next" lists.
pub const EMBED_PAGE_SIZE: usize = 6;

/// A queued track as the queue embed lists it.
#[derive(Debug, Clone)]
pub struct QueueEntry {
    pub title: Option<String>,
    pub source_url: Option<String>,
    /// Its duration, as the bot prints timestamps.
    pub duration: String,
    /// Who asked for it, if anyone is on record.
    pub requester: Option<UserId>,
}

/// The text, or nothing when there is none.
pub open spec fn text_or_empty(o: Option<String>) -> Seq<char> {
    match o {
        Some(t) => t@,
        None => Seq::empty(),
    }
}

/// The text, or `fallback` when there is none.
pub open spec fn text_or(o: Option<String>, fallback: Seq<char>) -> Seq<char> {
    match o {
        Some(t) => t@,
        None => fallback,
    }
}

/// Who a queued track is credited to: its requester, or autoplay's
/// placeholder user 1 when none is on record.
pub open spec fn credited(requester: Option<UserId>) -> UserId {
    match requester {
        Some(u) => u,
        None => UserId(1),
    }
}

/// The line of the queued track at position `n`:
/// `n. [title](url) • duration • requester`.
pub open spec fn queue_line(n: nat, e: QueueEntry) -> Seq<char> {
    decimal(n) + ". ["@ + text_or_empty(e.title) + "]("@ + text_or_empty(e.source_url) + ") • "@
        + e.duration@ + " • "@ + requester_text(credited(e.requester)) + "\n"@
}

/// The lines of the queued tracks at positions `lo` up to `hi`, excluded.
pub open spec fn queue_lines(es: Seq<QueueEntry>, lo: int, hi: int) -> Seq<char>
    decreases hi - lo,
{
    if hi <= lo {
        Seq::empty()
    } else {
        queue_lines(es, lo, hi - 1) + queue_line((hi - 1) as nat, es[hi - 1])
    }
}

/// The first position a page lists: position 0 is the track playing, shown
/// above "Up next", so page `p` starts after the `p` pages before it.
pub open spec fn page_start(page: nat) -> int {
    EMBED_PAGE_SIZE * page + 1
}

/// The position after the last one a page lists.
pub open spec fn page_end(len: nat, page: nat) -> int {
    if len <= page_start(page) + EMBED_PAGE_SIZE {
        len as int
    } else {
        page_start(page) + EMBED_PAGE_SIZE
    }
}

/// A page of the queue's "Up next": the lines of the page's tracks, or a
/// note that nothing is up next when the page lists none.
pub open spec fn queue_page_text(es: Seq<QueueEntry>, page: nat) -> Seq<char> {
    let body = queue_lines(es, page_start(page), page_end(es.len(), page));
    if body.len() == 0 {
        QUEUE_NO_SONGS@
    } else {
        body
    }
}

proof fn lemma_queue_lines_empty_iff(es: Seq<QueueEntry>, lo: int, hi: int)
    ensures
        queue_lines(es, lo, hi).len() == 0 <==> hi <= lo,
{
    if hi > lo {
        assert(queue_line((hi - 1) as nat, es[hi - 1]).len() > 0);
    }
}

/// Appends the line of the queued track at position `n`.
fn push_queue_line(s: &mut String, n: usize, e: &QueueEntry)
    ensures
        final(s)@ == old(s)@ + queue_line(n as nat, *e),
{
    push_decimal(s, n as u64);
    s.append(". [");
    match &e.title {
        Some(t) => s.append(t.as_str()),
        None => {},
    }
    s.append("](");
    match &e.source_url {
        Some(u) => s.append(u.as_str()),
        None => {},
    }
    s.append(") • ");
    s.append(e.duration.as_str());
    s.append(" • ");
    let who = match e.requester {
        Some(u) => u,
        None => UserId::new(1),
    };
    let credit = requesting_user_to_string(who);
    s.append(credit.as_str());
    s.append("\n");
    proof {
        assert(s@ =~= old(s)@ + queue_line(n as nat, *e));
    }
}

/// A page of the queue's "Up next": the tracks after the one playing,
/// `EMBED_PAGE_SIZE` to a page.
pub fn create_queue_page(tracks: &Vec<QueueEntry>, page: usize) -> (s: String)
    requires
        EMBED_PAGE_SIZE * page + 1 <= usize::MAX,
    ensures
        s@ == queue_page_text(tracks@, page as nat),
{
    let start = EMBED_PAGE_SIZE * page + 1;
    let end = if start < tracks.len() && tracks.len() - start > EMBED_PAGE_SIZE {
        start + EMBED_PAGE_SIZE
    } else {
        tracks.len()
    };
    let mut s = String::new();
    let mut k = start;
    while k < end
        invariant
            start == page_start(page as nat),
            end == page_end(tracks@.len(), page as nat),
            end <= tracks@.len(),
            start <= k,
            k == start || k <= end,
            s@ == queue_lines(tracks@, start as int, k as int),
        decreases end - k,
    {
        push_queue_line(&mut s, k, &tracks[k]);
        k = k + 1;
    }
    proof {
        if start < end {
            assert(k == end);
        } else {
            assert(queue_lines(tracks@, start as int, k as int) =~= Seq::<char>::empty());
        }
        lemma_queue_lines_empty_iff(tracks@, start as int, end as int);
    }
    if k > start {
        s
    } else {
        String::from_str(QUEUE_NO_SONGS)
    }
}

/// How many pages "Up next" takes: the tracks after the one playing,
/// `EMBED_PAGE_SIZE` to a page, the last page possibly short, and always at
/// least one page, empty when nothing is up next.
pub open spec fn num_pages(len: nat) -> nat {
    if len <= 1 {
        1
    } else {
        ((len - 1 + EMBED_PAGE_SIZE - 1) / EMBED_PAGE_SIZE as int) as nat
    }
}

/// Counts the pages of "Up next" for a queue of `len` tracks.
pub fn calculate_num_pages(len: usize) -> (n: usize)
    ensures
        n == num_pages(len as nat),
{
    if len <= 1 {
        1
    } else {
        (len - 1) / EMBED_PAGE_SIZE + if (len - 1) % EMBED_PAGE_SIZE == 0 {
            0
        } else {
            1
        }
    }
}

/// The queue embed, as plain values: its thumbnail, the "Now playing" and
/// "Up next" fields under their names, and the page footer.
#[derive(Debug, Clone)]
pub struct QueueEmbed {
    pub thumbnail: String,
    pub now_playing_name: String,
    pub now_playing: String,
    pub up_next_name: String,
    pub up_next: String,
    pub footer: String,
}

/// The "Now playing" field: `[title](url) • duration` of the first track,
/// with placeholders for a missing title or URL, or a note that nothing
/// plays.
pub open spec fn now_playing_text(es: Seq<QueueEntry>) -> Seq<char> {
    if es.len() == 0 {
        QUEUE_NOTHING_IS_PLAYING@
    } else {
        "["@ + text_or(es[0].title, QUEUE_NO_TITLE@) + "]("@ + text_or(es[0].source_url, QUEUE_NO_SRC@)
            + ") • "@ + es[0].duration@
    }
}

/// The thumbnail: the first track's thumbnail URL as the URL parser
/// serializes it, or nothing when there is no track or it does not parse.
pub open spec fn queue_thumbnail(first_thumbnail: Option<Seq<char>>) -> Seq<char> {
    match first_thumbnail {
        Some(t) => match url_serialization_of(t) {
            Some(u) => u,
            None => Seq::empty(),
        },
        None => Seq::empty(),
    }
}

/// The footer: `Page n of m`, pages counted from 1.
pub open spec fn page_footer(page: nat, num_pages: nat) -> Seq<char> {
    QUEUE_PAGE@ + " "@ + decimal(page + 1) + " "@ + QUEUE_PAGE_OF@ + " "@ + decimal(num_pages)
}

/// Builds the queue embed for `page`. `thumbnail` is the first track's
/// thumbnail URL, read only when there is a first track; a track without
/// one counts as an empty URL.
pub fn create_queue_embed(tracks: &Vec<QueueEntry>, thumbnail: Option<String>, page: usize) -> (e:
    QueueEmbed)
    requires
        EMBED_PAGE_SIZE * page + 1 <= usize::MAX,
    ensures
        e.thumbnail@ == queue_thumbnail(
            if tracks@.len() == 0 {
                None
            } else {
                Some(text_or_empty(thumbnail))
            },
        ),
        e.now_playing_name@ == QUEUE_NOW_PLAYING@,
        e.now_playing@ == now_playing_text(tracks@),
        e.up_next_name@ == QUEUE_UP_NEXT@,
        e.up_next@ == queue_page_text(tracks@, page as nat),
        e.footer@ == page_footer(page as nat, num_pages(tracks@.len())),
{
    let (now_playing, thumb) = if tracks.len() > 0 {
        let first = &tracks[0];
        let url = match thumbnail {
            Some(t) => t,
            None => String::new(),
        };
        let thumb = match url_serialized(url.as_str()) {
            Some(u) => u,
            None => String::new(),
        };
        let mut d = String::from_str("[");
        match &first.title {
            Some(t) => d.append(t.as_str()),
            None => d.append(QUEUE_NO_TITLE),
        }
        d.append("](");
        match &first.source_url {
            Some(u) => d.append(u.as_str()),
            None => d.append(QUEUE_NO_SRC),
        }
        d.append(") • ");
        d.append(first.duration.as_str());
        proof {
            assert(d@ =~= now_playing_text(tracks@));
        }
        (d, thumb)
    } else {
        (String::from_str(QUEUE_NOTHING_IS_PLAYING), String::new())
    };
    let mut footer = String::from_str(QUEUE_PAGE);
    footer.append(" ");
    push_decimal(&mut footer, (page + 1) as u64);
    footer.append(" ");
    footer.append(QUEUE_PAGE_OF);
    footer.append(" ");
    let pages = calculate_num_pages(tracks.len());
    push_decimal(&mut footer, pages as u64);
    proof {
        assert(footer@ =~= page_footer(page as nat, num_pages(tracks@.len())));
    }
    QueueEmbed {
        thumbnail: thumb,
        now_playing_name: String::from_str(QUEUE_NOW_PLAYING),
        now_playing,
        up_next_name: String::from_str(QUEUE_UP_NEXT),
        up_next: create_queue_page(tracks, page),
        footer,
    }
}


/// The now-playing embed, as plain values.
#[derive(Debug, Clone)]
pub struct NowPlayingEmbed {
    pub author: String,
    pub title: String,
    pub url: String,
    pub progress_name: String,
    pub progress: String,
    pub requested_by_name: String,
    pub requested_by: String,
    pub thumbnail: String,
    pub description: String,
    pub footer_text: String,
    pub footer_icon_url: String,
}

/// What a track's source footer shows: its text, its icon's URL, and the
/// line that goes in the embed's description.
#[derive(Debug, Clone)]
pub struct FooterInfo {
    pub text: String,
    pub icon_url: String,
    pub vanity: String,
}

/// The requester field: the requester's credit, or "N/A" for a track
/// nobody asked for (an autoplay pick).
pub open spec fn requested_by_text(requester: Option<UserId>) -> Seq<char> {
    match requester {
        Some(u) => ">>> "@ + requester_text(u),
        None => ">>> N/A"@,
    }
}

/// The thumbnail of a now-playing embed: the URL as the URL parser
/// serializes it, or nothing when it does not parse.
pub open spec fn serialized_or_empty(url: Seq<char>) -> Seq<char> {
    match url_serialization_of(url) {
        Some(u) => u,
        None => Seq::empty(),
    }
}

/// Builds the now-playing embed of a track. `position` and `duration` come
/// as the bot prints timestamps; `footer` is the footer of the track's
/// source.
pub fn build_now_playing_embed_metadata(
    requesting_user: Option<UserId>,
    position: &str,
    track: &QueueEntry,
    thumbnail: Option<String>,
    footer: FooterInfo,
) -> (e: NowPlayingEmbed)
    ensures
        e.author@ == QUEUE_NOW_PLAYING@,
        e.title@ == text_or_empty(track.title),
        e.url@ == text_or_empty(track.source_url),
        e.progress_name@ == PROGRESS@,
        e.progress@ == ">>> "@ + position@ + " / "@ + track.duration@,
        e.requested_by_name@ == REQUESTED_BY@,
        e.requested_by@ == requested_by_text(requesting_user),
        e.thumbnail@ == serialized_or_empty(text_or_empty(thumbnail)),
        e.description@ == footer.vanity@,
        e.footer_text@ == footer.text@,
        e.footer_icon_url@ == footer.icon_url@,
{
    let mut progress = String::from_str(">>> ");
    progress.append(position);
    progress.append(" / ");
    progress.append(track.duration.as_str());
    let requested_by = match requesting_user {
        Some(u) => {
            let mut r = String::from_str(">>> ");
            let credit = requesting_user_to_string(u);
            r.append(credit.as_str());
            r
        },
        None => String::from_str(">>> N/A"),
    };
    let thumb_url = match thumbnail {
        Some(t) => t,
        None => String::new(),
    };
    let thumb = match url_serialized(thumb_url.as_str()) {
        Some(u) => u,
        None => String::new(),
    };
    let title = match &track.title {
        Some(t) => t.clone(),
        None => String::new(),
    };
    let url = match &track.source_url {
        Some(u) => u.clone(),
        None => String::new(),
    };
    proof {
        assert(progress@ =~= ">>> "@ + position@ + " / "@ + track.duration@);
        assert(requested_by@ =~= requested_by_text(requesting_user));
    }
    NowPlayingEmbed {
        author: String::from_str(QUEUE_NOW_PLAYING),
        title,
        url,
        progress_name: String::from_str(PROGRESS),
        progress,
        requested_by_name: String::from_str(REQUESTED_BY),
        requested_by,
        thumbnail: thumb,
        description: footer.vanity,
        footer_text: footer.text,
        footer_icon_url: footer.icon_url,
    }
}


/// The page a queue message shows after the queue changed: the page it
/// showed, or the last page when the queue has shrunk below it.
pub open spec fn kept_page(page: nat, num_pages: nat) -> nat {
    if page <= num_pages - 1 {
        page
    } else {
        (num_pages - 1) as nat
    }
}

/// What a queue message shows after the queue changed: the page it keeps,
/// the queue embed for that page, and the page buttons.
pub fn refresh_queue_message(page: usize, tracks: &Vec<QueueEntry>, thumbnail: Option<String>) -> (r: (
    usize,
    QueueEmbed,
    Vec<Vec<NavButton>>,
))
    ensures
        r.0 == kept_page(page as nat, num_pages(tracks@.len())),
        r.1.up_next@ == queue_page_text(tracks@, r.0 as nat),
        r.1.now_playing@ == now_playing_text(tracks@),
        r.1.footer@ == page_footer(r.0 as nat, num_pages(tracks@.len())),
        r.1.thumbnail@ == queue_thumbnail(
            if tracks@.len() == 0 {
                None
            } else {
                Some(text_or_empty(thumbnail))
            },
        ),
        r.2@.len() == 1,
        row_matches(r.2@[0]@, nav_plan(r.0 as nat, num_pages(tracks@.len()))),
{
    let pages = calculate_num_pages(tracks.len());
    let kept = if page <= pages - 1 {
        page
    } else {
        pages - 1
    };
    proof {
        let len = tracks@.len() as int;
        if len >= 2 {
            let m: int = len - 1;
            assert(6 * ((m + 6 - 1) / 6 - 1) <= m - 1) by (nonlinear_arith)
                requires
                    m >= 1,
            ;
        }
    }
    let embed = create_queue_embed(tracks, thumbnail, kept);
    let buttons = create_nav_btns(kept, pages);
    (kept, embed, buttons)
}


proof fn lemma_queue_lines_split(es: Seq<QueueEntry>, a: int, b: int, c: int)
    requires
        a <= b <= c,
    ensures
        queue_lines(es, a, b) + queue_lines(es, b, c) == queue_lines(es, a, c),
    decreases c - b,
{
    if c == b {
        assert(queue_lines(es, a, b) + queue_lines(es, b, c) =~= queue_lines(es, a, c));
    } else {
        lemma_queue_lines_split(es, a, b, c - 1);
        assert(queue_lines(es, a, b) + queue_lines(es, b, c) =~= queue_lines(es, a, c));
    }
}

/// Pages carry on from each other: a page followed by the next lists the
/// same lines, in the same order, as the two pages' positions together.
pub proof fn the_next_page_carries_on_from_this_one(es: Seq<QueueEntry>, page: nat)
    ensures
        queue_lines(es, page_start(page), page_end(es.len(), page)) + queue_lines(
            es,
            page_start(page + 1),
            page_end(es.len(), page + 1),
        ) == queue_lines(es, page_start(page), page_end(es.len(), page + 1)),
{
    let a = page_start(page);
    let b = page_end(es.len(), page);
    let b2 = page_start(page + 1);
    let c = page_end(es.len(), page + 1);
    assert(b2 == a + EMBED_PAGE_SIZE);
    if b == b2 {
        lemma_queue_lines_split(es, a, b, c);
    } else {
        assert(b == es.len());
        assert(queue_lines(es, b2, c) =~= Seq::<char>::empty());
        if b < a {
            assert(queue_lines(es, a, b) =~= Seq::<char>::empty());
            assert(queue_lines(es, a, c) =~= Seq::<char>::empty());
        }
        assert(queue_lines(es, a, b) + queue_lines(es, b2, c) =~= queue_lines(es, a, c));
    }
}


/// A search hit as the search reply lists it.
#[derive(Debug, Clone)]
pub struct SearchHit {
    pub title: Option<String>,
    pub source_url: Option<String>,
    /// Its duration, as the bot prints durations.
    pub duration: String,
}

/// An embed field: its name, its value, and whether it sits inline.
#[derive(Debug, Clone)]
pub struct EmbedField {
    pub name: String,
    pub value: String,
    pub inline: bool,
}

/// The field of one search hit: `[title]` over `(link) - duration`, inline.
pub open spec fn hit_field(h: SearchHit) -> (Seq<char>, Seq<char>, bool) {
    ("["@ + text_or_empty(h.title) + "]"@, "("@ + text_or_empty(h.source_url) + ") - "@ + h.duration@, true)
}

pub open spec fn field_view(f: EmbedField) -> (Seq<char>, Seq<char>, bool) {
    (f.name@, f.value@, f.inline)
}

/// One field per search hit, in order.
pub fn build_embed_fields(hits: &Vec<SearchHit>) -> (r: Vec<EmbedField>)
    ensures
        r@.len() == hits@.len(),
        forall|i: int| 0 <= i < hits@.len() ==> field_view(#[trigger] r@[i]) == hit_field(hits@[i]),
{
    let mut out: Vec<EmbedField> = Vec::new();
    let mut i: usize = 0;
    while i < hits.len()
        invariant
            i <= hits@.len(),
            out@.len() == i,
            forall|j: int| 0 <= j < i ==> field_view(#[trigger] out@[j]) == hit_field(hits@[j]),
        decreases hits@.len() - i,
    {
        let h = &hits[i];
        let mut name = String::from_str("[");
        match &h.title {
            Some(t) => name.append(t.as_str()),
            None => {},
        }
        name.append("]");
        let mut value = String::from_str("(");
        match &h.source_url {
            Some(u) => value.append(u.as_str()),
            None => {},
        }
        value.append(") - ");
        value.append(h.duration.as_str());
        let f = EmbedField { name, value, inline: true };
        proof {
            assert(field_view(f) =~= hit_field(hits@[i as int]));
        }
        out.push(f);
        i = i + 1;
    }
    out
}

/// The search reply: the asker mentioned as its author, the query in its
/// title, one field per hit, and who asked where and when in its footer.
#[derive(Debug, Clone)]
pub struct SearchResponse {
    pub author: String,
    pub title: String,
    pub footer: String,
    pub fields: Vec<EmbedField>,
}

/// Builds the search reply for `query`, asked by `user` in `guild` at the
/// time `now` as the bot prints times.
pub fn create_search_response(guild: u64, user: UserId, query: &str, now: &str, hits: &Vec<SearchHit>) -> (r:
    SearchResponse)
    ensures
        r.author@ == user_mention(user.0),
        r.title@ == "Search results for: "@ + query@,
        r.footer@ == decimal(user.0 as nat) + " * "@ + decimal(guild as nat) + " * "@ + now@,
        r.fields@.len() == hits@.len(),
        forall|i: int| 0 <= i < hits@.len() ==> field_view(#[trigger] r.fields@[i]) == hit_field(hits@[i]),
{
    let mut author = String::new();
    push_user_mention(&mut author, user.0);
    let mut title = String::from_str("Search results for: ");
    title.append(query);
    let mut footer = String::new();
    push_decimal(&mut footer, user.0);
    footer.append(" * ");
    push_decimal(&mut footer, guild);
    footer.append(" * ");
    footer.append(now);
    proof {
        assert(author@ =~= user_mention(user.0));
        assert(footer@ =~= decimal(user.0 as nat) + " * "@ + decimal(guild as nat) + " * "@ + now@);
    }
    SearchResponse { author, title, footer, fields: build_embed_fields(hits) }
}


/// The lyrics a lookup found for a song: its title, its credit and its
/// words.
#[derive(Debug, Clone)]
pub struct FoundLyrics {
    pub track: String,
    pub artists: String,
    pub lyric: String,
}

/// What a lyrics embed shows: the credit as its author line, cut to fit; the
/// song as its title; the words as its pages. A failed lookup shows an
/// unknown song with a note that no lyrics were found.
pub open spec fn lyrics_parts_of(found: Option<FoundLyrics>) -> (Seq<char>, Seq<char>, Seq<char>) {
    match found {
        Some(f) => (f.artists@.take(fitting_chars(f.artists@, 255) as int), f.track@, f.lyric@),
        None => (UNKNOWN@.take(fitting_chars(UNKNOWN@, 255) as int), UNKNOWN@, "No lyrics found!"@),
    }
}

/// The author line, title and text of a lyrics embed.
pub fn lyrics_embed_parts(found: Option<FoundLyrics>) -> (r: (String, String, String))
    ensures
        (r.0@, r.1@, r.2@) == lyrics_parts_of(found),
{
    match found {
        Some(f) => (lyrics_author(f.artists.as_str()), f.track, f.lyric),
        None => (lyrics_author(UNKNOWN), String::from_str(UNKNOWN), String::from_str("No lyrics found!")),
    }
}

} // verus!
