use crack_core::errors::CrackedError;
use crack_core::ids::{MessageId, UserId};
use crack_core::interface::{
    build_nav_btns, calculate_num_pages, check_banned_domains, create_nav_btns, create_queue_embed,
    create_queue_page, create_single_nav_btn, default_msg_string, lyrics_author,
    requesting_user_to_string, build_now_playing_embed_metadata, refresh_queue_message, FooterInfo,
    QueueEntry, ButtonStyle, create_search_response, SearchHit, lyrics_embed_parts, FoundLyrics,
};
use crack_core::messages::QUEUE_NO_SONGS;

#[test]
fn interface_test_requesting_user_to_string() {
    assert_eq!(requesting_user_to_string(UserId::new(1)), "(auto)");
    assert_eq!(requesting_user_to_string(UserId::new(2)), "<@2>");
}

#[test]
fn a_lyrics_credit_too_long_for_an_embed_author_is_cut_short_not_a_panic() {
    let credit = format!(
        "Lyrical Lemonade (Ft. {})",
        "Aesthetic (Rapper), ".repeat(20)
    );
    assert!(credit.len() > 255, "the fixture must be over the limit");
    assert_eq!(lyrics_author(&credit).as_str(), &credit[..255]);

    // Two bytes a char: byte 255 would split one, so the cut lands at 254.
    let accents = "é".repeat(200);
    assert_eq!(lyrics_author(&accents).as_str(), "é".repeat(127));

    assert_eq!(lyrics_author("The Offspring").as_str(), "The Offspring");
}

#[test]
fn a_credit_of_exactly_the_limit_is_kept_whole() {
    let credit = "a".repeat(255);
    assert_eq!(lyrics_author(&credit), credit);
    assert_eq!(lyrics_author(""), "");
    // Four-byte characters: 63 of them take 252 bytes, a 64th would not fit.
    let emoji = "🎵".repeat(70);
    assert_eq!(lyrics_author(&emoji), "🎵".repeat(63));
}

#[test]
fn a_nav_button_reports_its_label_in_lower_case() {
    let b = create_single_nav_btn("Next", true);
    assert_eq!(b.custom_id, "next");
    assert_eq!(b.label, "Next");
    assert!(b.disabled);
    assert_eq!(b.style, ButtonStyle::Primary);
}

#[test]
fn the_first_page_cannot_go_back_and_the_last_cannot_go_on() {
    let rows = create_nav_btns(0, 3);
    assert_eq!(rows.len(), 1);
    let labels: Vec<&str> = rows[0].iter().map(|b| b.label.as_str()).collect();
    assert_eq!(labels, vec!["<<", "<", ">", ">>"]);
    let disabled: Vec<bool> = rows[0].iter().map(|b| b.disabled).collect();
    assert_eq!(disabled, vec![true, true, false, false]);
    assert!(rows[0].iter().all(|b| b.style == ButtonStyle::Primary));

    let rows = build_nav_btns(2, 3);
    let disabled: Vec<bool> = rows[0].iter().map(|b| b.disabled).collect();
    assert_eq!(disabled, vec![false, false, true, true]);

    let rows = create_nav_btns(0, 1);
    let disabled: Vec<bool> = rows[0].iter().map(|b| b.disabled).collect();
    assert_eq!(disabled, vec![true, true, true, true]);
}

#[test]
fn an_edited_message_is_logged_by_its_id() {
    let (id, title, description, avatar) = default_msg_string(MessageId::new(1234));
    assert_eq!(id, "");
    assert_eq!(title, "Message Updated");
    assert_eq!(description, "1234");
    assert_eq!(avatar, "");
}

#[test]
fn no_domain_is_banned() {
    let settings = ();
    let r: Result<Option<&str>, CrackedError> = check_banned_domains(&settings, Some("x"));
    assert!(matches!(r, Ok(Some("x"))));
    let r: Result<Option<&str>, CrackedError> = check_banned_domains(&settings, None);
    assert!(matches!(r, Ok(None)));
}

fn entry(title: &str, requester: Option<u64>) -> QueueEntry {
    QueueEntry {
        title: Some(title.to_string()),
        source_url: Some(format!("https://example.com/{}", title.replace(' ', "_"))),
        duration: "3:00".to_string(),
        requester: requester.map(UserId::new),
    }
}

#[test]
fn up_next_lists_only_the_tracks_after_the_one_playing() {
    let tracks = vec![entry("I Had It All", None), entry("The Old Dun Cow", Some(9))];

    let page = create_queue_page(&tracks, 0);

    assert!(page.starts_with("1. [The Old Dun Cow]"), "{page}");
    assert!(!page.contains("I Had It All"), "{page}");
}

#[test]
fn the_second_up_next_page_carries_on_from_the_first() {
    let tracks: Vec<QueueEntry> = (0..8).map(|i| entry(&format!("Track {i}"), None)).collect();

    let page = create_queue_page(&tracks, 1);

    assert!(page.starts_with("7. [Track 7]"), "{page}");
    assert_eq!(calculate_num_pages(tracks.len()), 2);
}

#[test]
fn up_next_with_nothing_after_the_playing_track_says_so() {
    let tracks = vec![entry("I Had It All", None)];

    let page = create_queue_page(&tracks, 0);

    assert_eq!(page, QUEUE_NO_SONGS);
}

#[test]
fn an_autoplayed_track_is_credited_in_one_pair_of_brackets() {
    let tracks = vec![entry("I Had It All", None), entry("I Had It All", None)];

    let page = create_queue_page(&tracks, 0);

    assert!(page.contains("(auto)"), "{page}");
    assert!(!page.contains("((auto))"), "{page}");
}

#[test]
fn a_queue_line_numbers_links_and_credits_its_track() {
    let tracks = vec![entry("a", None), entry("b", Some(42)), entry("c", None)];
    assert_eq!(
        create_queue_page(&tracks, 0),
        "1. [b](https://example.com/b) • 3:00 • <@42>\n2. [c](https://example.com/c) • 3:00 • (auto)\n"
    );
    assert_eq!(calculate_num_pages(0), 1);
    assert_eq!(calculate_num_pages(1), 1);
    assert_eq!(calculate_num_pages(7), 1);
}

#[test]
fn the_queue_embed_shows_the_track_playing_and_the_page() {
    let mut first = entry("a", None);
    first.title = None;
    let tracks = vec![first, entry("b", Some(42))];
    let embed = create_queue_embed(&tracks, Some("HTTPS://IMG.example.com".to_string()), 0);
    assert_eq!(embed.now_playing, "[Unknown title](https://example.com/a) • 3:00");
    assert_eq!(embed.thumbnail, "https://img.example.com/");
    assert_eq!(embed.footer, "Page 1 of 1");
    assert_eq!(embed.up_next, "1. [b](https://example.com/b) • 3:00 • <@42>\n");

    let bad_thumb = create_queue_embed(&tracks, Some("not a url".to_string()), 0);
    assert_eq!(bad_thumb.thumbnail, "");

    let empty = create_queue_embed(&vec![], None, 0);
    assert_eq!(empty.now_playing, "Nothing is playing!");
    assert_eq!(empty.up_next, QUEUE_NO_SONGS);
    assert_eq!(empty.footer, "Page 1 of 1");
}

#[test]
fn the_now_playing_embed_shows_progress_and_requester() {
    let track = entry("b", Some(42));
    let footer = FooterInfo {
        text: "Streaming via YouTube".to_string(),
        icon_url: "https://icon.example.com/yt.png".to_string(),
        vanity: "vanity".to_string(),
    };
    let e = build_now_playing_embed_metadata(
        Some(UserId::new(42)),
        "1:00",
        &track,
        Some("not a url".to_string()),
        footer,
    );
    assert_eq!(e.author, "🔊 Now playing");
    assert_eq!(e.title, "b");
    assert_eq!(e.url, "https://example.com/b");
    assert_eq!(e.progress, ">>> 1:00 / 3:00");
    assert_eq!(e.requested_by, ">>> <@42>");
    assert_eq!(e.thumbnail, "");
    assert_eq!(e.description, "vanity");
    assert_eq!(e.footer_text, "Streaming via YouTube");

    let auto = build_now_playing_embed_metadata(
        None,
        "0:00",
        &track,
        Some("HTTP://Example.com".to_string()),
        FooterInfo { text: String::new(), icon_url: String::new(), vanity: String::new() },
    );
    assert_eq!(auto.requested_by, ">>> N/A");
    assert_eq!(auto.thumbnail, "http://example.com/");
}

#[test]
fn a_queue_message_past_the_last_page_falls_back_to_it() {
    let tracks: Vec<QueueEntry> = (0..8).map(|i| entry(&format!("Track {i}"), None)).collect();
    let (page, embed, rows) = refresh_queue_message(5, &tracks, None);
    assert_eq!(page, 1);
    assert!(embed.up_next.starts_with("7. [Track 7]"));
    assert_eq!(embed.footer, "Page 2 of 2");
    assert_eq!(rows.len(), 1);
    assert!(!rows[0][0].disabled);
    assert!(rows[0][3].disabled);

    let (kept, _, _) = refresh_queue_message(0, &tracks, None);
    assert_eq!(kept, 0);
    let (lone, embed, _) = refresh_queue_message(3, &vec![entry("only", None)], None);
    assert_eq!(lone, 0);
    assert_eq!(embed.up_next, QUEUE_NO_SONGS);

    let (far, embed, _) = refresh_queue_message(usize::MAX, &tracks, None);
    assert_eq!(far, 1);
    assert_eq!(embed.footer, "Page 2 of 2");
}

#[test]
fn a_search_reply_lists_each_hit_as_a_field() {
    let hits = vec![
        SearchHit {
            title: Some("King Creole".to_string()),
            source_url: Some("https://youtu.be/k".to_string()),
            duration: "2:09".to_string(),
        },
        SearchHit { title: None, source_url: None, duration: "0:00".to_string() },
    ];
    let r = create_search_response(9, UserId::new(42), "elvis", "2024-01-01 10:00:00", &hits);
    assert_eq!(r.author, "<@42>");
    assert_eq!(r.title, "Search results for: elvis");
    assert_eq!(r.footer, "42 * 9 * 2024-01-01 10:00:00");
    assert_eq!(r.fields.len(), 2);
    assert_eq!(r.fields[0].name, "[King Creole]");
    assert_eq!(r.fields[0].value, "(https://youtu.be/k) - 2:09");
    assert!(r.fields[0].inline);
    assert_eq!(r.fields[1].name, "[]");
    assert_eq!(r.fields[1].value, "() - 0:00");
}

#[test]
fn a_lyrics_embed_credits_shows_and_pages_the_song() {
    let (author, title, text) = lyrics_embed_parts(Some(FoundLyrics {
        track: "King Creole".to_string(),
        artists: "Elvis Presley".to_string(),
        lyric: "There's a cat...".to_string(),
    }));
    assert_eq!((author.as_str(), title.as_str(), text.as_str()), ("Elvis Presley", "King Creole", "There's a cat..."));
    let (author, title, text) = lyrics_embed_parts(None);
    assert_eq!((author.as_str(), title.as_str(), text.as_str()), ("Unknown", "Unknown", "No lyrics found!"));
}
