use crack_core::ids::{GenericChannelId, GuildId, RoleId, UserId};
use crack_core::message::{CrackedMessage, Mention, MessageColour};
use crack_core::messages::{
    GP_CLOSED_BY_HOST, GP_ENDED_BY, GP_QUEUE_CLEARED, GP_ROUND_SKIPPED, GP_STARTED, GP_SUBMITTED,
    GP_SUBMITTED_REPLACED, GP_WINDOW_CLOSED_SONGS,
};

#[test]
fn test_discriminant() {
    let message = CrackedMessage::AutopauseOff;
    assert_eq!(message.discriminant(), 0);

    let message = CrackedMessage::AutopauseOn;
    assert_eq!(message.discriminant(), 1);

    let message = CrackedMessage::AutoplayOff;
    assert_eq!(message.discriminant(), 2);

    let message = CrackedMessage::AutoplayOn;
    assert_eq!(message.discriminant(), 3);

    let message = CrackedMessage::Clear;
    assert_eq!(message.discriminant(), 11);
}

#[test]
fn test_gp_messages_display() {
    let msg = CrackedMessage::GpSubmitted {
        title: "Never Gonna Give You Up".to_string(),
        replaced: false,
        submitted: 2,
        of: 4,
    };
    let s = msg.to_text();
    assert!(s.starts_with(GP_SUBMITTED), "{s}");
    assert!(s.contains("**Never Gonna Give You Up**"), "{s}");
    assert!(s.contains("2 in 4"), "{s}");
    let msg = CrackedMessage::GpSubmitted {
        title: "x".to_string(),
        replaced: true,
        submitted: 1,
        of: 0,
    };
    let s = msg.to_text();
    assert!(s.starts_with(GP_SUBMITTED_REPLACED), "{s}");
    assert!(s.ends_with("(1 in)"), "{s}");

    let msg = CrackedMessage::GpStarted {
        category: "🥹 Nostalgia".to_string(),
        rounds: 5,
        timer: "3m".to_string(),
        cleared_queue: false,
    };
    let s = msg.to_text();
    assert!(s.starts_with(&format!("{} 5", GP_STARTED)), "{s}");
    assert!(s.contains("🥹 Nostalgia"), "{s}");
    assert!(!s.contains(GP_QUEUE_CLEARED), "{s}");
    let msg = CrackedMessage::GpStarted {
        category: "🎲 Mixed".to_string(),
        rounds: 3,
        timer: "1m".to_string(),
        cleared_queue: true,
    };
    assert!(msg.to_text().ends_with(&format!(" {}", GP_QUEUE_CLEARED)));

    assert_eq!(
        CrackedMessage::GpWindowClosed { count: 3 }.to_text(),
        format!("{} 3 {}", GP_CLOSED_BY_HOST, GP_WINDOW_CLOSED_SONGS)
    );

    assert_eq!(CrackedMessage::GpRoundSkipped.to_text(), GP_ROUND_SKIPPED);
    assert_eq!(
        CrackedMessage::GpEnded {
            by: "alice".to_string()
        }
        .to_text(),
        format!("{} alice", GP_ENDED_BY)
    );

    assert!(
        CrackedMessage::GpRoundSkipped.discriminant()
            > CrackedMessage::WelcomeSettings(String::new()).discriminant()
    );
}

#[test]
fn test_eq() {
    let message = CrackedMessage::AutopauseOff;
    assert_eq!(message, CrackedMessage::AutopauseOff);

    let message = CrackedMessage::AutopauseOn;
    assert_eq!(message, CrackedMessage::AutopauseOn);

    let message = CrackedMessage::BugNone("test".to_string());
    assert_eq!(message, CrackedMessage::BugNone("test".to_string()));

    let message = CrackedMessage::InvalidIP("test".to_string());
    assert_eq!(message, CrackedMessage::InvalidIP("test".to_string()));

    let message = CrackedMessage::IPDetails("test".to_string());
    assert_eq!(message, CrackedMessage::IPDetails("test".to_string()));

    let message = CrackedMessage::IPVersion("test".to_string());
    assert_eq!(message, CrackedMessage::IPVersion("test".to_string()));

    let message = CrackedMessage::AutopauseOff;
    assert_eq!(message, CrackedMessage::AutopauseOff);

    let message = CrackedMessage::AutopauseOn;
    assert_eq!(message, CrackedMessage::AutopauseOn);

    let message = CrackedMessage::CountryName("test".to_string());
    assert_eq!(message, CrackedMessage::CountryName("test".to_string()));

    let message = CrackedMessage::Clear;
    assert_eq!(message, CrackedMessage::Clear);

    let message = CrackedMessage::Clean(1);
    assert_eq!(message, CrackedMessage::Clean(1));

    let message = CrackedMessage::ChannelSizeSet {
        id: GenericChannelId::default(),
        name: "test".to_string(),
        size: 1,
    };
    assert_eq!(
        message,
        CrackedMessage::ChannelSizeSet {
            id: GenericChannelId::default(),
            name: "test".to_string(),
            size: 1
        }
    );

    let message = CrackedMessage::ChannelDeleted {
        channel_id: GenericChannelId::default(),
        channel_name: "test".to_string(),
    };
    assert_eq!(
        message,
        CrackedMessage::ChannelDeleted {
            channel_id: GenericChannelId::default(),
            channel_name: "test".to_string()
        }
    );
}

#[test]
fn test_ne() {
    let message = CrackedMessage::AutopauseOff;
    assert_ne!(message, CrackedMessage::AutopauseOn);

    let message = CrackedMessage::AutopauseOn;
    assert_ne!(message, CrackedMessage::AutopauseOff);

    let message = CrackedMessage::BugNone("test".to_string());
    assert_ne!(message, CrackedMessage::InvalidIP("test".to_string()));

    let message = CrackedMessage::InvalidIP("test".to_string());
    assert_ne!(message, CrackedMessage::BugNone("test".to_string()));

    let message = CrackedMessage::IPDetails("test".to_string());
    assert_ne!(message, CrackedMessage::IPVersion("test".to_string()));

    let message = CrackedMessage::IPVersion("test".to_string());
    assert_ne!(message, CrackedMessage::IPDetails("test".to_string()));

    let message = CrackedMessage::AutopauseOff;
    assert_ne!(message, CrackedMessage::AutopauseOn);

    let message = CrackedMessage::AutopauseOn;
    assert_ne!(message, CrackedMessage::AutopauseOff);

    let message = CrackedMessage::CountryName("test".to_string());
    assert_ne!(message, CrackedMessage::Clear);

    let message = CrackedMessage::Clear;
    assert_ne!(message, CrackedMessage::CountryName("test".to_string()));

    let message = CrackedMessage::Clean(1);
    assert_ne!(
        message,
        CrackedMessage::ChannelSizeSet {
            id: GenericChannelId::default(),
            name: "test".to_string(),
            size: 1,
        }
    );

    let message = CrackedMessage::ChannelSizeSet {
        id: GenericChannelId::default(),
        name: "test".to_string(),
        size: 1,
    };
    assert_ne!(message, CrackedMessage::Clean(1));

    let message = CrackedMessage::ChannelDeleted {
        channel_id: GenericChannelId::default(),
        channel_name: "test".to_string(),
    };
    assert_ne!(
        message,
        CrackedMessage::ChannelSizeSet {
            id: GenericChannelId::default(),
            name: "test".to_string(),
            size: 1,
        }
    );
}

#[test]
fn messages_of_one_kind_are_equal_whatever_they_carry() {
    assert_eq!(CrackedMessage::Clean(1), CrackedMessage::Clean(-40));
    assert_eq!(
        CrackedMessage::Other("a".to_string()),
        CrackedMessage::Other("b".to_string())
    );
}

#[test]
fn a_moved_song_names_both_indices_after_the_wording() {
    assert_eq!(
        CrackedMessage::SongMoved { at: 3, to: 1 }.to_text(),
        "🔀 Moved song from index to index 3 1."
    );
}

#[test]
fn a_missing_subcommand_names_its_group() {
    let msg = CrackedMessage::SubcommandNotFound {
        group: "music".to_string(),
        subcommand: "blast".to_string(),
    };
    assert_eq!(msg.to_text(), "⚠️ Subcommand blast for group music not found!");
    // The group is filled in first, so a group that itself reads
    // "{subcommand}" is filled in again by the second replacement.
    let msg = CrackedMessage::SubcommandNotFound {
        group: "{subcommand}".to_string(),
        subcommand: "x".to_string(),
    };
    assert_eq!(msg.to_text(), "⚠️ Subcommand x for group x not found!");
}

#[test]
fn users_and_roles_are_mentioned_with_their_ids() {
    let msg = CrackedMessage::UserKicked {
        mention: Mention::User(UserId(42)),
        id: UserId(42),
    };
    assert_eq!(msg.to_text(), "Kicked\n<@42> (42)");
    let msg = CrackedMessage::UserDeafened {
        mention: Mention::User(UserId(7)),
        id: UserId(7),
    };
    assert_eq!(msg.to_text(), "User deafened.\n<@7>(7)");
    assert_eq!(
        CrackedMessage::AutoRole(RoleId(9)).to_text(),
        "Auto Role <@&9>"
    );
    let msg = CrackedMessage::UserAuthorized {
        id: UserId(1),
        mention: Mention::User(UserId(1)),
        guild_id: GuildId(2),
        guild_name: "Home".to_string(),
    };
    assert_eq!(
        msg.to_text(),
        "✅ User has been authorized.\n User: <@1> (1) Guild: Home (2)"
    );
}

#[test]
fn numbers_render_in_decimal_with_their_sign() {
    assert_eq!(
        CrackedMessage::Clean(-3).to_text(),
        format!("{} -3!", crack_core::messages::CLEANED)
    );
    assert_eq!(
        CrackedMessage::DiceRoll {
            dice: 2,
            sides: 6,
            results: vec![3, 5]
        }
        .to_text(),
        "You rolled 2 dice with 6 sides. Here are the results:\n3, 5"
    );
    assert_eq!(
        CrackedMessage::PlaylistCreated("mix".to_string(), 12).to_text(),
        format!("{} **mix** with 12 tracks!", crack_core::messages::PLAYLIST_CREATED)
    );
}

#[test]
fn errors_are_red_and_plain_notes_gold() {
    assert_eq!(CrackedMessage::Error.colour(), MessageColour::Red);
    assert_eq!(CrackedMessage::Other("x".to_string()).colour(), MessageColour::Gold);
    assert_eq!(CrackedMessage::Pong.colour(), MessageColour::Blue);
    assert_eq!(CrackedMessage::default().to_text(), "(default)");
}
