use crack_core::ids::{GenericChannelId, RoleId, UserId};
use crack_core::welcome::{welcome_plan, welcome_text, WelcomeSettings};

#[test]
fn every_user_placeholder_becomes_a_mention() {
    assert_eq!(welcome_text("Hi {user}! Bye {user}.", UserId(42)), "Hi <@42>! Bye <@42>.");
}

#[test]
fn without_a_placeholder_the_mention_follows_the_message() {
    assert_eq!(welcome_text("Welcome aboard", UserId(42)), "Welcome aboard <@42>");
}

#[test]
fn a_new_member_is_greeted_and_given_the_arrival_role() {
    let settings = Some(WelcomeSettings {
        channel_id: Some(10),
        message: Some("Hello {user}".to_string()),
        auto_role: Some(77),
    });
    let plan = welcome_plan(&settings, UserId(5));
    assert_eq!(plan.post, Some((GenericChannelId(10), "Hello <@5>".to_string())));
    assert_eq!(plan.add_role, Some(RoleId(77)));
}

#[test]
fn a_welcome_needs_both_a_message_and_a_channel() {
    let no_channel = Some(WelcomeSettings {
        channel_id: None,
        message: Some("Hello".to_string()),
        auto_role: Some(77),
    });
    let plan = welcome_plan(&no_channel, UserId(5));
    assert!(plan.post.is_none());
    assert_eq!(plan.add_role, Some(RoleId(77)));

    let nothing = welcome_plan(&None, UserId(5));
    assert!(nothing.post.is_none() && nothing.add_role.is_none());
}
