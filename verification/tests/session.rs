//! The session state and the broadcast coordinator.

use multique::posts::{AppState, Selection};
use multique::protocol::{Platform, PostFailure, PostResult};
use multique::token::TokenRecord;

#[test]
fn broadcast_targets_selected_and_authorized() {
    let mut s = AppState::new();
    s.set_authorized(Platform::Twitter);
    s.record_bluesky_session("A".to_string(), "did:plc:x".to_string());
    // Mastodon stays unauthorized.
    let sel = Selection { twitter: true, bluesky: true, mastodon: true };
    let targets = s.broadcast_targets(&sel);
    assert_eq!(targets, vec![Platform::Twitter, Platform::Bluesky]);

    let none_selected = Selection { twitter: false, bluesky: false, mastodon: false };
    assert!(s.broadcast_targets(&none_selected).is_empty());

    let only_bluesky = Selection { twitter: false, bluesky: true, mastodon: true };
    assert_eq!(s.broadcast_targets(&only_bluesky), vec![Platform::Bluesky]);
}

#[test]
fn one_failure_leaves_the_others_standing() {
    // Three authorized platforms; one fails with spent credentials; the
    // other two keep their state, and the message is cleared regardless.
    let mut s = AppState::new();
    s.set_authorized(Platform::Twitter);
    s.set_authorized(Platform::Mastodon);
    s.record_bluesky_session("A".to_string(), "did:plc:x".to_string());
    s.post_text = "hello, everyone".to_string();

    s.apply_result(Platform::Twitter, &PostResult::Posted);
    s.apply_result(Platform::Bluesky, &PostResult::Failed(PostFailure::AuthExhausted));
    s.apply_result(Platform::Mastodon, &PostResult::Posted);
    s.finish_broadcast();

    assert!(s.twitter_authorized);
    assert!(!s.bluesky_authorized);
    assert!(s.mastodon_authorized);
    assert_eq!(s.post_text, "");
}

#[test]
fn message_cleared_even_when_all_fail() {
    let mut s = AppState::new();
    s.set_authorized(Platform::Twitter);
    s.post_text = "doomed".to_string();
    s.apply_result(Platform::Twitter, &PostResult::Failed(PostFailure::Transport));
    s.finish_broadcast();
    assert_eq!(s.post_text, "");
    assert!(s.twitter_authorized, "a transport failure must not revoke authorization");
}

#[test]
fn rejected_post_keeps_authorization() {
    let mut s = AppState::new();
    s.set_authorized(Platform::Mastodon);
    s.apply_result(
        Platform::Mastodon,
        &PostResult::Failed(PostFailure::Rejected("422".to_string())),
    );
    assert!(s.mastodon_authorized);
}

#[test]
fn interaction_required_revokes_authorization() {
    let mut s = AppState::new();
    s.set_authorized(Platform::Twitter);
    s.apply_result(Platform::Twitter, &PostResult::Failed(PostFailure::InteractionRequired));
    assert!(!s.twitter_authorized);
}

#[test]
fn bluesky_session_lands_in_the_session_state() {
    let mut s = AppState::new();
    assert!(!s.bluesky_authorized);
    s.record_bluesky_session("A".to_string(), "did:plc:x".to_string());
    assert!(s.bluesky_authorized);
    assert_eq!(s.bluesky_token.as_deref(), Some("A"));
    assert_eq!(s.did.as_deref(), Some("did:plc:x"));
}

#[test]
fn persist_directive_updates_bluesky_session() {
    let mut s = AppState::new();
    s.record_bluesky_session("A".to_string(), "did:plc:x".to_string());
    let fresh = TokenRecord {
        access_token: "A2".to_string(),
        refresh_token: Some("R2".to_string()),
        subject_id: Some("did:plc:x".to_string()),
    };
    s.apply_persist(Platform::Bluesky, &fresh);
    assert_eq!(s.bluesky_token.as_deref(), Some("A2"));
    assert!(s.bluesky_authorized);
}

#[test]
fn persist_directive_leaves_other_platforms_alone() {
    let mut s = AppState::new();
    s.record_bluesky_session("A".to_string(), "did:plc:x".to_string());
    let fresh = TokenRecord {
        access_token: "T2".to_string(),
        refresh_token: Some("TR2".to_string()),
        subject_id: None,
    };
    s.apply_persist(Platform::Twitter, &fresh);
    assert_eq!(s.bluesky_token.as_deref(), Some("A"));
}
