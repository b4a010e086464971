//! The resilient-post protocol: at most two attempts, refresh before
//! reauthorization, terminal outcomes.

use multique::protocol::{
    classify_status, Directive, Event, Executor, NextCall, Platform, PostFailure, PostOutcome,
    PostResult,
};
use multique::token::TokenRecord;

fn record(access: &str, refresh: Option<&str>, subject: Option<&str>) -> TokenRecord {
    TokenRecord {
        access_token: access.to_string(),
        refresh_token: refresh.map(|s| s.to_string()),
        subject_id: subject.map(|s| s.to_string()),
    }
}

fn is_post(d: &Directive) -> bool {
    matches!(d.call, NextCall::Post { .. })
}

#[test]
fn classify_status_outcomes() {
    assert!(matches!(classify_status(200, String::new()), PostOutcome::Success));
    assert!(matches!(classify_status(204, String::new()), PostOutcome::Success));
    assert!(matches!(classify_status(299, String::new()), PostOutcome::Success));
    assert!(matches!(classify_status(401, String::new()), PostOutcome::Unauthorized));
    match classify_status(403, "forbidden".to_string()) {
        PostOutcome::Rejected(body) => assert_eq!(body, "forbidden"),
        _ => panic!("a 403 must classify as rejected"),
    }
    assert!(matches!(classify_status(300, String::new()), PostOutcome::Rejected(_)));
    assert!(matches!(classify_status(500, String::new()), PostOutcome::Rejected(_)));
}

#[test]
fn post_succeeds_first_try() {
    let (mut ex, d0) = Executor::start(Platform::Bluesky, record("A", Some("R"), Some("did:plc:x")));
    assert!(is_post(&d0));
    let d1 = ex.on_event(Event::Outcome(PostOutcome::Success));
    assert!(matches!(d1.call, NextCall::Finished));
    assert!(matches!(ex.result(), Some(PostResult::Posted)));
}

#[test]
fn rejected_post_is_terminal() {
    let (mut ex, _) = Executor::start(Platform::Twitter, record("A", Some("R"), None));
    let d = ex.on_event(Event::Outcome(PostOutcome::Rejected("bad content".to_string())));
    assert!(matches!(d.call, NextCall::Finished));
    match ex.result() {
        Some(PostResult::Failed(PostFailure::Rejected(body))) => assert_eq!(body, "bad content"),
        _ => panic!("a rejected post must fail with the body kept"),
    }
}

#[test]
fn transport_failure_is_never_retried() {
    let (mut ex, _) = Executor::start(Platform::Bluesky, record("A", Some("R"), Some("d")));
    let d = ex.on_event(Event::Outcome(PostOutcome::Transport));
    assert!(matches!(d.call, NextCall::Finished));
    assert!(matches!(ex.result(), Some(PostResult::Failed(PostFailure::Transport))));
}

#[test]
fn refresh_then_single_retry() {
    // An unauthorized attempt, a successful refresh, one retried post: the
    // retry carries the refreshed record and the record is handed over for
    // persisting.
    let (mut ex, d0) = Executor::start(Platform::Bluesky, record("A", Some("R"), Some("d")));
    let mut posts = if is_post(&d0) { 1 } else { 0 };

    let d1 = ex.on_event(Event::Outcome(PostOutcome::Unauthorized));
    assert!(d1.persist.is_none());
    match &d1.call {
        NextCall::Refresh { refresh_token } => assert_eq!(refresh_token, "R"),
        _ => panic!("an unauthorized attempt with a refresh token must refresh"),
    }

    let fresh = record("A2", Some("R2"), Some("d"));
    let d2 = ex.on_event(Event::Refreshed(Some(fresh)));
    if is_post(&d2) {
        posts += 1;
    }
    match &d2.persist {
        Some(rec) => {
            assert_eq!(rec.access_token, "A2");
            assert_eq!(rec.refresh_token.as_deref(), Some("R2"));
        },
        None => panic!("a refreshed record must be persisted"),
    }
    match &d2.call {
        NextCall::Post { token } => assert_eq!(token.access_token, "A2"),
        _ => panic!("the refreshed record must be retried"),
    }

    let d3 = ex.on_event(Event::Outcome(PostOutcome::Success));
    assert!(matches!(d3.call, NextCall::Finished));
    assert!(matches!(ex.result(), Some(PostResult::Posted)));
    assert_eq!(posts, 2);
}

#[test]
fn refresh_failure_falls_back_to_reauth() {
    // Bluesky can reauthorize unattended (password grant); a failed
    // reauthorization ends the post with credentials spent, and the retry
    // never goes out: one post attempt in total.
    let (mut ex, d0) = Executor::start(Platform::Bluesky, record("A", Some("R"), Some("d")));
    let mut posts = if is_post(&d0) { 1 } else { 0 };

    let d1 = ex.on_event(Event::Outcome(PostOutcome::Unauthorized));
    assert!(matches!(d1.call, NextCall::Refresh { .. }));
    let d2 = ex.on_event(Event::Refreshed(None));
    assert!(matches!(d2.call, NextCall::Reauthorize));
    let d3 = ex.on_event(Event::Reauthorized(None));
    if is_post(&d3) {
        posts += 1;
    }
    assert!(matches!(d3.call, NextCall::Finished));
    assert!(matches!(ex.result(), Some(PostResult::Failed(PostFailure::AuthExhausted))));
    assert_eq!(posts, 1);
}

#[test]
fn reauth_success_retries_once() {
    let (mut ex, _) = Executor::start(Platform::Bluesky, record("A", Some("R"), Some("d")));
    ex.on_event(Event::Outcome(PostOutcome::Unauthorized));
    ex.on_event(Event::Refreshed(None));
    let d = ex.on_event(Event::Reauthorized(Some(record("A3", Some("R3"), Some("d")))));
    match &d.persist {
        Some(rec) => assert_eq!(rec.access_token, "A3"),
        None => panic!("a reauthorized record must be persisted"),
    }
    assert!(matches!(&d.call, NextCall::Post { token } if token.access_token == "A3"));
    let d2 = ex.on_event(Event::Outcome(PostOutcome::Success));
    assert!(matches!(d2.call, NextCall::Finished));
    assert!(matches!(ex.result(), Some(PostResult::Posted)));
}

#[test]
fn at_most_two_attempts() {
    // Refresh succeeds, the retry is again unauthorized: the post fails;
    // exactly two attempts were made and nothing further is asked for.
    let (mut ex, d0) = Executor::start(Platform::Twitter, record("A", Some("R"), None));
    let mut posts = if is_post(&d0) { 1 } else { 0 };
    ex.on_event(Event::Outcome(PostOutcome::Unauthorized));
    let d2 = ex.on_event(Event::Refreshed(Some(record("A2", Some("R2"), None))));
    if is_post(&d2) {
        posts += 1;
    }
    let d3 = ex.on_event(Event::Outcome(PostOutcome::Unauthorized));
    if is_post(&d3) {
        posts += 1;
    }
    assert!(matches!(d3.call, NextCall::Finished));
    assert!(matches!(ex.result(), Some(PostResult::Failed(PostFailure::AuthExhausted))));
    assert_eq!(posts, 2);
}

#[test]
fn twitter_reauth_needs_the_user() {
    // Twitter's reauthorization is a code flow: with the refresh token
    // spent, recovery cannot run unattended.
    let (mut ex, _) = Executor::start(Platform::Twitter, record("A", Some("R"), None));
    ex.on_event(Event::Outcome(PostOutcome::Unauthorized));
    let d = ex.on_event(Event::Refreshed(None));
    assert!(matches!(d.call, NextCall::Finished));
    assert!(matches!(
        ex.result(),
        Some(PostResult::Failed(PostFailure::InteractionRequired))
    ));
}

#[test]
fn twitter_without_refresh_token_needs_the_user() {
    let (mut ex, _) = Executor::start(Platform::Twitter, record("A", None, None));
    let d = ex.on_event(Event::Outcome(PostOutcome::Unauthorized));
    assert!(matches!(d.call, NextCall::Finished));
    assert!(matches!(
        ex.result(),
        Some(PostResult::Failed(PostFailure::InteractionRequired))
    ));
}

#[test]
fn mastodon_unauthorized_needs_the_user() {
    // Mastodon grants no refresh token at all.
    let (mut ex, _) = Executor::start(Platform::Mastodon, record("A", None, None));
    let d = ex.on_event(Event::Outcome(PostOutcome::Unauthorized));
    assert!(matches!(d.call, NextCall::Finished));
    assert!(matches!(
        ex.result(),
        Some(PostResult::Failed(PostFailure::InteractionRequired))
    ));
}

#[test]
fn linkedin_unauthorized_needs_the_user() {
    let (mut ex, _) = Executor::start(Platform::LinkedIn, record("A", None, None));
    let d = ex.on_event(Event::Outcome(PostOutcome::Unauthorized));
    assert!(matches!(d.call, NextCall::Finished));
    assert!(matches!(
        ex.result(),
        Some(PostResult::Failed(PostFailure::InteractionRequired))
    ));
}
