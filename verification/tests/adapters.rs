//! The platform adapters: token files, request bodies, answer handling,
//! and the spec's end-to-end scenarios.

use multique::posts::AppState;
use multique::protocol::{
    classify_status, AuthError, Event, Executor, NextCall, Platform, PostOutcome, PostResult,
};
use multique::{bluesky, mastodon, twitter};

#[test]
fn bluesky_tokens_round_trip() {
    let t = bluesky::TokenData {
        access_jwt: "eyJ.access.\"quoted\"".to_string(),
        refresh_jwt: "eyJ.refresh\\".to_string(),
        did: "did:plc:abc123".to_string(),
    };
    let text = bluesky::encode_tokens(&t);
    let back = bluesky::parse_tokens(&text).expect("a saved record must load");
    assert_eq!(back.access_jwt, t.access_jwt);
    assert_eq!(back.refresh_jwt, t.refresh_jwt);
    assert_eq!(back.did, t.did);
}

#[test]
fn twitter_tokens_round_trip_with_refresh() {
    let t = twitter::TokenData {
        access_token: "AT".to_string(),
        refresh_token: Some("RT".to_string()),
    };
    let text = twitter::encode_tokens(&t);
    assert_eq!(text, "{\"access_token\":\"AT\",\"refresh_token\":\"RT\"}");
    let back = twitter::parse_tokens(&text).unwrap();
    assert_eq!(back.access_token, "AT");
    assert_eq!(back.refresh_token.as_deref(), Some("RT"));
}

#[test]
fn twitter_tokens_round_trip_without_refresh() {
    let t = twitter::TokenData { access_token: "AT".to_string(), refresh_token: None };
    let text = twitter::encode_tokens(&t);
    assert_eq!(text, "{\"access_token\":\"AT\",\"refresh_token\":null}");
    let back = twitter::parse_tokens(&text).unwrap();
    assert_eq!(back.access_token, "AT");
    assert!(back.refresh_token.is_none());
}

#[test]
fn mastodon_tokens_round_trip() {
    let t = mastodon::TokenData { access_token: "mast-token".to_string() };
    let text = mastodon::encode_tokens(&t);
    assert_eq!(text, "{\"access_token\":\"mast-token\"}");
    let back = mastodon::parse_tokens(&text).unwrap();
    assert_eq!(back.access_token, "mast-token");
}

#[test]
fn corrupt_token_files_read_as_absent() {
    assert!(bluesky::parse_tokens("not json at all").is_none());
    assert!(bluesky::parse_tokens("{\"access_jwt\":\"A\"}").is_none());
    assert!(twitter::parse_tokens("{\"refresh_token\":\"R\"}").is_none());
    assert!(mastodon::parse_tokens("{}").is_none());
}

#[test]
fn twitter_bearer_token_from_file_contents() {
    let stored = "{\"access_token\":\"AT\",\"refresh_token\":null}";
    assert_eq!(twitter::load_bearer_token(Some(stored)).as_deref(), Some("AT"));
    assert!(twitter::load_bearer_token(Some("garbage")).is_none());
    assert!(twitter::load_bearer_token(None).is_none());
}

#[test]
fn bluesky_session_granted() {
    // A created session: the answer's camel-case members become the stored
    // record and the session turns authorized.
    let body = "{\"accessJwt\":\"A\",\"refreshJwt\":\"R\",\"did\":\"did:plc:x\"}";
    let t = match bluesky::handle_session_response(200, body.to_string()) {
        Ok(t) => t,
        Err(_) => panic!("a granted session must parse"),
    };
    assert_eq!(t.access_jwt, "A");
    assert_eq!(t.refresh_jwt, "R");
    assert_eq!(t.did, "did:plc:x");

    let stored = bluesky::encode_tokens(&t);
    let back = bluesky::parse_tokens(&stored).unwrap();
    assert_eq!(back.access_jwt, "A");
    assert_eq!(back.refresh_jwt, "R");
    assert_eq!(back.did, "did:plc:x");

    let mut s = AppState::new();
    s.record_bluesky_session(t.access_jwt.clone(), t.did.clone());
    assert!(s.bluesky_authorized);
}

#[test]
fn bluesky_session_with_extra_members() {
    let body = "{\"did\":\"d\",\"handle\":\"user.bsky.social\",\"didDoc\":{\"k\":[true]},\"accessJwt\":\"A\",\"refreshJwt\":\"R\",\"active\":true}";
    let t = bluesky::handle_session_response(200, body.to_string()).expect("extra members are fine");
    assert_eq!(t.access_jwt, "A");
    assert_eq!(t.did, "d");
}

#[test]
fn bluesky_session_rejected() {
    match bluesky::handle_session_response(401, "{\"error\":\"AuthenticationRequired\"}".to_string())
    {
        Err(AuthError::Rejected(body)) => assert_eq!(body, "{\"error\":\"AuthenticationRequired\"}"),
        _ => panic!("a failed grant must carry the body"),
    }
    // An empty access token is no grant.
    assert!(bluesky::handle_session_response(
        200,
        "{\"accessJwt\":\"\",\"refreshJwt\":\"R\",\"did\":\"d\"}".to_string()
    )
    .is_err());
    // An unparsable body is no grant either.
    assert!(bluesky::handle_session_response(200, "<html>".to_string()).is_err());
}

#[test]
fn bluesky_refresh_rejected_means_refresh_token_spent() {
    match bluesky::handle_refresh_response(400, "expired".to_string()) {
        Err(AuthError::RefreshRejected(body)) => assert_eq!(body, "expired"),
        _ => panic!("a failed refresh must say the refresh token is spent"),
    }
}

#[test]
fn bluesky_expired_token_refreshed_and_retried() {
    // The spec's refresh scenario, end to end: a 401 on the post, a
    // refresh with "R", a new grant, the retry with "A2" succeeds, and the
    // stored record now holds the new pair.
    let session = bluesky::handle_session_response(
        200,
        "{\"accessJwt\":\"A\",\"refreshJwt\":\"R\",\"did\":\"did:plc:x\"}".to_string(),
    )
    .unwrap();
    let (mut ex, d0) = Executor::start(Platform::Bluesky, session.to_record());
    let first = match d0.call {
        NextCall::Post { token } => token,
        _ => panic!("a post must go out first"),
    };
    assert_eq!(first.access_token, "A");

    let d1 = ex.on_event(Event::Outcome(classify_status(401, String::new())));
    match &d1.call {
        NextCall::Refresh { refresh_token } => assert_eq!(refresh_token, "R"),
        _ => panic!("the 401 must trigger a refresh"),
    }

    let fresh = bluesky::handle_refresh_response(
        200,
        "{\"accessJwt\":\"A2\",\"refreshJwt\":\"R2\",\"did\":\"did:plc:x\"}".to_string(),
    )
    .unwrap();
    let d2 = ex.on_event(Event::Refreshed(Some(fresh.to_record())));
    let persisted = d2.persist.expect("the new record must be persisted");
    assert_eq!(persisted.access_token, "A2");
    assert_eq!(persisted.refresh_token.as_deref(), Some("R2"));
    match &d2.call {
        NextCall::Post { token } => assert_eq!(token.access_token, "A2"),
        _ => panic!("the post must be retried with the new token"),
    }

    let d3 = ex.on_event(Event::Outcome(classify_status(200, String::new())));
    assert!(matches!(d3.call, NextCall::Finished));
    assert!(matches!(ex.result(), Some(PostResult::Posted)));

    // What the store now holds is the new pair.
    let stored = bluesky::encode_tokens(&bluesky::TokenData {
        access_jwt: persisted.access_token.clone(),
        refresh_jwt: persisted.refresh_token.clone().unwrap(),
        did: persisted.subject_id.clone().unwrap(),
    });
    let back = bluesky::parse_tokens(&stored).unwrap();
    assert_eq!(back.access_jwt, "A2");
    assert_eq!(back.refresh_jwt, "R2");
}

#[test]
fn mastodon_exchange_failure_leaves_nothing_behind() {
    // The spec's failed-exchange scenario: a 400 means no record to
    // persist and the session stays unauthorized.
    let mut s = AppState::new();
    let r = mastodon::handle_token_response(400, "{\"error\":\"invalid_grant\"}".to_string());
    match r {
        Err(AuthError::Rejected(body)) => assert_eq!(body, "{\"error\":\"invalid_grant\"}"),
        _ => panic!("a 400 must reject the grant"),
    }
    // Only a granted record would have been persisted or recorded; the
    // session state never moved.
    assert!(!s.mastodon_authorized);
    s.finish_broadcast();
    assert!(!s.mastodon_authorized);
}

#[test]
fn mastodon_exchange_success() {
    let t = mastodon::handle_token_response(200, "{\"access_token\":\"M\"}".to_string()).unwrap();
    assert_eq!(t.access_token, "M");
    let mut s = AppState::new();
    s.set_authorized(Platform::Mastodon);
    assert!(s.mastodon_authorized);
}

#[test]
fn twitter_exchange_and_refresh_answers() {
    let t = twitter::handle_token_response(
        200,
        "{\"access_token\":\"T\",\"refresh_token\":\"TR\"}".to_string(),
    )
    .unwrap();
    assert_eq!(t.access_token, "T");
    assert_eq!(t.refresh_token.as_deref(), Some("TR"));

    let no_refresh = twitter::handle_token_response(200, "{\"access_token\":\"T\"}".to_string())
        .unwrap();
    assert!(no_refresh.refresh_token.is_none());

    assert!(matches!(
        twitter::handle_token_response(403, "no".to_string()),
        Err(AuthError::Rejected(_))
    ));
    assert!(matches!(
        twitter::handle_refresh_response(400, "spent".to_string()),
        Err(AuthError::RefreshRejected(_))
    ));
    assert!(twitter::handle_token_response(200, "{\"access_token\":\"\"}".to_string()).is_err());
}

#[test]
fn bluesky_request_bodies() {
    assert_eq!(
        bluesky::session_request_body("alice.example", "hunter2"),
        "{\"identifier\":\"alice.example\",\"password\":\"hunter2\"}"
    );
    assert_eq!(bluesky::refresh_request_body("R"), "{\"refreshJwt\":\"R\"}");
}

#[test]
fn bluesky_post_body_shape() {
    let body = bluesky::post_request_body(
        "did:plc:x",
        "hello \"world\"",
        "2024-01-02T03:04:05+00:00",
    );
    assert_eq!(
        body,
        "{\"repo\":\"did:plc:x\",\"collection\":\"app.bsky.feed.post\",\"type\":\"app.bsky.feed.post\",\"record\":{\"text\":\"hello \\\"world\\\"\",\"createdAt\":\"2024-01-02T03:04:05+00:00\"}}"
    );
    // The body is real JSON with the record nested inside.
    let v: serde_json::Value = serde_json::from_str(&body).unwrap();
    assert_eq!(v.get("repo").and_then(|x| x.as_str()), Some("did:plc:x"));
    assert_eq!(
        v.get("record").and_then(|r| r.get("text")).and_then(|x| x.as_str()),
        Some("hello \"world\"")
    );
}

#[test]
fn bluesky_timestamp_is_usable() {
    let ts = bluesky::now_rfc3339();
    assert!(!ts.is_empty());
    assert!(ts.contains('T'), "an RFC 3339 timestamp separates date and time with T");
}

#[test]
fn tweet_and_status_bodies() {
    assert_eq!(twitter::tweet_request_body("hi"), "{\"text\":\"hi\"}");
    assert_eq!(mastodon::status_request_body("hi"), "{\"status\":\"hi\"}");
}

#[test]
fn mastodon_auth_url_exact() {
    assert_eq!(
        mastodon::generate_auth_url("CID"),
        "https://fosstodon.org/oauth/authorize?response_type=code&client_id=CID&redirect_uri=urn:ietf:wg:oauth:2.0:oob&scope=write:statuses"
    );
}

#[test]
fn twitter_auth_url_built_and_encoded() {
    let u = twitter::generate_auth_url("CID", "https://example.net/cb?x=1")
        .expect("the fixed base must parse");
    assert!(u.starts_with("https://twitter.com/i/oauth2/authorize?"));
    let parsed = url::Url::parse(&u).unwrap();
    let q: Vec<(String, String)> =
        parsed.query_pairs().map(|(k, v)| (k.into_owned(), v.into_owned())).collect();
    assert_eq!(
        q,
        vec![
            ("response_type".to_string(), "code".to_string()),
            ("client_id".to_string(), "CID".to_string()),
            ("redirect_uri".to_string(), "https://example.net/cb?x=1".to_string()),
            ("scope".to_string(), "tweet.read tweet.write users.read".to_string()),
            ("state".to_string(), "state".to_string()),
            ("code_challenge".to_string(), "challenge".to_string()),
            ("code_challenge_method".to_string(), "plain".to_string()),
        ]
    );
    // The reserved characters of the redirect target were percent-encoded.
    assert!(u.contains("redirect_uri=https%3A%2F%2Fexample.net%2Fcb%3Fx%3D1"));
}

#[test]
fn twitter_form_params() {
    let r = twitter::refresh_params("RT", "CID");
    assert_eq!(
        r,
        vec![
            ("refresh_token".to_string(), "RT".to_string()),
            ("grant_type".to_string(), "refresh_token".to_string()),
            ("client_id".to_string(), "CID".to_string()),
        ]
    );
    let e = twitter::exchange_params("CODE", "CID", "https://example.net/cb");
    assert_eq!(e.len(), 5);
    assert_eq!(e[0], ("code".to_string(), "CODE".to_string()));
    assert_eq!(e[4], ("code_verifier".to_string(), "challenge".to_string()));
}

#[test]
fn mastodon_form_params() {
    let p = mastodon::token_request_params("CID", "shh", "CODE");
    assert_eq!(p[0], ("grant_type".to_string(), "authorization_code".to_string()));
    assert_eq!(p[1], ("client_id".to_string(), "CID".to_string()));
    assert_eq!(p[3], ("redirect_uri".to_string(), "urn:ietf:wg:oauth:2.0:oob".to_string()));
    assert_eq!(p[4], ("code".to_string(), "CODE".to_string()));
}

#[test]
fn endpoints() {
    assert_eq!(
        bluesky::create_session_url(),
        "https://bsky.social/xrpc/com.atproto.server.createSession"
    );
    assert_eq!(
        bluesky::refresh_session_url(),
        "https://bsky.social/xrpc/com.atproto.server.refreshSession"
    );
    assert_eq!(
        bluesky::create_record_url(),
        "https://bsky.social/xrpc/com.atproto.repo.createRecord"
    );
    assert_eq!(twitter::token_url(), "https://api.twitter.com/2/oauth2/token");
    assert_eq!(twitter::tweets_url(), "https://api.twitter.com/2/tweets");
    assert_eq!(mastodon::statuses_url(), "https://fosstodon.org/api/v1/statuses");
    assert_eq!(mastodon::api_base_url(), "https://fosstodon.org");
    assert_eq!(mastodon::oauth_base_url(), "https://fosstodon.org/oauth");
    assert_eq!(twitter::authorize_base_url(), "https://twitter.com/i/oauth2/authorize");
}
