//! The Bluesky adapter: a password-grant session, a refresh token, and an
//! unattended reauthorization path — the one platform whose resilient post
//! can recover from expiry without the user. This module builds the
//! requests and reads the answers; the HTTP transport lives outside the
//! library.

use vstd::prelude::*;
use vstd::string::StrSliceExecFns;
use vstd::string::StringExecFns;
use crate::json::{
    append_json_string, enc_object, enc_string, encode_object, find_value, lemma_object_round_trip,
    lookup_string, pair_seq_view, parse_object, parse_object_str, spec_lookup_string, SpecPair,
};
use crate::protocol::AuthError;
use crate::text::{clone_string, push_char};
use crate::token::TokenRecord;

verus! {

/// The token record persisted for Bluesky: both session JWTs and the
/// account's DID, which post-creation calls name as the repository.
pub struct TokenData {
    pub access_jwt: String,
    pub refresh_jwt: String,
    pub did: String,
}

/// The record's view.
pub struct TokenDataV {
    pub access_jwt: Seq<char>,
    pub refresh_jwt: Seq<char>,
    pub did: Seq<char>,
}

impl View for TokenData {
    type V = TokenDataV;

    open spec fn view(&self) -> TokenDataV {
        TokenDataV {
            access_jwt: self.access_jwt@,
            refresh_jwt: self.refresh_jwt@,
            did: self.did@,
        }
    }
}

impl TokenData {
    /// The record in the platform-independent shape the protocol runs on.
    pub fn to_record(&self) -> (r: TokenRecord)
        ensures
            r.access_token == self.access_jwt,
            r.refresh_token == Some(self.refresh_jwt),
            r.subject_id == Some(self.did),
    {
        TokenRecord {
            access_token: clone_string(&self.access_jwt),
            refresh_token: Some(clone_string(&self.refresh_jwt)),
            subject_id: Some(clone_string(&self.did)),
        }
    }
}

/// The members of the token file.
pub open spec fn spec_store_pairs(t: TokenDataV) -> Seq<SpecPair> {
    seq![
        ("access_jwt"@, Some(t.access_jwt)),
        ("refresh_jwt"@, Some(t.refresh_jwt)),
        ("did"@, Some(t.did)),
    ]
}

/// What the token file holds for a record.
pub open spec fn spec_encode_tokens(t: TokenDataV) -> Seq<char> {
    enc_object(spec_store_pairs(t))
}

/// The record a token file's text holds, if it parses and carries all three
/// members as strings.
pub open spec fn spec_parse_tokens(s: Seq<char>) -> Option<TokenDataV> {
    match parse_object(s) {
        Some(ps) => match (
            spec_lookup_string(ps, "access_jwt"@),
            spec_lookup_string(ps, "refresh_jwt"@),
            spec_lookup_string(ps, "did"@),
        ) {
            (Some(a), Some(r), Some(d)) => Some(
                TokenDataV { access_jwt: a, refresh_jwt: r, did: d },
            ),
            _ => None,
        },
        None => None,
    }
}

/// Encodes a record for its token file.
pub fn encode_tokens(t: &TokenData) -> (r: String)
    ensures
        r@ == spec_encode_tokens(t@),
{
    let mut pairs: Vec<(String, Option<String>)> = Vec::new();
    pairs.push((String::from_str("access_jwt"), Some(clone_string(&t.access_jwt))));
    pairs.push((String::from_str("refresh_jwt"), Some(clone_string(&t.refresh_jwt))));
    pairs.push((String::from_str("did"), Some(clone_string(&t.did))));
    let r = encode_object(&pairs);
    proof {
        assert(pair_seq_view(pairs@) =~= spec_store_pairs(t@));
    }
    r
}

/// Reads a record back out of its token file's text. A file that does not
/// parse gives nothing — indistinguishable from never having authorized.
pub fn parse_tokens(s: &str) -> (r: Option<TokenData>)
    ensures
        (match r {
            Some(t) => spec_parse_tokens(s@) == Some(t@),
            None => spec_parse_tokens(s@) is None,
        }),
{
    match parse_object_str(s) {
        Some(ps) => {
            let a = lookup_string(&ps, "access_jwt");
            let r = lookup_string(&ps, "refresh_jwt");
            let d = lookup_string(&ps, "did");
            match (a, r, d) {
                (Some(a), Some(r), Some(d)) => Some(
                    TokenData { access_jwt: a, refresh_jwt: r, did: d },
                ),
                _ => None,
            }
        },
        None => None,
    }
}

/// The token file's three keys name three distinct members.
proof fn lemma_store_keys_distinct()
    ensures
        "access_jwt"@ != "refresh_jwt"@,
        "access_jwt"@ != "did"@,
        "refresh_jwt"@ != "did"@,
{
    reveal_strlit("access_jwt");
    reveal_strlit("refresh_jwt");
    reveal_strlit("did");
    assert("access_jwt"@.len() == 10);
    assert("refresh_jwt"@.len() == 11);
    assert("did"@.len() == 3);
}

/// Loading what was saved returns the record exactly.
pub proof fn lemma_tokens_round_trip(t: TokenDataV)
    ensures
        spec_parse_tokens(spec_encode_tokens(t)) == Some(t),
{
    let ps = spec_store_pairs(t);
    lemma_object_round_trip(ps);
    lemma_store_keys_distinct();
    let ps1 = ps.drop_first();
    let ps2 = ps1.drop_first();
    assert(ps1 =~= seq![("refresh_jwt"@, Some(t.refresh_jwt)), ("did"@, Some(t.did))]);
    assert(ps2 =~= seq![("did"@, Some(t.did))]);
    assert(ps[0].0 == "access_jwt"@ && ps1[0].0 == "refresh_jwt"@ && ps2[0].0 == "did"@);
    assert(find_value(ps, "access_jwt"@) == Some(Some(t.access_jwt)));
    assert(find_value(ps1, "refresh_jwt"@) == Some(Some(t.refresh_jwt)));
    assert(find_value(ps, "refresh_jwt"@) == find_value(ps1, "refresh_jwt"@));
    assert(find_value(ps2, "did"@) == Some(Some(t.did)));
    assert(find_value(ps1, "did"@) == find_value(ps2, "did"@));
    assert(find_value(ps, "did"@) == find_value(ps1, "did"@));
}

/// Where a password grant opens a session.
pub fn create_session_url() -> (r: &'static str)
    ensures
        r@ == "https://bsky.social/xrpc/com.atproto.server.createSession"@,
{
    "https://bsky.social/xrpc/com.atproto.server.createSession"
}

/// Where a refresh token buys a new session.
pub fn refresh_session_url() -> (r: &'static str)
    ensures
        r@ == "https://bsky.social/xrpc/com.atproto.server.refreshSession"@,
{
    "https://bsky.social/xrpc/com.atproto.server.refreshSession"
}

/// Where a post record is created.
pub fn create_record_url() -> (r: &'static str)
    ensures
        r@ == "https://bsky.social/xrpc/com.atproto.repo.createRecord"@,
{
    "https://bsky.social/xrpc/com.atproto.repo.createRecord"
}

/// The body of a session-creation (password grant) call.
pub open spec fn spec_session_request_body(identifier: Seq<char>, password: Seq<char>) -> Seq<
    char,
> {
    enc_object(seq![("identifier"@, Some(identifier)), ("password"@, Some(password))])
}

/// Builds the JSON body that opens a session from the stored credentials.
pub fn session_request_body(identifier: &str, password: &str) -> (r: String)
    ensures
        r@ == spec_session_request_body(identifier@, password@),
{
    let mut pairs: Vec<(String, Option<String>)> = Vec::new();
    pairs.push((String::from_str("identifier"), Some(String::from_str(identifier))));
    pairs.push((String::from_str("password"), Some(String::from_str(password))));
    let r = encode_object(&pairs);
    proof {
        assert(pair_seq_view(pairs@) =~= seq![
            ("identifier"@, Some(identifier@)),
            ("password"@, Some(password@)),
        ]);
    }
    r
}

/// The body of a session-refresh call.
pub open spec fn spec_refresh_request_body(refresh_jwt: Seq<char>) -> Seq<char> {
    enc_object(seq![("refreshJwt"@, Some(refresh_jwt))])
}

/// Builds the JSON body that exchanges the refresh token for a new session.
pub fn refresh_request_body(refresh_jwt: &str) -> (r: String)
    ensures
        r@ == spec_refresh_request_body(refresh_jwt@),
{
    let mut pairs: Vec<(String, Option<String>)> = Vec::new();
    pairs.push((String::from_str("refreshJwt"), Some(String::from_str(refresh_jwt))));
    let r = encode_object(&pairs);
    proof {
        assert(pair_seq_view(pairs@) =~= seq![("refreshJwt"@, Some(refresh_jwt@))]);
    }
    r
}

/// The record a session or refresh answer's body grants: the body must
/// parse and carry `accessJwt`, `refreshJwt` and `did` as strings, the
/// access token non-empty.
pub open spec fn spec_session_of(body: Seq<char>) -> Option<TokenDataV> {
    match parse_object(body) {
        Some(ps) => match (
            spec_lookup_string(ps, "accessJwt"@),
            spec_lookup_string(ps, "refreshJwt"@),
            spec_lookup_string(ps, "did"@),
        ) {
            (Some(a), Some(r), Some(d)) => if a.len() > 0 {
                Some(TokenDataV { access_jwt: a, refresh_jwt: r, did: d })
            } else {
                None
            },
            _ => None,
        },
        None => None,
    }
}

/// Reads a session or refresh answer's body.
fn parse_session_body(s: &str) -> (r: Option<TokenData>)
    ensures
        (match r {
            Some(t) => spec_session_of(s@) == Some(t@) && t.access_jwt@.len() > 0,
            None => spec_session_of(s@) is None,
        }),
{
    match parse_object_str(s) {
        Some(ps) => {
            let a = lookup_string(&ps, "accessJwt");
            let r = lookup_string(&ps, "refreshJwt");
            let d = lookup_string(&ps, "did");
            match (a, r, d) {
                (Some(a), Some(r), Some(d)) => {
                    if a.unicode_len() > 0 {
                        Some(TokenData { access_jwt: a, refresh_jwt: r, did: d })
                    } else {
                        None
                    }
                },
                _ => None,
            }
        },
        None => None,
    }
}

/// Reads the answer of a session-creation (password grant or
/// reauthorization) call. A success status whose body grants a session
/// yields the record; anything else is a rejected grant carrying the body
/// for diagnostics.
pub fn handle_session_response(status: u16, body: String) -> (r: Result<TokenData, AuthError>)
    ensures
        r is Ok <==> (200 <= status < 300 && spec_session_of(body@) is Some),
        (match r {
            Ok(t) => Some(t@) == spec_session_of(body@) && t.access_jwt@.len() > 0,
            Err(e) => e == AuthError::Rejected(body),
        }),
{
    if 200 <= status && status < 300 {
        match parse_session_body(body.as_str()) {
            Some(t) => Ok(t),
            None => Err(AuthError::Rejected(body)),
        }
    } else {
        Err(AuthError::Rejected(body))
    }
}

/// Reads the answer of a session-refresh call: the same grant shape, but a
/// failure means the refresh token itself is spent, which the caller must
/// take as the cue to reauthorize in full.
pub fn handle_refresh_response(status: u16, body: String) -> (r: Result<TokenData, AuthError>)
    ensures
        r is Ok <==> (200 <= status < 300 && spec_session_of(body@) is Some),
        (match r {
            Ok(t) => Some(t@) == spec_session_of(body@) && t.access_jwt@.len() > 0,
            Err(e) => e == AuthError::RefreshRejected(body),
        }),
{
    if 200 <= status && status < 300 {
        match parse_session_body(body.as_str()) {
            Some(t) => Ok(t),
            None => Err(AuthError::RefreshRejected(body)),
        }
    } else {
        Err(AuthError::RefreshRejected(body))
    }
}

/// The body of a post-creation call: the record goes into the account's
/// feed collection under its DID, stamped with the given creation time.
pub open spec fn spec_post_request_body(
    did: Seq<char>,
    text: Seq<char>,
    created_at: Seq<char>,
) -> Seq<char> {
    seq!['{'] + enc_string("repo"@) + seq![':'] + enc_string(did) + seq![','] + enc_string(
        "collection"@,
    ) + seq![':'] + enc_string("app.bsky.feed.post"@) + seq![','] + enc_string("type"@) + seq![':']
        + enc_string("app.bsky.feed.post"@) + seq![','] + enc_string("record"@) + seq![':']
        + enc_object(seq![("text"@, Some(text)), ("createdAt"@, Some(created_at))]) + seq!['}']
}

/// Builds the JSON body that creates a post record.
pub fn post_request_body(did: &str, text: &str, created_at: &str) -> (r: String)
    ensures
        r@ == spec_post_request_body(did@, text@, created_at@),
{
    let mut out = String::new();
    push_char(&mut out, '{');
    append_json_string(&mut out, "repo");
    push_char(&mut out, ':');
    append_json_string(&mut out, did);
    push_char(&mut out, ',');
    append_json_string(&mut out, "collection");
    push_char(&mut out, ':');
    append_json_string(&mut out, "app.bsky.feed.post");
    push_char(&mut out, ',');
    append_json_string(&mut out, "type");
    push_char(&mut out, ':');
    append_json_string(&mut out, "app.bsky.feed.post");
    push_char(&mut out, ',');
    append_json_string(&mut out, "record");
    push_char(&mut out, ':');
    let mut pairs: Vec<(String, Option<String>)> = Vec::new();
    pairs.push((String::from_str("text"), Some(String::from_str(text))));
    pairs.push((String::from_str("createdAt"), Some(String::from_str(created_at))));
    let inner = encode_object(&pairs);
    out.append(inner.as_str());
    push_char(&mut out, '}');
    proof {
        assert(pair_seq_view(pairs@) =~= seq![("text"@, Some(text@)), ("createdAt"@, Some(
            created_at@,
        ))]);
        assert(out@ =~= spec_post_request_body(did@, text@, created_at@));
    }
    out
}

/// Relies on chrono's `Utc::now` and `DateTime::to_rfc3339`: the clock's
/// current instant as an RFC 3339 / ISO 8601 timestamp, such as
/// `1996-12-19T16:39:57+00:00` — in particular never empty. The value
/// depends on the clock, so nothing more is promised of it; `Utc::now`
/// demands a system clock no earlier than the Unix epoch.
#[verifier::external_body]
pub fn now_rfc3339() -> (r: String)
    ensures
        r@.len() > 0,
{
    chrono::Utc::now().to_rfc3339()
}

} // verus!
