//! The Twitter adapter: an OAuth2 code flow with PKCE, a refresh token, and
//! a reauthorization that needs the user's fresh code. This module builds
//! the requests and reads the answers; the HTTP transport lives outside the
//! library.
//!
//! The code flow's PKCE pair is a fixed `challenge`/`plain` constant; a
//! fresh random verifier per attempt would be sounder, but the adapter
//! states what the flow actually sends.

use vstd::prelude::*;
use vstd::string::StrSliceExecFns;
use vstd::string::StringExecFns;
use crate::json::{
    enc_object, encode_object, find_value, lemma_object_round_trip, lookup_string, opt_str_view,
    pair_seq_view, parse_object, parse_object_str, spec_lookup_string, SpecPair,
};
use crate::protocol::AuthError;
use crate::text::{clone_opt_string, clone_string, str_pairs_view};
use crate::token::TokenRecord;

verus! {

/// The token record persisted for Twitter. The provider may or may not
/// grant a refresh token alongside the access token.
pub struct TokenData {
    pub access_token: String,
    pub refresh_token: Option<String>,
}

/// The record's view.
pub struct TokenDataV {
    pub access_token: Seq<char>,
    pub refresh_token: Option<Seq<char>>,
}

impl View for TokenData {
    type V = TokenDataV;

    open spec fn view(&self) -> TokenDataV {
        TokenDataV {
            access_token: self.access_token@,
            refresh_token: opt_str_view(self.refresh_token),
        }
    }
}

impl TokenData {
    /// The record in the platform-independent shape the protocol runs on.
    pub fn to_record(&self) -> (r: TokenRecord)
        ensures
            r.access_token == self.access_token,
            r.refresh_token == self.refresh_token,
            r.subject_id is None,
    {
        TokenRecord {
            access_token: clone_string(&self.access_token),
            refresh_token: clone_opt_string(&self.refresh_token),
            subject_id: None,
        }
    }
}

/// The members of the token file: an absent refresh token is written as
/// `null`.
pub open spec fn spec_store_pairs(t: TokenDataV) -> Seq<SpecPair> {
    seq![("access_token"@, Some(t.access_token)), ("refresh_token"@, t.refresh_token)]
}

/// What the token file holds for a record.
pub open spec fn spec_encode_tokens(t: TokenDataV) -> Seq<char> {
    enc_object(spec_store_pairs(t))
}

/// The record a token file's text holds: the access token must be a string;
/// the refresh token reads as absent when missing, `null` or not a string.
pub open spec fn spec_parse_tokens(s: Seq<char>) -> Option<TokenDataV> {
    match parse_object(s) {
        Some(ps) => match spec_lookup_string(ps, "access_token"@) {
            Some(a) => Some(
                TokenDataV { access_token: a, refresh_token: spec_lookup_string(ps, "refresh_token"@) },
            ),
            None => None,
        },
        None => None,
    }
}

/// Encodes a record for its token file.
pub fn encode_tokens(t: &TokenData) -> (r: String)
    ensures
        r@ == spec_encode_tokens(t@),
{
    let mut pairs: Vec<(String, Option<String>)> = Vec::new();
    pairs.push((String::from_str("access_token"), Some(clone_string(&t.access_token))));
    pairs.push((String::from_str("refresh_token"), clone_opt_string(&t.refresh_token)));
    let r = encode_object(&pairs);
    proof {
        assert(pair_seq_view(pairs@) =~= spec_store_pairs(t@));
    }
    r
}

/// Reads a record back out of its token file's text. A file that does not
/// parse gives nothing — indistinguishable from never having authorized.
pub fn parse_tokens(s: &str) -> (r: Option<TokenData>)
    ensures
        (match r {
            Some(t) => spec_parse_tokens(s@) == Some(t@),
            None => spec_parse_tokens(s@) is None,
        }),
{
    match parse_object_str(s) {
        Some(ps) => match lookup_string(&ps, "access_token") {
            Some(a) => {
                let rt = lookup_string(&ps, "refresh_token");
                Some(TokenData { access_token: a, refresh_token: rt })
            },
            None => None,
        },
        None => None,
    }
}

/// The token file's two keys name two distinct members.
proof fn lemma_store_keys_distinct()
    ensures
        "access_token"@ != "refresh_token"@,
{
    reveal_strlit("access_token");
    reveal_strlit("refresh_token");
    assert("access_token"@.len() == 12);
    assert("refresh_token"@.len() == 13);
}

/// Loading what was saved returns the record exactly, with or without a
/// refresh token.
pub proof fn lemma_tokens_round_trip(t: TokenDataV)
    ensures
        spec_parse_tokens(spec_encode_tokens(t)) == Some(t),
{
    let ps = spec_store_pairs(t);
    lemma_object_round_trip(ps);
    lemma_store_keys_distinct();
    let ps1 = ps.drop_first();
    assert(ps1 =~= seq![("refresh_token"@, t.refresh_token)]);
    assert(ps[0].0 == "access_token"@ && ps1[0].0 == "refresh_token"@);
    assert(find_value(ps, "access_token"@) == Some(Some(t.access_token)));
    assert(find_value(ps1, "refresh_token"@) == Some(t.refresh_token));
    assert(find_value(ps, "refresh_token"@) == find_value(ps1, "refresh_token"@));
}

/// The stored bearer token a token file's contents carry; an absent file
/// means an absent token.
pub open spec fn spec_bearer_of(s: Seq<char>) -> Option<Seq<char>> {
    match spec_parse_tokens(s) {
        Some(t) => Some(t.access_token),
        None => None,
    }
}

/// The bearer token out of the token file, given the file's contents where
/// the file exists.
pub fn load_bearer_token(contents: Option<&str>) -> (r: Option<String>)
    ensures
        opt_str_view(r) == (match contents {
            Some(s) => spec_bearer_of(s@),
            None => None::<Seq<char>>,
        }),
{
    match contents {
        Some(s) => match parse_tokens(s) {
            Some(t) => Some(t.access_token),
            None => None,
        },
        None => None,
    }
}

/// Where codes and refresh tokens are exchanged for access tokens.
pub fn token_url() -> (r: &'static str)
    ensures
        r@ == "https://api.twitter.com/2/oauth2/token"@,
{
    "https://api.twitter.com/2/oauth2/token"
}

/// Where a tweet is created.
pub fn tweets_url() -> (r: &'static str)
    ensures
        r@ == "https://api.twitter.com/2/tweets"@,
{
    "https://api.twitter.com/2/tweets"
}

/// The authorization page, before its query is attached.
pub fn authorize_base_url() -> (r: &'static str)
    ensures
        r@ == "https://twitter.com/i/oauth2/authorize"@,
{
    "https://twitter.com/i/oauth2/authorize"
}

/// The serialization of `base` as an absolute URL with the given pairs
/// appended to its query, each percent-encoded — what the `url` crate
/// builds. A function of the inputs alone.
pub uninterp spec fn url_with_query(base: Seq<char>, pairs: Seq<(Seq<char>, Seq<char>)>) -> Seq<
    char,
>;

/// Whether `base` parses as an absolute URL — `url::Url::parse` decides
/// this from the input alone.
pub uninterp spec fn url_parse_ok(base: Seq<char>) -> bool;

/// Relies on the `url` crate: `Url::parse` returns `Err` exactly when the
/// input does not parse as an absolute URL, deciding from the input alone;
/// `query_pairs_mut().extend_pairs` appends each name/value pair to the
/// URL's query, percent-encoded; `to_string` writes the URL's
/// serialization. The whole result is a function of `base` and `pairs`.
#[verifier::external_body]
fn build_url(base: &str, pairs: &Vec<(String, String)>) -> (r: Option<String>)
    ensures
        r is Some <==> url_parse_ok(base@),
        (match r {
            Some(u) => u@ == url_with_query(base@, str_pairs_view(pairs@)),
            None => true,
        }),
{
    match url::Url::parse(base) {
        Ok(mut u) => {
            u.query_pairs_mut().extend_pairs(pairs.iter());
            Some(u.to_string())
        },
        Err(_) => None,
    }
}

/// The query of the authorization URL: the code flow's response type,
/// client, redirect target, scopes, state, and the fixed PKCE pair.
pub open spec fn spec_auth_params(client_id: Seq<char>, redirect_uri: Seq<char>) -> Seq<
    (Seq<char>, Seq<char>),
> {
    seq![
        ("response_type"@, "code"@),
        ("client_id"@, client_id),
        ("redirect_uri"@, redirect_uri),
        ("scope"@, "tweet.read tweet.write users.read"@),
        ("state"@, "state"@),
        ("code_challenge"@, "challenge"@),
        ("code_challenge_method"@, "plain"@),
    ]
}

/// Generates the OAuth2 authorization URL the user must visit for a code.
pub fn generate_auth_url(client_id: &str, redirect_uri: &str) -> (r: Option<String>)
    ensures
        r is Some <==> url_parse_ok("https://twitter.com/i/oauth2/authorize"@),
        (match r {
            Some(u) => u@ == url_with_query(
                "https://twitter.com/i/oauth2/authorize"@,
                spec_auth_params(client_id@, redirect_uri@),
            ),
            None => true,
        }),
{
    let mut pairs: Vec<(String, String)> = Vec::new();
    pairs.push((String::from_str("response_type"), String::from_str("code")));
    pairs.push((String::from_str("client_id"), String::from_str(client_id)));
    pairs.push((String::from_str("redirect_uri"), String::from_str(redirect_uri)));
    pairs.push((String::from_str("scope"), String::from_str("tweet.read tweet.write users.read")));
    pairs.push((String::from_str("state"), String::from_str("state")));
    pairs.push((String::from_str("code_challenge"), String::from_str("challenge")));
    pairs.push((String::from_str("code_challenge_method"), String::from_str("plain")));
    proof {
        assert(str_pairs_view(pairs@) =~= spec_auth_params(client_id@, redirect_uri@));
    }
    build_url(authorize_base_url(), &pairs)
}

/// The form parameters of a refresh-token exchange.
pub open spec fn spec_refresh_params(refresh_token: Seq<char>, client_id: Seq<char>) -> Seq<
    (Seq<char>, Seq<char>),
> {
    seq![("refresh_token"@, refresh_token), ("grant_type"@, "refresh_token"@), ("client_id"@, client_id)]
}

/// Builds the form parameters that exchange the refresh token for a new
/// access token.
pub fn refresh_params(refresh_token: &str, client_id: &str) -> (r: Vec<(String, String)>)
    ensures
        str_pairs_view(r@) == spec_refresh_params(refresh_token@, client_id@),
{
    let mut r: Vec<(String, String)> = Vec::new();
    r.push((String::from_str("refresh_token"), String::from_str(refresh_token)));
    r.push((String::from_str("grant_type"), String::from_str("refresh_token")));
    r.push((String::from_str("client_id"), String::from_str(client_id)));
    proof {
        assert(str_pairs_view(r@) =~= spec_refresh_params(refresh_token@, client_id@));
    }
    r
}

/// The form parameters of a code-for-token exchange; the code verifier is
/// the fixed PKCE constant matching the challenge in the authorization URL.
pub open spec fn spec_exchange_params(
    code: Seq<char>,
    client_id: Seq<char>,
    redirect_uri: Seq<char>,
) -> Seq<(Seq<char>, Seq<char>)> {
    seq![
        ("code"@, code),
        ("grant_type"@, "authorization_code"@),
        ("client_id"@, client_id),
        ("redirect_uri"@, redirect_uri),
        ("code_verifier"@, "challenge"@),
    ]
}

/// Builds the form parameters that exchange an authorization code for
/// tokens.
pub fn exchange_params(code: &str, client_id: &str, redirect_uri: &str) -> (r: Vec<
    (String, String),
>)
    ensures
        str_pairs_view(r@) == spec_exchange_params(code@, client_id@, redirect_uri@),
{
    let mut r: Vec<(String, String)> = Vec::new();
    r.push((String::from_str("code"), String::from_str(code)));
    r.push((String::from_str("grant_type"), String::from_str("authorization_code")));
    r.push((String::from_str("client_id"), String::from_str(client_id)));
    r.push((String::from_str("redirect_uri"), String::from_str(redirect_uri)));
    r.push((String::from_str("code_verifier"), String::from_str("challenge")));
    proof {
        assert(str_pairs_view(r@) =~= spec_exchange_params(code@, client_id@, redirect_uri@));
    }
    r
}

/// The record a token-exchange or refresh answer's body grants: the body
/// must parse and carry a non-empty access token; a refresh token may come
/// along.
pub open spec fn spec_token_of(body: Seq<char>) -> Option<TokenDataV> {
    match spec_parse_tokens(body) {
        Some(t) => if t.access_token.len() > 0 {
            Some(t)
        } else {
            None
        },
        None => None,
    }
}

/// Reads a grant answer's body.
fn parse_token_body(s: &str) -> (r: Option<TokenData>)
    ensures
        (match r {
            Some(t) => spec_token_of(s@) == Some(t@) && t.access_token@.len() > 0,
            None => spec_token_of(s@) is None,
        }),
{
    match parse_tokens(s) {
        Some(t) => {
            if t.access_token.unicode_len() > 0 {
                Some(t)
            } else {
                None
            }
        },
        None => None,
    }
}

/// Reads the answer of the code-for-token exchange. A success status whose
/// body grants a token yields the record; anything else is a rejected grant
/// carrying the body for diagnostics.
pub fn handle_token_response(status: u16, body: String) -> (r: Result<TokenData, AuthError>)
    ensures
        r is Ok <==> (200 <= status < 300 && spec_token_of(body@) is Some),
        (match r {
            Ok(t) => Some(t@) == spec_token_of(body@) && t.access_token@.len() > 0,
            Err(e) => e == AuthError::Rejected(body),
        }),
{
    if 200 <= status && status < 300 {
        match parse_token_body(body.as_str()) {
            Some(t) => Ok(t),
            None => Err(AuthError::Rejected(body)),
        }
    } else {
        Err(AuthError::Rejected(body))
    }
}

/// Reads the answer of a refresh exchange: the same grant shape, but a
/// failure means the refresh token itself is spent, which the caller must
/// take as the cue to reauthorize in full.
pub fn handle_refresh_response(status: u16, body: String) -> (r: Result<TokenData, AuthError>)
    ensures
        r is Ok <==> (200 <= status < 300 && spec_token_of(body@) is Some),
        (match r {
            Ok(t) => Some(t@) == spec_token_of(body@) && t.access_token@.len() > 0,
            Err(e) => e == AuthError::RefreshRejected(body),
        }),
{
    if 200 <= status && status < 300 {
        match parse_token_body(body.as_str()) {
            Some(t) => Ok(t),
            None => Err(AuthError::RefreshRejected(body)),
        }
    } else {
        Err(AuthError::RefreshRejected(body))
    }
}

/// The body of a tweet-creation call.
pub open spec fn spec_tweet_body(text: Seq<char>) -> Seq<char> {
    enc_object(seq![("text"@, Some(text))])
}

/// Builds the JSON body that posts a tweet.
pub fn tweet_request_body(text: &str) -> (r: String)
    ensures
        r@ == spec_tweet_body(text@),
{
    let mut pairs: Vec<(String, Option<String>)> = Vec::new();
    pairs.push((String::from_str("text"), Some(String::from_str(text))));
    let r = encode_object(&pairs);
    proof {
        assert(pair_seq_view(pairs@) =~= seq![("text"@, Some(text@))]);
    }
    r
}

} // verus!
