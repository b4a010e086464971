//! The Mastodon adapter: an OAuth2 code flow against a fixed instance, no
//! refresh token — a spent access token means reauthorizing from a fresh
//! code. This module builds the requests and reads the answers; the HTTP
//! transport lives outside the library.

use vstd::prelude::*;
use vstd::string::StringExecFns;
use crate::json::{
    enc_object, encode_object, pair_seq_view, parse_object, parse_object_str, lookup_string,
    spec_lookup_string, find_value, lemma_object_round_trip, SpecPair,
};
use crate::protocol::AuthError;
use crate::text::{clone_string, str_pairs_view};
use crate::token::TokenRecord;

verus! {

/// The token record persisted for Mastodon. The platform's grant carries no
/// refresh token, so only the access token survives.
pub struct TokenData {
    pub access_token: String,
}

/// The record's view.
pub struct TokenDataV {
    pub access_token: Seq<char>,
}

impl View for TokenData {
    type V = TokenDataV;

    open spec fn view(&self) -> TokenDataV {
        TokenDataV { access_token: self.access_token@ }
    }
}

impl TokenData {
    /// The record in the platform-independent shape the protocol runs on.
    pub fn to_record(&self) -> (r: TokenRecord)
        ensures
            r.access_token == self.access_token,
            r.refresh_token is None,
            r.subject_id is None,
    {
        TokenRecord {
            access_token: clone_string(&self.access_token),
            refresh_token: None,
            subject_id: None,
        }
    }
}

/// The members of the token file.
pub open spec fn spec_store_pairs(t: TokenDataV) -> Seq<SpecPair> {
    seq![("access_token"@, Some(t.access_token))]
}

/// What the token file holds for a record.
pub open spec fn spec_encode_tokens(t: TokenDataV) -> Seq<char> {
    enc_object(spec_store_pairs(t))
}

/// The record a token file's text holds, if it parses and carries the
/// access token as a string.
pub open spec fn spec_parse_tokens(s: Seq<char>) -> Option<TokenDataV> {
    match parse_object(s) {
        Some(ps) => match spec_lookup_string(ps, "access_token"@) {
            Some(a) => Some(TokenDataV { access_token: a }),
            None => None,
        },
        None => None,
    }
}

/// Encodes a record for its token file.
pub fn encode_tokens(t: &TokenData) -> (r: String)
    ensures
        r@ == spec_encode_tokens(t@),
{
    let mut pairs: Vec<(String, Option<String>)> = Vec::new();
    pairs.push((String::from_str("access_token"), Some(clone_string(&t.access_token))));
    let r = encode_object(&pairs);
    proof {
        assert(pair_seq_view(pairs@) =~= spec_store_pairs(t@));
    }
    r
}

/// Reads a record back out of its token file's text. A file that does not
/// parse gives nothing — indistinguishable from never having authorized.
pub fn parse_tokens(s: &str) -> (r: Option<TokenData>)
    ensures
        (match r {
            Some(t) => spec_parse_tokens(s@) == Some(t@),
            None => spec_parse_tokens(s@) is None,
        }),
{
    match parse_object_str(s) {
        Some(ps) => match lookup_string(&ps, "access_token") {
            Some(a) => Some(TokenData { access_token: a }),
            None => None,
        },
        None => None,
    }
}

/// Loading what was saved returns the record exactly.
pub proof fn lemma_tokens_round_trip(t: TokenDataV)
    ensures
        spec_parse_tokens(spec_encode_tokens(t)) == Some(t),
{
    let ps = spec_store_pairs(t);
    lemma_object_round_trip(ps);
    assert(find_value(ps, "access_token"@) == Some(Some(t.access_token)));
}

/// The instance's API base.
pub fn api_base_url() -> (r: &'static str)
    ensures
        r@ == "https://fosstodon.org"@,
{
    "https://fosstodon.org"
}

/// The instance's OAuth base.
pub fn oauth_base_url() -> (r: &'static str)
    ensures
        r@ == "https://fosstodon.org/oauth"@,
{
    "https://fosstodon.org/oauth"
}

/// The provider authorization page the user must visit for a code.
pub open spec fn spec_auth_url(client_id: Seq<char>) -> Seq<char> {
    "https://fosstodon.org/oauth/authorize?response_type=code&client_id="@ + client_id
        + "&redirect_uri=urn:ietf:wg:oauth:2.0:oob&scope=write:statuses"@
}

/// Generates the authorization URL for this instance. The client id goes
/// into the query as given, unencoded.
pub fn generate_auth_url(client_id: &str) -> (r: String)
    ensures
        r@ == spec_auth_url(client_id@),
{
    let mut r = String::from_str(
        "https://fosstodon.org/oauth/authorize?response_type=code&client_id=",
    );
    r.append(client_id);
    r.append("&redirect_uri=urn:ietf:wg:oauth:2.0:oob&scope=write:statuses");
    r
}

/// The form parameters of the code-for-token exchange.
pub open spec fn spec_token_request_params(
    client_id: Seq<char>,
    client_secret: Seq<char>,
    code: Seq<char>,
) -> Seq<(Seq<char>, Seq<char>)> {
    seq![
        ("grant_type"@, "authorization_code"@),
        ("client_id"@, client_id),
        ("client_secret"@, client_secret),
        ("redirect_uri"@, "urn:ietf:wg:oauth:2.0:oob"@),
        ("code"@, code),
    ]
}

/// Builds the form parameters that exchange an authorization code for an
/// access token at the instance's token endpoint.
pub fn token_request_params(client_id: &str, client_secret: &str, code: &str) -> (r: Vec<
    (String, String),
>)
    ensures
        str_pairs_view(r@) == spec_token_request_params(client_id@, client_secret@, code@),
{
    let mut r: Vec<(String, String)> = Vec::new();
    r.push((String::from_str("grant_type"), String::from_str("authorization_code")));
    r.push((String::from_str("client_id"), String::from_str(client_id)));
    r.push((String::from_str("client_secret"), String::from_str(client_secret)));
    r.push((String::from_str("redirect_uri"), String::from_str("urn:ietf:wg:oauth:2.0:oob")));
    r.push((String::from_str("code"), String::from_str(code)));
    proof {
        assert(str_pairs_view(r@) =~= spec_token_request_params(client_id@, client_secret@, code@));
    }
    r
}

/// The record a token-exchange answer's body grants: the body must parse
/// and carry a non-empty access token as a string.
pub open spec fn spec_token_of(body: Seq<char>) -> Option<TokenDataV> {
    match spec_parse_tokens(body) {
        Some(t) => if t.access_token.len() > 0 {
            Some(t)
        } else {
            None
        },
        None => None,
    }
}

/// Reads the answer of the code-for-token exchange. A success status whose
/// body grants a token yields the record; anything else is a rejected grant
/// carrying the body for diagnostics — `authorized` stays false and nothing
/// is persisted.
pub fn handle_token_response(status: u16, body: String) -> (r: Result<TokenData, AuthError>)
    ensures
        r is Ok <==> (200 <= status < 300 && spec_token_of(body@) is Some),
        (match r {
            Ok(t) => Some(t@) == spec_token_of(body@) && t@.access_token.len() > 0,
            Err(e) => e == AuthError::Rejected(body),
        }),
{
    if 200 <= status && status < 300 {
        match parse_tokens(body.as_str()) {
            Some(t) => {
                if t.access_token.unicode_len() > 0 {
                    Ok(t)
                } else {
                    Err(AuthError::Rejected(body))
                }
            },
            None => Err(AuthError::Rejected(body)),
        }
    } else {
        Err(AuthError::Rejected(body))
    }
}

/// The endpoint a status goes to.
pub fn statuses_url() -> (r: &'static str)
    ensures
        r@ == "https://fosstodon.org/api/v1/statuses"@,
{
    "https://fosstodon.org/api/v1/statuses"
}

/// The body of a status-creation call.
pub open spec fn spec_status_body(text: Seq<char>) -> Seq<char> {
    enc_object(seq![("status"@, Some(text))])
}

/// Builds the JSON body that posts a status.
pub fn status_request_body(text: &str) -> (r: String)
    ensures
        r@ == spec_status_body(text@),
{
    let mut pairs: Vec<(String, Option<String>)> = Vec::new();
    pairs.push((String::from_str("status"), Some(String::from_str(text))));
    let r = encode_object(&pairs);
    proof {
        assert(pair_seq_view(pairs@) =~= seq![("status"@, Some(text@))]);
    }
    r
}

} // verus!
