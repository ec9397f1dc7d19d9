//! The records the relay keeps and the payloads it exchanges.

use crate::clock::{expired_at, is_expired_between, now_millis};
use crate::pkce::{
    challenge_of, encodes_entropy, generate_code_challenge, generate_code_verifier,
    generate_state, STATE_ENTROPY_BYTES, VERIFIER_ENTROPY_BYTES,
};
use uuid::Uuid;
use vstd::prelude::*;

verus! {

/// Minutes a pending authorization stays valid unless configured otherwise.
pub const DEFAULT_EXPIRE_MINUTES: u32 = 30;

/// The uniform envelope of a successful reply.
#[derive(Debug)]
pub struct ApiResponse<T> {
    pub success: bool,
    pub data: T,
    pub message: String,
}

impl<T> ApiResponse<T> {
    /// A successful reply with the stock message.
    pub fn success(data: T) -> (reply: Self)
        ensures
            reply.success,
            reply.data == data,
            reply.message@ == "操作成功"@,
    {
        ApiResponse { success: true, data, message: "操作成功".to_string() }
    }

    /// A successful reply with a message of the caller's.
    pub fn success_with_message(data: T, message: String) -> (reply: Self)
        ensures
            reply.success,
            reply.data == data,
            reply.message == message,
    {
        ApiResponse { success: true, data, message }
    }
}

/// The uniform envelope of a failed reply. It carries no data.
#[derive(Debug)]
pub struct ErrorResponse {
    pub success: bool,
    pub message: String,
}

impl ErrorResponse {
    pub fn new(message: String) -> (reply: Self)
        ensures
            !reply.success,
            reply.message == message,
    {
        ErrorResponse { success: false, message }
    }
}

/// One pending authorization, keyed by its state token.
#[derive(Debug)]
pub struct OAuthState {
    pub code_verifier: String,
    pub code_challenge: String,
    pub state: String,
    /// Creation instant, in milliseconds since the Unix epoch.
    pub creation_time: i64,
}

/// Mathematical model of an `OAuthState`.
pub struct OAuthStateView {
    pub code_verifier: Seq<char>,
    pub code_challenge: Seq<char>,
    pub state: Seq<char>,
    pub creation_time: int,
}

impl OAuthStateView {
    /// The challenge is the one derived from the verifier.
    pub open spec fn well_formed(self) -> bool {
        self.code_challenge == challenge_of(self.code_verifier)
    }

    /// Whether the record has expired at `now` under a window in minutes.
    pub open spec fn expired(self, now: int, window_minutes: int) -> bool {
        expired_at(self.creation_time, now, window_minutes)
    }
}

impl View for OAuthState {
    type V = OAuthStateView;

    open spec fn view(&self) -> OAuthStateView {
        OAuthStateView {
            code_verifier: self.code_verifier@,
            code_challenge: self.code_challenge@,
            state: self.state@,
            creation_time: self.creation_time as int,
        }
    }
}

impl Clone for OAuthState {
    fn clone(&self) -> (copy: Self)
        ensures
            copy@ == self@,
    {
        OAuthState {
            code_verifier: self.code_verifier.clone(),
            code_challenge: self.code_challenge.clone(),
            state: self.state.clone(),
            creation_time: self.creation_time,
        }
    }
}

impl OAuthState {
    /// A fresh record: a random verifier, its challenge, a random state
    /// token, stamped with the current time.
    pub fn new() -> (record: Self)
        ensures
            record@.well_formed(),
            encodes_entropy(record@.code_verifier, VERIFIER_ENTROPY_BYTES as nat),
            encodes_entropy(record@.state, STATE_ENTROPY_BYTES as nat),
    {
        let code_verifier = generate_code_verifier();
        let state = generate_state();
        OAuthState::with_tokens(code_verifier, state, now_millis())
    }

    /// The record for a given verifier and state token, created at
    /// `creation_time`. The challenge is derived from the verifier.
    pub fn with_tokens(code_verifier: String, state: String, creation_time: i64) -> (record: Self)
        ensures
            record@.well_formed(),
            record@.code_verifier == code_verifier@,
            record@.state == state@,
            record@.creation_time == creation_time,
    {
        let code_challenge = generate_code_challenge(code_verifier.as_str());
        OAuthState { code_verifier, code_challenge, state, creation_time }
    }

    /// Whether the record has outlived the default window by now. The
    /// answer is the one `is_expired_at` gives for the instant the clock
    /// showed.
    pub fn is_expired(&self) -> (expired: bool)
        ensures
            exists|now: int| expired == self@.expired(now, DEFAULT_EXPIRE_MINUTES as int),
    {
        let now = now_millis();
        let expired = self.is_expired_at(now, DEFAULT_EXPIRE_MINUTES);
        assert(expired == self@.expired(now as int, DEFAULT_EXPIRE_MINUTES as int));
        expired
    }

    /// Whether the record has expired at `now` (milliseconds since the Unix
    /// epoch) under a window of `window_minutes`.
    pub fn is_expired_at(&self, now: i64, window_minutes: u32) -> (expired: bool)
        ensures
            expired == self@.expired(now as int, window_minutes as int),
    {
        is_expired_between(self.creation_time, now, window_minutes)
    }
}

/// What a request for an authorization link is answered with.
#[derive(Debug)]
pub struct AuthUrlData {
    pub authorize_url: String,
    pub state: String,
}

/// A request to complete an authorization.
#[derive(Debug)]
pub struct CompleteAuthRequest {
    pub code: String,
    pub state: String,
    pub tenant_url: String,
}

/// What a completed authorization is answered with.
#[derive(Debug)]
pub struct CompleteAuthData {
    pub status: String,
    pub token: String,
    pub tenant_url: String,
    pub token_info: TokenInfo,
}

/// Identity of an issued token.
#[derive(Debug)]
pub struct TokenInfo {
    pub id: String,
    /// Issue instant, in milliseconds since the Unix epoch.
    pub created_at: i64,
}

/// Whether a character is a hexadecimal digit in lower case.
pub open spec fn is_lower_hex(c: char) -> bool {
    ('0' <= c && c <= '9') || ('a' <= c && c <= 'f')
}

/// Whether a position in the text of a token id holds a hyphen: the text
/// runs in groups of 8, 4, 4, 4 and 12 digits.
pub open spec fn is_hyphen_position(at: int) -> bool {
    at == 8 || at == 13 || at == 18 || at == 23
}

/// Whether `id` is the text of a random (version 4) UUID: 36 characters,
/// hexadecimal digits in lower case in groups parted by hyphens, with the
/// version digit `4` at the head of the third group and one of the variant
/// digits `8`, `9`, `a`, `b` at the head of the fourth.
pub open spec fn is_token_id(id: Seq<char>) -> bool {
    &&& id.len() == 36
    &&& forall|at: int|
        0 <= at < 36 ==> if is_hyphen_position(at) {
            #[trigger] id[at] == '-'
        } else {
            is_lower_hex(id[at])
        }
    &&& id[14] == '4'
    &&& (id[19] == '8' || id[19] == '9' || id[19] == 'a' || id[19] == 'b')
}

/// `Uuid::new_v4` of the `uuid` crate, read through its `Display` text: a
/// random identifier. Which one is not known beforehand; whichever it is,
/// its text has the hyphenated lower-case form of a version 4 UUID.
#[verifier::external_body]
fn random_token_id() -> (id: String)
    ensures
        is_token_id(id@),
{
    Uuid::new_v4().to_string()
}

impl TokenInfo {
    /// Identity for a token issued now, under a fresh random id: the text
    /// of a version 4 UUID. The issue instant is the one the clock showed.
    pub fn new() -> (info: Self)
        ensures
            is_token_id(info.id@),
    {
        TokenInfo { id: random_token_id(), created_at: now_millis() }
    }
}

impl CompleteAuthData {
    /// The reply data for an access token obtained from `tenant_url`.
    pub fn issued(token: String, tenant_url: String, token_info: TokenInfo) -> (data: Self)
        ensures
            data.status@ == "success"@,
            data.token == token,
            data.tenant_url == tenant_url,
            data.token_info == token_info,
    {
        CompleteAuthData { status: "success".to_string(), token, tenant_url, token_info }
    }
}

/// The body of a token exchange request.
#[derive(Debug)]
pub struct TokenExchangeRequest {
    pub grant_type: String,
    pub client_id: String,
    pub code_verifier: String,
    pub redirect_uri: String,
    pub code: String,
}

impl TokenExchangeRequest {
    /// The request that redeems `code` under `code_verifier`: the grant
    /// type is the authorization-code grant and the redirect URI is empty.
    pub fn authorization_code(client_id: &str, code_verifier: &str, code: &str) -> (request: Self)
        ensures
            request.grant_type@ == "authorization_code"@,
            request.client_id@ == client_id@,
            request.code_verifier@ == code_verifier@,
            request.redirect_uri@ == Seq::<char>::empty(),
            request.code@ == code@,
    {
        TokenExchangeRequest {
            grant_type: "authorization_code".to_string(),
            client_id: client_id.to_string(),
            code_verifier: code_verifier.to_string(),
            redirect_uri: String::new(),
            code: code.to_string(),
        }
    }
}

/// The body of a successful token exchange reply.
#[derive(Debug)]
pub struct TokenExchangeResponse {
    pub access_token: String,
    pub token_type: Option<String>,
    pub expires_in: Option<u64>,
    pub refresh_token: Option<String>,
}

} // verus!
