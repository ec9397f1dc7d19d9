//! The authorization service: the store of pending authorizations and the
//! steps of the flow that work on it.

use crate::clock::now_millis;
use crate::config::{default_config, AppConfig, OAuthConfig, OAuthConfigView};
use crate::error::OAuthError;
use crate::link::{link_text, link_with_params};
use crate::models::{OAuthState, OAuthStateView, TokenExchangeRequest, TokenExchangeResponse};
use crate::pkce::{encodes_entropy, STATE_ENTROPY_BYTES, VERIFIER_ENTROPY_BYTES};
use crate::store::{
    held, map_get, map_insert, map_keys, map_len, map_new, map_remove, Records,
};
use dashmap::DashMap;
use vstd::prelude::*;
use vstd::string::StringExecFns;

verus! {

/// Issues authorization links and keeps the pending authorizations.
pub struct OAuthService {
    /// Pending authorizations by state token.
    oauth_states: DashMap<String, OAuthState>,
    config: OAuthConfig,
}

/// The query of an authorization request: the authorization-code response
/// type, the challenge, the client, the state token, and a prompt that
/// forces a fresh login.
pub open spec fn authorize_query(
    client_id: Seq<char>,
    code_challenge: Seq<char>,
    state: Seq<char>,
) -> Seq<(Seq<char>, Seq<char>)> {
    seq![
        ("response_type"@, "code"@),
        ("code_challenge"@, code_challenge),
        ("client_id"@, client_id),
        ("state"@, state),
        ("prompt"@, "login"@),
    ]
}

/// The authorization link for a record under the given settings, if one
/// can be built.
pub open spec fn authorize_link(settings: OAuthConfigView, record: OAuthStateView) -> Option<
    Seq<char>,
> {
    link_text(
        settings.auth_url,
        authorize_query(settings.client_id, record.code_challenge, record.state),
    )
}

/// Every record is held under its own state token and carries the
/// challenge of its verifier.
pub open spec fn records_consistent(records: Records) -> bool {
    &&& records.dom().finite()
    &&& forall|token: Seq<char>| #[trigger]
        records.contains_key(token) ==> records[token].state == token
            && records[token].well_formed()
}

/// What is left of `records` once every record that has expired at `now`
/// is taken out.
pub open spec fn unexpired(records: Records, now: int, window_minutes: int) -> Records {
    records.restrict(
        Set::new(|token: Seq<char>| !records[token].expired(now, window_minutes)),
    )
}

/// The state tokens of the records that have expired at `now`.
pub open spec fn expired_tokens(records: Records, now: int, window_minutes: int) -> Set<
    Seq<char>,
> {
    records.dom().filter(|token: Seq<char>| records[token].expired(now, window_minutes))
}

/// The outcome of registering `record` with a service that held `before`:
/// with a link, the record is held afterwards and the link and the state
/// token are handed out; without one, nothing changes.
pub open spec fn registered(
    settings: OAuthConfigView,
    before: Records,
    after: Records,
    record: OAuthStateView,
    outcome: Result<(String, String), OAuthError>,
) -> bool {
    match outcome {
        Ok((url, state)) => {
            &&& authorize_link(settings, record) == Some(url@)
            &&& state@ == record.state
            &&& after == before.insert(record.state, record)
        },
        Err(error) => {
            &&& authorize_link(settings, record) is None
            &&& error is Fatal
            &&& after == before
        },
    }
}

/// The outcome of looking `token` up at `now` in a store that held
/// `before`: an unknown token is not found and nothing changes; an expired
/// record is taken out; a valid record is handed out and stays.
pub open spec fn validated(
    before: Records,
    after: Records,
    token: Seq<char>,
    now: int,
    window_minutes: int,
    outcome: Result<OAuthState, OAuthError>,
) -> bool {
    if !before.contains_key(token) {
        (outcome matches Err(OAuthError::NotFound)) && after == before
    } else if before[token].expired(now, window_minutes) {
        (outcome matches Err(OAuthError::Expired)) && after == before.remove(token)
    } else {
        (outcome matches Ok(record) && record@ == before[token]) && after == before
    }
}

/// A token exchange that is ready to be sent: where to post, and what.
#[derive(Debug)]
pub struct TokenExchangeCall {
    pub token_url: String,
    pub request: TokenExchangeRequest,
}

/// What came of sending a token exchange.
#[derive(Debug)]
pub enum UpstreamReply {
    /// No answer came: the request could not be sent, or it timed out.
    Unreachable { detail: String },
    /// The endpoint answered. `decoded` is the body read as a token
    /// reply, or says why it is none.
    Answered { status: u16, body: String, decoded: Result<TokenExchangeResponse, String> },
}

/// The token endpoint of a tenant: its URL with the segment `token`
/// appended, without doubling the separating slash.
pub open spec fn token_endpoint_text(tenant_url: Seq<char>) -> Seq<char> {
    if tenant_url.len() > 0 && tenant_url.last() == '/' {
        tenant_url + "token"@
    } else {
        tenant_url + "/token"@
    }
}

/// Whether a status reports success.
pub open spec fn is_success_status(status: u16) -> bool {
    200 <= status < 300
}

/// What a reply to a token exchange amounts to: the access token of a
/// successful, well-formed answer, or the upstream failure. A refusal
/// carries its status and body.
pub open spec fn reply_outcome(reply: UpstreamReply, outcome: Result<String, OAuthError>) -> bool {
    match reply {
        UpstreamReply::Unreachable { detail } => outcome matches Err(
            OAuthError::UpstreamError { status: None, detail: told },
        ) && told@ == detail@,
        UpstreamReply::Answered { status, body, decoded } => if !is_success_status(status) {
            outcome matches Err(OAuthError::UpstreamError { status: Some(code), detail: told })
                && code == status && told@ == body@
        } else {
            match decoded {
                Ok(token) => outcome matches Ok(access_token) && access_token@
                    == token.access_token@,
                Err(detail) => outcome matches Err(
                    OAuthError::UpstreamError { status: None, detail: told },
                ) && told@ == detail@,
            }
        },
    }
}

/// The token endpoint of `tenant_url`.
pub fn token_endpoint(tenant_url: &str) -> (endpoint: String)
    ensures
        endpoint@ == token_endpoint_text(tenant_url@),
{
    let mut ends_with_slash = false;
    for c in it: tenant_url.chars()
        invariant
            it.seq() == tenant_url@,
            ends_with_slash == (it.index() > 0 && tenant_url@[it.index() - 1] == '/'),
    {
        ends_with_slash = c == '/';
    }
    let mut endpoint = tenant_url.to_string();
    if ends_with_slash {
        endpoint.append("token");
    } else {
        endpoint.append("/token");
    }
    endpoint
}

/// Reads the outcome of a token exchange off the reply to it.
pub fn token_from_reply(reply: UpstreamReply) -> (outcome: Result<String, OAuthError>)
    ensures
        reply_outcome(reply, outcome),
{
    match reply {
        UpstreamReply::Unreachable { detail } => Err(
            OAuthError::UpstreamError { status: None, detail },
        ),
        UpstreamReply::Answered { status, body, decoded } => {
            if status < 200 || status >= 300 {
                Err(OAuthError::UpstreamError { status: Some(status), detail: body })
            } else {
                match decoded {
                    Ok(token) => Ok(token.access_token),
                    Err(detail) => Err(OAuthError::UpstreamError { status: None, detail }),
                }
            }
        },
    }
}

/// Whether `call` is the token exchange that redeems `code` under
/// `code_verifier` at the token endpoint of `tenant_url`: an
/// authorization-code grant for the client, with an empty redirect URI.
pub open spec fn is_exchange_call(
    call: TokenExchangeCall,
    client_id: Seq<char>,
    tenant_url: Seq<char>,
    code_verifier: Seq<char>,
    code: Seq<char>,
) -> bool {
    &&& call.token_url@ == token_endpoint_text(tenant_url)
    &&& call.request.grant_type@ == "authorization_code"@
    &&& call.request.client_id@ == client_id
    &&& call.request.code_verifier@ == code_verifier
    &&& call.request.redirect_uri@ == Seq::<char>::empty()
    &&& call.request.code@ == code
}

/// The outcome of starting an exchange at `now` with a store that held
/// `before`. A request with an empty field is invalid and the store is not
/// looked at; then the state token is looked up as in `validated`; a valid
/// record gives the exchange to send, under its verifier.
pub open spec fn exchange_begun(
    settings: OAuthConfigView,
    before: Records,
    after: Records,
    tenant_url: Seq<char>,
    state: Seq<char>,
    code: Seq<char>,
    now: int,
    outcome: Result<TokenExchangeCall, OAuthError>,
) -> bool {
    if code.len() == 0 || state.len() == 0 || tenant_url.len() == 0 {
        (outcome matches Err(OAuthError::InvalidRequest)) && after == before
    } else if !before.contains_key(state) {
        (outcome matches Err(OAuthError::NotFound)) && after == before
    } else if before[state].expired(now, settings.state_expire_minutes as int) {
        (outcome matches Err(OAuthError::Expired)) && after == before.remove(state)
    } else {
        (outcome matches Ok(call) && is_exchange_call(
            call,
            settings.client_id,
            tenant_url,
            before[state].code_verifier,
            code,
        )) && after == before
    }
}

/// The outcome of finishing an exchange with a store that held `before`:
/// what the reply amounts to, and the pending authorization is discarded
/// once a token has come. After a failure it stays, so that the exchange
/// can be tried again until it expires.
pub open spec fn exchange_finished(
    before: Records,
    after: Records,
    state: Seq<char>,
    reply: UpstreamReply,
    outcome: Result<String, OAuthError>,
) -> bool {
    &&& reply_outcome(reply, outcome)
    &&& after == if outcome is Ok {
        before.remove(state)
    } else {
        before
    }
}

impl OAuthService {
    /// The records held, by state token.
    pub closed spec fn records(&self) -> Records {
        held(self.oauth_states)
    }

    /// The settings the service runs with.
    pub closed spec fn settings(&self) -> OAuthConfigView {
        self.config@
    }

    /// The expiration window in minutes.
    pub open spec fn window_minutes(&self) -> int {
        self.settings().state_expire_minutes as int
    }

    #[verifier::type_invariant]
    spec fn consistent(self) -> bool {
        records_consistent(held(self.oauth_states))
    }

    /// A service with the default settings that holds nothing.
    pub fn new() -> (service: Self)
        ensures
            service.records() == Records::empty(),
            service.settings() == default_config().oauth,
    {
        OAuthService::with_config(AppConfig::default().oauth)
    }

    /// A service with the given settings that holds nothing.
    pub fn with_config(config: OAuthConfig) -> (service: Self)
        ensures
            service.records() == Records::empty(),
            service.settings() == config@,
    {
        OAuthService { oauth_states: map_new(), config }
    }

    /// The authorization link for `record` under the service's settings.
    pub fn authorize_url(&self, record: &OAuthState) -> (link: Result<String, OAuthError>)
        ensures
            match link {
                Ok(url) => authorize_link(self.settings(), record@) == Some(url@),
                Err(error) => authorize_link(self.settings(), record@) is None && error is Fatal,
            },
    {
        let mut params: Vec<(String, String)> = Vec::new();
        params.push(("response_type".to_string(), "code".to_string()));
        params.push(("code_challenge".to_string(), record.code_challenge.clone()));
        params.push(("client_id".to_string(), self.config.client_id.clone()));
        params.push(("state".to_string(), record.state.clone()));
        params.push(("prompt".to_string(), "login".to_string()));
        assert(params.deep_view() =~= authorize_query(
            self.config.client_id@,
            record.code_challenge@,
            record.state@,
        ));
        link_with_params(self.config.auth_url.as_str(), &params)
    }

    /// Registers a pending authorization: builds its link and, where there
    /// is one, holds the record under its state token.
    pub fn register(&mut self, record: OAuthState) -> (outcome: Result<(String, String), OAuthError>)
        requires
            record@.well_formed(),
        ensures
            final(self).settings() == old(self).settings(),
            registered(
                old(self).settings(),
                old(self).records(),
                final(self).records(),
                record@,
                outcome,
            ),
    {
        proof {
            use_type_invariant(&*self);
        }
        let state = record.state.clone();
        let url = match self.authorize_url(&record) {
            Ok(url) => url,
            Err(error) => {
                return Err(error);
            },
        };
        map_insert(&mut self.oauth_states, state.clone(), record);
        Ok((url, state))
    }

    /// Starts an authorization: creates a fresh pending authorization and
    /// hands out its link and its state token. The verifier stays with the
    /// service.
    pub fn generate_auth_url(&mut self) -> (outcome: Result<(String, String), OAuthError>)
        ensures
            final(self).settings() == old(self).settings(),
            exists|record: OAuthStateView|
                {
                    &&& record.well_formed()
                    &&& encodes_entropy(record.code_verifier, VERIFIER_ENTROPY_BYTES as nat)
                    &&& encodes_entropy(record.state, STATE_ENTROPY_BYTES as nat)
                    &&& #[trigger] registered(
                        old(self).settings(),
                        old(self).records(),
                        final(self).records(),
                        record,
                        outcome,
                    )
                },
    {
        let record = OAuthState::new();
        self.register(record)
    }

    /// Looks up the pending authorization under `state` and checks it
    /// against the clock.
    pub fn get_oauth_state(&mut self, state: &str) -> (outcome: Result<OAuthState, OAuthError>)
        ensures
            final(self).settings() == old(self).settings(),
            exists|now: int| #[trigger]
                validated(
                    old(self).records(),
                    final(self).records(),
                    state@,
                    now,
                    old(self).window_minutes(),
                    outcome,
                ),
            !old(self).records().contains_key(state@) ==> (outcome matches Err(
                OAuthError::NotFound,
            )) && final(self).records() == old(self).records(),
            outcome matches Ok(record) ==> record@.state == state@ && record@.well_formed(),
    {
        let now = now_millis();
        self.get_oauth_state_at(state, now)
    }

    /// Looks up the pending authorization under `state` as of `now`, in
    /// milliseconds since the Unix epoch.
    pub fn get_oauth_state_at(&mut self, state: &str, now: i64) -> (outcome: Result<
        OAuthState,
        OAuthError,
    >)
        ensures
            final(self).settings() == old(self).settings(),
            validated(
                old(self).records(),
                final(self).records(),
                state@,
                now as int,
                old(self).window_minutes(),
                outcome,
            ),
            outcome matches Ok(record) ==> record@.state == state@ && record@.well_formed(),
    {
        proof {
            use_type_invariant(&*self);
        }
        let record = match map_get(&self.oauth_states, state) {
            Some(record) => record,
            None => {
                return Err(OAuthError::NotFound);
            },
        };
        if record.is_expired_at(now, self.config.state_expire_minutes) {
            map_remove(&mut self.oauth_states, state);
            return Err(OAuthError::Expired);
        }
        Ok(record)
    }

    /// Discards the pending authorization under `state`, if there is one.
    pub fn clear_oauth_state(&mut self, state: &str)
        ensures
            final(self).settings() == old(self).settings(),
            final(self).records() == old(self).records().remove(state@),
    {
        proof {
            use_type_invariant(&*self);
        }
        map_remove(&mut self.oauth_states, state);
    }

    /// Discards every pending authorization that has expired by the clock.
    pub fn cleanup_expired_states(&mut self)
        ensures
            final(self).settings() == old(self).settings(),
            exists|now: int|
                final(self).records() == #[trigger] unexpired(
                    old(self).records(),
                    now,
                    old(self).window_minutes(),
                ),
    {
        let now = now_millis();
        self.cleanup_expired_states_at(now);
    }

    /// Discards every pending authorization that has expired at `now`, in
    /// milliseconds since the Unix epoch, and keeps every other one.
    pub fn cleanup_expired_states_at(&mut self, now: i64)
        ensures
            final(self).settings() == old(self).settings(),
            final(self).records() == unexpired(
                old(self).records(),
                now as int,
                old(self).window_minutes(),
            ),
    {
        proof {
            use_type_invariant(&*self);
        }
        let ghost before = self.records();
        let ghost window = self.window_minutes();
        let keys = map_keys(&self.oauth_states);
        let mut at: usize = 0;
        while at < keys.len()
            invariant
                at <= keys.len(),
                records_consistent(self.records()),
                self.settings() == old(self).settings(),
                window == self.window_minutes(),
                forall|token: Seq<char>| #[trigger]
                    before.contains_key(token) ==> exists|i: int|
                        0 <= i < keys@.len() && #[trigger] keys@[i]@ == token,
                forall|token: Seq<char>| #[trigger]
                    self.records().contains_key(token) ==> before.contains_key(token)
                        && self.records()[token] == before[token],
                forall|token: Seq<char>| #[trigger]
                    before.contains_key(token) && !before[token].expired(now as int, window)
                        ==> self.records().contains_key(token),
                forall|i: int|
                    0 <= i < at && before.contains_key(#[trigger] keys@[i]@) && before[keys@[i]@].expired(
                        now as int,
                        window,
                    ) ==> !self.records().contains_key(keys@[i]@),
            decreases keys.len() - at,
        {
            let key = keys[at].as_str();
            match map_get(&self.oauth_states, key) {
                Some(record) => {
                    if record.is_expired_at(now, self.config.state_expire_minutes) {
                        map_remove(&mut self.oauth_states, key);
                    }
                },
                None => {},
            }
            at = at + 1;
        }
        proof {
            let swept = unexpired(before, now as int, window);
            assert forall|token: Seq<char>| swept.contains_key(token) implies self.records().contains_key(
                token,
            ) by {}
            assert forall|token: Seq<char>| self.records().contains_key(token) implies swept.contains_key(
                token,
            ) by {
                if before[token].expired(now as int, window) {
                    let i = choose|i: int| 0 <= i < keys@.len() && #[trigger] keys@[i]@ == token;
                    assert(!self.records().contains_key(keys@[i]@));
                }
            }
            assert(self.records() =~= swept);
        }
    }

    /// The token exchange that redeems `code` at the tenant's token
    /// endpoint under `code_verifier`, for the service's client.
    pub fn exchange_call(&self, tenant_url: &str, code_verifier: &str, code: &str) -> (call:
        TokenExchangeCall)
        ensures
            call.token_url@ == token_endpoint_text(tenant_url@),
            call.request.grant_type@ == "authorization_code"@,
            call.request.client_id@ == self.settings().client_id,
            call.request.code_verifier@ == code_verifier@,
            call.request.redirect_uri@ == Seq::<char>::empty(),
            call.request.code@ == code@,
    {
        TokenExchangeCall {
            token_url: token_endpoint(tenant_url),
            request: TokenExchangeRequest::authorization_code(
                self.config.client_id.as_str(),
                code_verifier,
                code,
            ),
        }
    }

    /// Starts the exchange of `code` for a token, by the clock: checks the
    /// request, looks up the pending authorization under `state`, and
    /// hands out the exchange to send to the tenant.
    pub fn begin_exchange(&mut self, tenant_url: &str, state: &str, code: &str) -> (outcome: Result<
        TokenExchangeCall,
        OAuthError,
    >)
        ensures
            final(self).settings() == old(self).settings(),
            exists|now: int| #[trigger]
                exchange_begun(
                    old(self).settings(),
                    old(self).records(),
                    final(self).records(),
                    tenant_url@,
                    state@,
                    code@,
                    now,
                    outcome,
                ),
    {
        let now = now_millis();
        self.begin_exchange_at(tenant_url, state, code, now)
    }

    /// Starts the exchange of `code` for a token as of `now`, in
    /// milliseconds since the Unix epoch.
    pub fn begin_exchange_at(&mut self, tenant_url: &str, state: &str, code: &str, now: i64) -> (outcome:
        Result<TokenExchangeCall, OAuthError>)
        ensures
            final(self).settings() == old(self).settings(),
            exchange_begun(
                old(self).settings(),
                old(self).records(),
                final(self).records(),
                tenant_url@,
                state@,
                code@,
                now as int,
                outcome,
            ),
    {
        if code.is_empty() || state.is_empty() || tenant_url.is_empty() {
            return Err(OAuthError::InvalidRequest);
        }
        match self.get_oauth_state_at(state, now) {
            Ok(record) => Ok(self.exchange_call(tenant_url, record.code_verifier.as_str(), code)),
            Err(error) => Err(error),
        }
    }

    /// Finishes an exchange with the reply that came: hands out the access
    /// token and discards the pending authorization under `state`, or
    /// reports the upstream failure and keeps it.
    pub fn finish_exchange(&mut self, state: &str, reply: UpstreamReply) -> (outcome: Result<
        String,
        OAuthError,
    >)
        ensures
            final(self).settings() == old(self).settings(),
            exchange_finished(old(self).records(), final(self).records(), state@, reply, outcome),
    {
        let outcome = token_from_reply(reply);
        if outcome.is_ok() {
            self.clear_oauth_state(state);
        }
        outcome
    }

    /// The number of pending authorizations held.
    pub fn active_states_count(&self) -> (count: usize)
        ensures
            self.records().dom().finite(),
            count == self.records().len(),
    {
        proof {
            use_type_invariant(self);
        }
        map_len(&self.oauth_states)
    }
}

impl Default for OAuthService {
    fn default() -> (service: Self)
        ensures
            service.records() == Records::empty(),
            service.settings() == default_config().oauth,
    {
        OAuthService::new()
    }
}

/// A lookup of a state token that is not held fails as not found, whatever
/// the time and the window, and leaves the store as it was.
pub proof fn lemma_unknown_token_not_found(
    before: Records,
    after: Records,
    token: Seq<char>,
    now: int,
    window_minutes: int,
    outcome: Result<OAuthState, OAuthError>,
)
    requires
        !before.contains_key(token),
        validated(before, after, token, now, window_minutes, outcome),
    ensures
        outcome matches Err(OAuthError::NotFound),
        !(outcome matches Err(OAuthError::Expired)),
        after == before,
{
}

/// A sweep takes out exactly the expired records: what is left holds a
/// token if and only if it was held and has not expired, with its record
/// unchanged, and the count drops by the number of expired records.
pub proof fn lemma_sweep_removes_exactly_expired(records: Records, now: int, window_minutes: int)
    requires
        records.dom().finite(),
    ensures
        forall|token: Seq<char>| #[trigger]
            unexpired(records, now, window_minutes).contains_key(token) <==> records.contains_key(
                token,
            ) && !records[token].expired(now, window_minutes),
        forall|token: Seq<char>| #[trigger]
            unexpired(records, now, window_minutes).contains_key(token) ==> unexpired(
                records,
                now,
                window_minutes,
            )[token] == records[token],
        unexpired(records, now, window_minutes).dom().finite(),
        expired_tokens(records, now, window_minutes).finite(),
        unexpired(records, now, window_minutes).len() + expired_tokens(
            records,
            now,
            window_minutes,
        ).len() == records.len(),
{
    let gone = expired_tokens(records, now, window_minutes);
    let left = unexpired(records, now, window_minutes);
    records.dom().lemma_len_filter(|token: Seq<char>| records[token].expired(now, window_minutes));
    vstd::set_lib::lemma_set_difference_len(records.dom(), gone);
    assert(records.dom().intersect(gone) =~= gone);
    assert(left.dom() =~= records.dom().difference(gone));
}

/// Holding a record under a state token that is not yet held raises the
/// count by one; holding one under a token that is held replaces its
/// record and leaves the count as it is.
pub proof fn lemma_registration_count(before: Records, record: OAuthStateView)
    requires
        before.dom().finite(),
    ensures
        before.insert(record.state, record).dom().finite(),
        before.insert(record.state, record).len() == if before.contains_key(record.state) {
            before.len()
        } else {
            before.len() + 1
        },
{
    assert(before.insert(record.state, record).dom() =~= before.dom().insert(record.state));
}

} // verus!
