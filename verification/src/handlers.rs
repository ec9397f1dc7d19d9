//! The two operations the relay offers, from request to reply. Sending the
//! token exchange lies between the two halves of a completion and is left
//! to the caller.

use crate::error::{OAuthError, OAuthErrorView};
use crate::middleware::{bad_request, internal_server_error, ErrorReply};
use crate::models::{
    is_token_id, ApiResponse, AuthUrlData, CompleteAuthData, CompleteAuthRequest, OAuthStateView,
    TokenInfo,
};
use crate::oauth::{
    exchange_begun, exchange_finished, registered, OAuthService, TokenExchangeCall, UpstreamReply,
};
use crate::pkce::{encodes_entropy, STATE_ENTROPY_BYTES, VERIFIER_ENTROPY_BYTES};
use vstd::prelude::*;
use vstd::string::StringExecFns;

verus! {

/// The query of a request for an authorization link. The user it names
/// has no bearing on the link.
#[derive(Debug)]
pub struct AuthUrlQuery {
    pub user_id: Option<String>,
}

/// The reply that goes with the outcome of issuing an authorization link.
pub open spec fn auth_url_replied(
    outcome: Result<(String, String), OAuthError>,
    reply: Result<ApiResponse<AuthUrlData>, ErrorReply>,
) -> bool {
    match outcome {
        Ok((url, state)) => {
            &&& reply matches Ok(envelope)
            &&& envelope.success
            &&& envelope.data.authorize_url@ == url@
            &&& envelope.data.state@ == state@
            &&& envelope.message@ == "授权链接生成成功"@
        },
        Err(error) => {
            &&& reply matches Err(failure)
            &&& failure.carries(500, "获取授权链接失败: "@ + error@.message())
        },
    }
}

/// The reply that goes with the outcome of starting an exchange: the
/// exchange to send, or a refusal of the request with the failure's
/// message.
pub open spec fn exchange_begin_replied(
    outcome: Result<TokenExchangeCall, OAuthError>,
    reply: Result<TokenExchangeCall, ErrorReply>,
) -> bool {
    match outcome {
        Ok(call) => reply == Ok::<TokenExchangeCall, ErrorReply>(call),
        Err(error) => {
            &&& reply matches Err(failure)
            &&& failure.carries(400, error@.message())
        },
    }
}

/// The reply that goes with the outcome of finishing an exchange for
/// `tenant_url`: the token with its identity, or a failure of the relay
/// with the upstream failure's message.
pub open spec fn exchange_finish_replied(
    outcome: Result<String, OAuthError>,
    tenant_url: Seq<char>,
    token_info: TokenInfo,
    reply: Result<ApiResponse<CompleteAuthData>, ErrorReply>,
) -> bool {
    match outcome {
        Ok(token) => {
            &&& reply matches Ok(envelope)
            &&& envelope.success
            &&& envelope.message@ == "OAuth授权完成成功"@
            &&& envelope.data.status@ == "success"@
            &&& envelope.data.token@ == token@
            &&& envelope.data.tenant_url@ == tenant_url
            &&& envelope.data.token_info == token_info
        },
        Err(error) => {
            &&& reply matches Err(failure)
            &&& failure.carries(500, "Token交换失败: "@ + error@.message())
        },
    }
}

fn prefixed(prefix: &str, error: &OAuthError) -> (text: String)
    ensures
        text@ == prefix@ + error@.message(),
{
    let mut text = prefix.to_string();
    text.append(error.message().as_str());
    text
}

/// Turns the outcome of issuing an authorization link into its reply.
pub fn auth_url_reply(outcome: Result<(String, String), OAuthError>) -> (reply: Result<
    ApiResponse<AuthUrlData>,
    ErrorReply,
>)
    ensures
        auth_url_replied(outcome, reply),
{
    match outcome {
        Ok((authorize_url, state)) => Ok(
            ApiResponse::success_with_message(
                AuthUrlData { authorize_url, state },
                "授权链接生成成功".to_string(),
            ),
        ),
        Err(error) => Err(internal_server_error(prefixed("获取授权链接失败: ", &error))),
    }
}

/// Answers a request for an authorization link: starts an authorization
/// with the service and replies with its link and state token.
pub fn get_auth_url(service: &mut OAuthService) -> (reply: Result<
    ApiResponse<AuthUrlData>,
    ErrorReply,
>)
    ensures
        final(service).settings() == old(service).settings(),
        exists|record: OAuthStateView, outcome: Result<(String, String), OAuthError>|
            {
                &&& record.well_formed()
                &&& encodes_entropy(record.code_verifier, VERIFIER_ENTROPY_BYTES as nat)
                &&& encodes_entropy(record.state, STATE_ENTROPY_BYTES as nat)
                &&& #[trigger] registered(
                    old(service).settings(),
                    old(service).records(),
                    final(service).records(),
                    record,
                    outcome,
                )
                &&& auth_url_replied(outcome, reply)
            },
{
    let outcome = service.generate_auth_url();
    auth_url_reply(outcome)
}

/// Turns the outcome of starting an exchange into the exchange to send or
/// the refusal to reply with.
pub fn exchange_begin_reply(outcome: Result<TokenExchangeCall, OAuthError>) -> (reply: Result<
    TokenExchangeCall,
    ErrorReply,
>)
    ensures
        exchange_begin_replied(outcome, reply),
{
    match outcome {
        Ok(call) => Ok(call),
        Err(error) => Err(bad_request(error.message())),
    }
}

/// First half of a completion, by the clock: checks the request and the
/// pending authorization under its state token. `Ok` is the token exchange
/// to send; `Err` is the reply to a request that goes no further.
pub fn begin_complete_auth(service: &mut OAuthService, request: &CompleteAuthRequest) -> (reply:
    Result<TokenExchangeCall, ErrorReply>)
    ensures
        final(service).settings() == old(service).settings(),
        exists|now: int, outcome: Result<TokenExchangeCall, OAuthError>|
            {
                &&& #[trigger] exchange_begun(
                    old(service).settings(),
                    old(service).records(),
                    final(service).records(),
                    request.tenant_url@,
                    request.state@,
                    request.code@,
                    now,
                    outcome,
                )
                &&& exchange_begin_replied(outcome, reply)
            },
{
    let outcome = service.begin_exchange(
        request.tenant_url.as_str(),
        request.state.as_str(),
        request.code.as_str(),
    );
    exchange_begin_reply(outcome)
}

/// Second half of a completion, for the reply that the token exchange
/// brought: replies with the token under a fresh identity, whose id is the
/// text of a random UUID, and discards the pending authorization, or
/// replies with the failure.
pub fn finish_complete_auth(
    service: &mut OAuthService,
    request: CompleteAuthRequest,
    upstream: UpstreamReply,
) -> (reply: Result<ApiResponse<CompleteAuthData>, ErrorReply>)
    ensures
        final(service).settings() == old(service).settings(),
        exists|outcome: Result<String, OAuthError>, token_info: TokenInfo|
            {
                &&& is_token_id(token_info.id@)
                &&& #[trigger] exchange_finished(
                    old(service).records(),
                    final(service).records(),
                    request.state@,
                    upstream,
                    outcome,
                )
                &&& #[trigger] exchange_finish_replied(
                    outcome,
                    request.tenant_url@,
                    token_info,
                    reply,
                )
            },
{
    finish_complete_auth_as(service, request, upstream, TokenInfo::new())
}

/// Second half of a completion, with the identity that a token is handed
/// out under, should one have come.
pub fn finish_complete_auth_as(
    service: &mut OAuthService,
    request: CompleteAuthRequest,
    upstream: UpstreamReply,
    token_info: TokenInfo,
) -> (reply: Result<ApiResponse<CompleteAuthData>, ErrorReply>)
    ensures
        final(service).settings() == old(service).settings(),
        exists|outcome: Result<String, OAuthError>|
            {
                &&& #[trigger] exchange_finished(
                    old(service).records(),
                    final(service).records(),
                    request.state@,
                    upstream,
                    outcome,
                )
                &&& exchange_finish_replied(outcome, request.tenant_url@, token_info, reply)
            },
{
    let outcome = service.finish_exchange(request.state.as_str(), upstream);
    let reply = match &outcome {
        Ok(token) => Ok(
            ApiResponse::success_with_message(
                CompleteAuthData::issued(token.clone(), request.tenant_url, token_info),
                "OAuth授权完成成功".to_string(),
            ),
        ),
        Err(error) => Err(internal_server_error(prefixed("Token交换失败: ", error))),
    };
    assert(exchange_finish_replied(outcome, request.tenant_url@, token_info, reply));
    reply
}

} // verus!
