//! What can go wrong in the authorization flow, and how it is reported.

use crate::decimal::{numeral, push_decimal};
use vstd::prelude::*;
use vstd::string::StringExecFns;

verus! {

/// Status of a reply to a request that was at fault.
pub const STATUS_BAD_REQUEST: u16 = 400;

/// Status of a reply where the relay could not do its part.
pub const STATUS_INTERNAL_SERVER_ERROR: u16 = 500;

/// A failure of the authorization flow.
#[derive(Debug, Clone, PartialEq, Eq)]
pub enum OAuthError {
    /// A required field of the request is empty.
    InvalidRequest,
    /// No pending authorization is held under the state token.
    NotFound,
    /// The pending authorization under the state token has expired.
    Expired,
    /// The token endpoint did not hand out a token. `status` is the status
    /// of its answer, if it gave one; `detail` is the body of a refusal, or
    /// says what went wrong otherwise.
    UpstreamError { status: Option<u16>, detail: String },
    /// The relay is misconfigured and cannot go on.
    Fatal { detail: String },
}

pub enum OAuthErrorView {
    InvalidRequest,
    NotFound,
    Expired,
    UpstreamError { status: Option<u16>, detail: Seq<char> },
    Fatal { detail: Seq<char> },
}

impl View for OAuthError {
    type V = OAuthErrorView;

    open spec fn view(&self) -> OAuthErrorView {
        match *self {
            OAuthError::InvalidRequest => OAuthErrorView::InvalidRequest,
            OAuthError::NotFound => OAuthErrorView::NotFound,
            OAuthError::Expired => OAuthErrorView::Expired,
            OAuthError::UpstreamError { status, detail } => OAuthErrorView::UpstreamError {
                status,
                detail: detail@,
            },
            OAuthError::Fatal { detail } => OAuthErrorView::Fatal { detail: detail@ },
        }
    }
}

impl OAuthErrorView {
    /// The text that tells a person what went wrong.
    pub open spec fn message(self) -> Seq<char> {
        match self {
            OAuthErrorView::InvalidRequest => "无效的请求数据: code, state, tenant_url 都是必需的"@,
            OAuthErrorView::NotFound => "未找到OAuth状态，请重新获取授权链接"@,
            OAuthErrorView::Expired => "OAuth状态已过期，请重新获取授权链接"@,
            OAuthErrorView::UpstreamError { status: Some(status), detail } => "请求令牌失败: "@
                + numeral(status as nat) + " "@ + detail,
            OAuthErrorView::UpstreamError { status: None, detail } => detail,
            OAuthErrorView::Fatal { detail } => detail,
        }
    }

    /// The status a failure is answered with: the caller's fault where the
    /// request or its state token is at fault, the relay's otherwise.
    pub open spec fn http_status(self) -> u16 {
        match self {
            OAuthErrorView::InvalidRequest => STATUS_BAD_REQUEST,
            OAuthErrorView::NotFound => STATUS_BAD_REQUEST,
            OAuthErrorView::Expired => STATUS_BAD_REQUEST,
            OAuthErrorView::UpstreamError { .. } => STATUS_INTERNAL_SERVER_ERROR,
            OAuthErrorView::Fatal { .. } => STATUS_INTERNAL_SERVER_ERROR,
        }
    }
}

impl OAuthError {
    pub fn message(&self) -> (text: String)
        ensures
            text@ == self@.message(),
    {
        match self {
            OAuthError::InvalidRequest => "无效的请求数据: code, state, tenant_url 都是必需的".to_string(),
            OAuthError::NotFound => "未找到OAuth状态，请重新获取授权链接".to_string(),
            OAuthError::Expired => "OAuth状态已过期，请重新获取授权链接".to_string(),
            OAuthError::UpstreamError { status: Some(status), detail } => {
                let mut text = "请求令牌失败: ".to_string();
                push_decimal(&mut text, *status as u64);
                text.append(" ");
                text.append(detail.as_str());
                text
            },
            OAuthError::UpstreamError { status: None, detail } => detail.clone(),
            OAuthError::Fatal { detail } => detail.clone(),
        }
    }

    pub fn http_status(&self) -> (status: u16)
        ensures
            status == self@.http_status(),
    {
        match self {
            OAuthError::InvalidRequest | OAuthError::NotFound | OAuthError::Expired => {
                STATUS_BAD_REQUEST
            },
            OAuthError::UpstreamError { .. } | OAuthError::Fatal { .. } => {
                STATUS_INTERNAL_SERVER_ERROR
            },
        }
    }
}

} // verus!
