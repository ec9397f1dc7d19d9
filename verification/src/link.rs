//! Authorization links: an endpoint URL with the query of an authorization
//! request appended.

use crate::error::OAuthError;
use url::{ParseError, Url};
use vstd::prelude::*;
use vstd::string::StringSliceAdditionalSpecFns;
use vstd::utf8::encode_utf8;

verus! {

/// The longest endpoint URL, parameter name or parameter value, in bytes,
/// that a link is built from.
pub const MAX_PART_BYTES: usize = 65_536;

/// The most parameters that a link is built with.
pub const MAX_PARAMS: usize = 16;

/// `ParseError` of the `url` crate: why a text is no absolute URL.
#[verifier::external_type_specification]
#[verifier::external_body]
pub struct ExParseError(ParseError);

/// The text of the URL that `base` parses to, with `params` appended to its
/// query in order, each name and value form-encoded; `None` where `base`
/// is no absolute URL.
pub uninterp spec fn url_with_params(base: Seq<char>, params: Seq<(Seq<char>, Seq<char>)>) -> Option<
    Seq<char>,
>;

/// Whether a text is short enough to go into a link.
pub open spec fn fits(text: Seq<char>) -> bool {
    encode_utf8(text).len() <= MAX_PART_BYTES
}

/// Whether the name and the value of a parameter are short enough.
pub open spec fn param_fits(param: (Seq<char>, Seq<char>)) -> bool {
    fits(param.0) && fits(param.1)
}

/// Whether a link can be built from these parts at all.
pub open spec fn parts_fit(base: Seq<char>, params: Seq<(Seq<char>, Seq<char>)>) -> bool {
    &&& fits(base)
    &&& params.len() <= MAX_PARAMS
    &&& forall|i: int| 0 <= i < params.len() ==> param_fits(#[trigger] params[i])
}

/// The link for `base` and `params`: `None` where a part is too long or
/// `base` is no absolute URL.
pub open spec fn link_text(base: Seq<char>, params: Seq<(Seq<char>, Seq<char>)>) -> Option<
    Seq<char>,
> {
    if parts_fit(base, params) {
        url_with_params(base, params)
    } else {
        None
    }
}

/// `Url::parse_with_params` of the `url` crate, with the URL turned into
/// its text: `Ok` exactly where `base` parses as an absolute URL, and then
/// the text named by `url_with_params`. The crate addresses a URL by 32-bit
/// offsets and panics where one built this way outgrows them, so the parts
/// are kept far below that size.
#[verifier::external_body]
fn parse_url_with_params(base: &str, params: &Vec<(String, String)>) -> (link: Result<
    String,
    ParseError,
>)
    requires
        parts_fit(base@, params.deep_view()),
    ensures
        link is Ok <==> url_with_params(base@, params.deep_view()) is Some,
        link matches Ok(text) ==> url_with_params(base@, params.deep_view()) == Some(text@),
{
    Url::parse_with_params(base, params).map(String::from)
}

/// The `Display` text of a `ParseError` of the `url` crate.
#[verifier::external_body]
fn parse_error_text(error: &ParseError) -> String {
    error.to_string()
}

fn text_fits(text: &str) -> (short: bool)
    ensures
        short == fits(text@),
{
    text.as_bytes().len() <= MAX_PART_BYTES
}

fn check_parts(base: &str, params: &Vec<(String, String)>) -> (ok: bool)
    ensures
        ok == parts_fit(base@, params.deep_view()),
{
    if !text_fits(base) || params.len() > MAX_PARAMS {
        return false;
    }
    let ghost model = params.deep_view();
    let mut at: usize = 0;
    while at < params.len()
        invariant
            at <= params.len(),
            model == params.deep_view(),
            model.len() == params.len(),
            forall|i: int| 0 <= i < at ==> param_fits(#[trigger] model[i]),
        decreases params.len() - at,
    {
        assert(model[at as int] == (params[at as int].0@, params[at as int].1@));
        if !text_fits(params[at].0.as_str()) || !text_fits(params[at].1.as_str()) {
            assert(!param_fits(model[at as int]));
            return false;
        }
        at = at + 1;
    }
    true
}

/// Builds the link for `base` with `params` appended to its query.
pub fn link_with_params(base: &str, params: &Vec<(String, String)>) -> (link: Result<
    String,
    OAuthError,
>)
    ensures
        match link {
            Ok(text) => link_text(base@, params.deep_view()) == Some(text@),
            Err(error) => link_text(base@, params.deep_view()) is None && error is Fatal,
        },
{
    if !check_parts(base, params) {
        return Err(OAuthError::Fatal { detail: "authorization link part too long".to_string() });
    }
    match parse_url_with_params(base, params) {
        Ok(text) => Ok(text),
        Err(error) => Err(OAuthError::Fatal { detail: parse_error_text(&error) }),
    }
}

} // verus!
