//! Credential blob parsing.
//!
//! The platform secret store hands back an opaque JSON blob; the engine
//! only reads the nested OAuth access token out of it. The store lookup
//! itself happens outside the library; this module gets the raw text.

use vstd::prelude::*;

use crate::errors::KeychainError;

verus! {

/// The string at the nested path `claudeAiOauth.accessToken` of a JSON
/// document, when the document parses and that field is a string.
pub uninterp spec fn oauth_token_of(raw: Seq<char>) -> Option<Seq<char>>;

/// Relies on serde_json::from_str and serde_json::Value::{get, as_str}:
/// reads the string at the fixed nested path `claudeAiOauth.accessToken` of
/// a JSON document. The result is a function of the text alone.
#[verifier::external_body]
fn extract_oauth_token(raw: &str) -> (r: Option<String>)
    ensures
        (r is Some) == (oauth_token_of(raw@) is Some),
        r matches Some(t) ==> oauth_token_of(raw@) == Some(t@),
{
    let creds: serde_json::Value = match serde_json::from_str(raw) {
        Ok(v) => v,
        Err(_) => return None,
    };
    creds.get("claudeAiOauth")
        .and_then(|v| v.get("accessToken"))
        .and_then(|v| v.as_str())
        .map(|s| s.to_string())
}

/// Extracts the OAuth bearer token from a raw credential blob; a blob
/// without the nested token field (or that is not JSON at all) is a parse
/// error.
pub fn get_oauth_token(raw: &str) -> (r: Result<String, KeychainError>)
    ensures
        (r is Ok) == (oauth_token_of(raw@) is Some),
        r matches Ok(t) ==> oauth_token_of(raw@) == Some(t@),
        r matches Err(e) ==> e matches KeychainError::ParseError(m) && m@
            == "Missing claudeAiOauth.accessToken"@,
{
    match extract_oauth_token(raw) {
        Some(t) => Ok(t),
        None => Err(
            KeychainError::ParseError(String::from_str("Missing claudeAiOauth.accessToken")),
        ),
    }
}

} // verus!
