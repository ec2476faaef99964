//! Absolute URLs, parsed and resolved by the `url` crate that `reqwest` re-exports.

use crate::model::opt_text;
use vstd::prelude::*;

verus! {

/// The parts of an absolute URL that the crawler reads.
pub struct UrlParts {
    pub host: Option<String>,
    pub path: String,
}

/// Why `Url::parse` rejects `input`; `None` when it accepts it.
pub uninterp spec fn url_parse_error(input: Seq<char>) -> Option<Seq<char>>;

/// What `Url::host_str` gives for the URL parsed from `input`.
pub uninterp spec fn url_host(input: Seq<char>) -> Option<Seq<char>>;

/// What `Url::path` gives for the URL parsed from `input`.
pub uninterp spec fn url_path(input: Seq<char>) -> Seq<char>;

/// What `Url::join` gives when `reference` is resolved against the URL
/// parsed from `base`, serialized; the parser's message where either fails.
pub uninterp spec fn url_joined(base: Seq<char>, reference: Seq<char>) -> Result<
    Seq<char>,
    Seq<char>,
>;

pub open spec fn text_result(r: Result<String, String>) -> Result<Seq<char>, Seq<char>> {
    match r {
        Ok(s) => Ok(s@),
        Err(e) => Err(e@),
    }
}

/// Calls `reqwest::Url::parse`, then `host_str` and `path` on the result.
/// Trusted: the outcome depends on `input` alone; on success the host and
/// path are those of the parsed URL, on failure the error is the parser's
/// message.
#[verifier::external_body]
pub(crate) fn parse_url(input: &str) -> (r: Result<UrlParts, String>)
    ensures
        match r {
            Ok(p) => url_parse_error(input@) is None && opt_text(p.host) == url_host(input@)
                && p.path@ == url_path(input@),
            Err(e) => url_parse_error(input@) == Some(e@),
        },
{
    let parsed = reqwest::Url::parse(input).map_err(|e| e.to_string())?;
    Ok(UrlParts { host: parsed.host_str().map(str::to_string), path: parsed.path().to_string() })
}

/// Calls `reqwest::Url::parse` on `base` and `Url::join` with `reference`.
/// Trusted: the outcome depends on the two strings alone.
#[verifier::external_body]
pub(crate) fn join_url(base: &str, reference: &str) -> (r: Result<String, String>)
    ensures
        text_result(r) == url_joined(base@, reference@),
{
    let parsed = reqwest::Url::parse(base).map_err(|e| e.to_string())?;
    parsed.join(reference).map(|u| u.to_string()).map_err(|e| e.to_string())
}

} // verus!
