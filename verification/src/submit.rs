//! Building the submission request and interpreting the response.
//!
//! The request is built entirely here: the title and description are
//! percent-encoded, attached to the configured base URL as its query string,
//! and paired with the authentication token. Carrying the request out is the
//! caller's task; the response's status code and body come back here to be
//! interpreted and rendered as the one outcome line of a run.

use vstd::prelude::*;
use crate::encode::encode_for_url;
use crate::encode::encoded_of;
use crate::strutil::dec_digits;
use crate::strutil::decimal_string;

verus! {

/// Why a run failed. Every variant is fatal: the pipeline performs no
/// retries and no partial-failure recovery.
#[derive(Clone, Copy, Debug, PartialEq, Eq, Structural)]
pub enum SubmitError {
    /// The diagnostic subprocess could not be spawned.
    CommandExecution,
    /// The subprocess output was not valid text.
    Encoding,
    /// The configured API base URL is not a syntactically valid absolute URL.
    InvalidUrl,
    /// The request could not be completed.
    Network,
}

impl SubmitError {
    /// A short description of the error, for the operator.
    pub fn message(&self) -> (r: String)
        ensures
            *self is CommandExecution ==> r@ == "diagnostic command could not be run"@,
            *self is Encoding ==> r@ == "diagnostic command output was not valid text"@,
            *self is InvalidUrl ==> r@ == "API base URL is not a valid absolute URL"@,
            *self is Network ==> r@ == "request could not be completed"@,
    {
        match self {
            SubmitError::CommandExecution => String::from_str("diagnostic command could not be run"),
            SubmitError::Encoding => String::from_str("diagnostic command output was not valid text"),
            SubmitError::InvalidUrl => String::from_str("API base URL is not a valid absolute URL"),
            SubmitError::Network => String::from_str("request could not be completed"),
        }
    }
}

/// Whether a string parses as an absolute URL, as `url::Url::parse` decides
/// it (the WHATWG URL standard); a function of the string alone.
pub uninterp spec fn url_parses(s: Seq<char>) -> bool;

/// The serialization of the URL obtained by parsing `base` and replacing its
/// query string with `query`; a function of the two strings alone.
pub uninterp spec fn url_with_query(base: Seq<char>, query: Seq<char>) -> Seq<char>;

/// Whether a string is a well-formed JSON document, as `serde_json::from_str`
/// decides it; a function of the string alone.
pub uninterp spec fn json_parses(s: Seq<char>) -> bool;

/// The compact JSON rendering of the `web_url` field of the document a
/// string parses to (the rendering of `null` when the field is absent or the
/// document is not an object); a function of the string alone.
pub uninterp spec fn web_url_render(s: Seq<char>) -> Seq<char>;

/// Relies on `url::Url::parse` to decide URL syntax (the WHATWG URL
/// standard), on `url::Url::set_query` to replace the parsed URL's query
/// string, and on `url::Url::as_str` for the final serialization. All three
/// are deterministic in the two arguments.
#[verifier::external_body]
fn parse_and_attach_query(base: &str, query: &str) -> (r: Option<String>)
    ensures
        r is Some <==> url_parses(base@),
        r matches Some(u) ==> u@ == url_with_query(base@, query@),
{
    match url::Url::parse(base) {
        Ok(mut u) => {
            u.set_query(Some(query));
            Some(u.as_str().to_string())
        },
        Err(_) => None,
    }
}

/// Relies on `serde_json::from_str` to decide whether the body is
/// well-formed JSON, on `serde_json::Value`'s `Index<&str>` impl (an object
/// indexed by a key yields that field, and anything else yields `Null`), and
/// on `serde_json::Value`'s `Display` impl (the compact JSON rendering, so a
/// string field keeps its surrounding quotes and an absent field renders as
/// `null`). All three are deterministic in the body text.
#[verifier::external_body]
fn render_web_url_field(response_body: &str) -> (r: Option<String>)
    ensures
        r is Some <==> json_parses(response_body@),
        r matches Some(s) ==> s@ == web_url_render(response_body@),
{
    match serde_json::from_str::<serde_json::Value>(response_body) {
        Ok(v) => Some(v["web_url"].to_string()),
        Err(_) => None,
    }
}

/// A ready-to-send request: the target URL already carries the encoded
/// title and description as its query string.
pub struct SubmissionRequest {
    pub target_url: String,
    pub encoded_title: String,
    pub encoded_body: String,
    pub auth_token: String,
}

/// The interpreted response: the status code as received, and the extracted
/// identifier, or the raw body where no identifier could be extracted.
pub struct SubmissionResult {
    pub status_code: u16,
    pub result_identifier: String,
}

/// The query string attached to the base URL: the two parameters with their
/// percent-encoded values.
pub open spec fn query_of(title: Seq<char>, description: Seq<char>) -> Seq<char> {
    "title="@ + encoded_of(title) + "&description="@ + encoded_of(description)
}

/// The name of the header that carries the authentication token.
pub fn auth_header_name() -> (r: String)
    ensures
        r@ == "PRIVATE-TOKEN"@,
{
    String::from_str("PRIVATE-TOKEN")
}

/// Build the submission request: percent-encode the title and the
/// description, and attach them as the base URL's query string (replacing
/// any query it already had). Succeeds exactly when the base URL is a
/// syntactically valid absolute URL, and fails before any network work is
/// attempted otherwise.
pub fn prepare_submission(api_base_url: &str, title: &str, description: &str, auth_token: &str) -> (r:
    Result<SubmissionRequest, SubmitError>)
    ensures
        r is Ok <==> url_parses(api_base_url@),
        r matches Ok(req) ==> {
            &&& req.target_url@ == url_with_query(api_base_url@, query_of(title@, description@))
            &&& req.encoded_title@ == encoded_of(title@)
            &&& req.encoded_body@ == encoded_of(description@)
            &&& req.auth_token@ == auth_token@
        },
        r matches Err(e) ==> e == SubmitError::InvalidUrl,
{
    let encoded_title = encode_for_url(title);
    let encoded_body = encode_for_url(description);
    let mut query = String::from_str("title=");
    query.append(encoded_title.as_str());
    query.append("&description=");
    query.append(encoded_body.as_str());
    proof {
        assert(query@ =~= query_of(title@, description@));
    }
    match parse_and_attach_query(api_base_url, query.as_str()) {
        Some(target_url) => Ok(
            SubmissionRequest {
                target_url,
                encoded_title,
                encoded_body,
                auth_token: String::from_str(auth_token),
            },
        ),
        None => Err(SubmitError::InvalidUrl),
    }
}

/// Extract the result identifier from a response body: the rendering of the
/// body's `web_url` field where the body is well-formed JSON, and the body
/// itself, unchanged, where it is not. Falling back to the raw body is the
/// intended best-effort behaviour, not an error.
pub fn extract_result_identifier(response_body: &str) -> (r: String)
    ensures
        json_parses(response_body@) ==> r@ == web_url_render(response_body@),
        !json_parses(response_body@) ==> r@ == response_body@,
{
    match render_web_url_field(response_body) {
        Some(rendered) => rendered,
        None => String::from_str(response_body),
    }
}

/// Interpret a raw response: keep the status code as received, whatever it
/// is, and extract the result identifier from the body.
pub fn interpret_response(status_code: u16, response_body: &str) -> (r: SubmissionResult)
    ensures
        r.status_code == status_code,
        json_parses(response_body@) ==> r.result_identifier@ == web_url_render(response_body@),
        !json_parses(response_body@) ==> r.result_identifier@ == response_body@,
{
    SubmissionResult { status_code, result_identifier: extract_result_identifier(response_body) }
}

/// The one structured line a run logs: the status code and the extracted
/// identifier.
pub open spec fn outcome_line_of(status_code: nat, identifier: Seq<char>) -> Seq<char> {
    "["@ + dec_digits(status_code) + "] "@ + identifier
}

/// Render the outcome line for an interpreted response.
pub fn format_outcome(result: &SubmissionResult) -> (r: String)
    ensures
        r@ == outcome_line_of(result.status_code as nat, result.result_identifier@),
{
    let mut line = String::from_str("[");
    let digits = decimal_string(result.status_code);
    line.append(digits.as_str());
    line.append("] ");
    line.append(result.result_identifier.as_str());
    proof {
        assert(line@ =~= outcome_line_of(result.status_code as nat, result.result_identifier@));
    }
    line
}

} // verus!
