//! Reading the outcome of an edit request from the page the service sends back.

use vstd::prelude::*;
use crate::text::{trim_spec, trim_string, u64_to_string, decimal_digits};
use crate::html::{select_all, elements_in};
use crate::encoding::{regex_capture, regex_first_group, form_decode, form_decoded};

verus! {

broadcast use vstd::string::group_string_axioms;

/// What an edit response says.
#[derive(Debug, Clone)]
pub struct EditAnalysisResult {
    pub success: bool,
    pub message: Option<String>,
    pub actual_track_name: Option<String>,
    pub actual_album_name: Option<String>,
}

pub open spec fn success_alert_selector() -> Seq<char> {
    ".alert-success"@
}

pub open spec fn error_alert_selector() -> Seq<char> {
    ".alert-danger, .alert-error, .error"@
}

pub open spec fn track_link_pattern() -> Seq<char> {
    "href=\"/music/[^\"]+/_/([^\"]+)\""@
}

pub open spec fn album_link_pattern() -> Seq<char> {
    "href=\"/music/[^\"]+/([^\"/_]+)\"[^>]*>[^<]*</a>"@
}

/// The trimmed text of the first element matching `sel`.
pub open spec fn first_trimmed_text(doc: Seq<char>, sel: Seq<char>) -> Option<Seq<char>> {
    if elements_in(doc, sel).len() > 0 {
        Some(trim_spec(elements_in(doc, sel)[0].0))
    } else {
        None
    }
}

/// The form-decoded group 1 of the first match of `pattern` in the raw text.
pub open spec fn name_from_pattern(doc: Seq<char>, pattern: Seq<char>) -> Option<Seq<char>> {
    match regex_first_group(pattern, doc) {
        Some(raw) => Some(form_decoded(raw)),
        None => None,
    }
}

/// The track name in a response: the first chart-list name link, else the first track URL.
pub open spec fn response_track_name(doc: Seq<char>) -> Option<Seq<char>> {
    match first_trimmed_text(doc, "td.chartlist-name a"@) {
        Some(t) => Some(t),
        None => name_from_pattern(doc, track_link_pattern()),
    }
}

/// The album name in a response: the first chart-list album link, else the first album URL.
pub open spec fn response_album_name(doc: Seq<char>) -> Option<Seq<char>> {
    match first_trimmed_text(doc, "td.chartlist-album a"@) {
        Some(t) => Some(t),
        None => name_from_pattern(doc, album_link_pattern()),
    }
}

/// What `StatusCode::canonical_reason` gives for the status with number `code`, or `None` when
/// no status has that number.
pub uninterp spec fn status_reason(code: u16) -> Option<Seq<char>>;

/// Calls `StatusCode::try_from` and `canonical_reason` of the HTTP types that the HTTP client
/// uses.
#[verifier::external_body]
fn canonical_reason(code: u16) -> (res: Option<String>)
    ensures
        res.deep_view() == status_reason(code),
{
    let status = <http_client_2::http_types::StatusCode as std::convert::TryFrom<u16>>::try_from(code).ok()?;
    Some(status.canonical_reason().to_string())
}

/// How a status is written: its number, a colon and its reason (the number alone for an
/// unknown status).
pub open spec fn status_text(code: u16) -> Seq<char> {
    match status_reason(code) {
        Some(r) => decimal_digits(code as nat) + ": "@ + r,
        None => decimal_digits(code as nat),
    }
}

/// How a status is written: its number, a colon and its reason.
pub fn status_display(code: u16) -> (res: String)
    ensures
        res@ == status_text(code),
{
    let mut m = u64_to_string(code as u64);
    match canonical_reason(code) {
        Some(r) => {
            m.append(": ");
            m.append(r.as_str());
        },
        None => {},
    }
    m
}

pub open spec fn is_success_status(status: u16) -> bool {
    200 <= status < 300
}

/// Whether an edit response reports success: a 2xx status, a success alert and no error alert.
pub open spec fn edit_succeeded(doc: Seq<char>, status: u16) -> bool {
    is_success_status(status) && elements_in(doc, success_alert_selector()).len() > 0
        && elements_in(doc, error_alert_selector()).len() == 0
}

pub open spec fn or_unknown(o: Option<Seq<char>>) -> Seq<char> {
    match o {
        Some(s) => s,
        None => "unknown"@,
    }
}

/// The message that describes an edit response.
pub open spec fn edit_message(doc: Seq<char>, status: u16) -> Seq<char> {
    let errors = elements_in(doc, error_alert_selector());
    if errors.len() > 0 {
        "Edit failed: "@ + trim_spec(errors[0].0)
    } else if edit_succeeded(doc, status) {
        "Edit successful - Track: '"@ + or_unknown(response_track_name(doc)) + "', Album: '"@
            + or_unknown(response_album_name(doc)) + "'"@
    } else {
        "Edit failed with status: "@ + status_text(status)
    }
}

fn first_text(document: &str, sel: &str) -> (res: Option<String>)
    ensures
        res.deep_view() == first_trimmed_text(document@, sel@),
{
    let found = select_all(document, sel);
    if found.len() > 0 {
        Some(trim_string(found[0].0.as_str()))
    } else {
        None
    }
}

fn name_in_text(document: &str, pattern: &str) -> (res: Option<String>)
    ensures
        res.deep_view() == name_from_pattern(document@, pattern@),
{
    match regex_capture(pattern, document) {
        Some(raw) => Some(form_decode(raw.as_str())),
        None => None,
    }
}

/// The track name in the raw text: the decoded name of the first track URL.
fn extract_track_name_from_text(response_text: &str) -> (res: Option<String>)
    ensures
        res.deep_view() == name_from_pattern(response_text@, track_link_pattern()),
{
    name_in_text(response_text, "href=\"/music/[^\"]+/_/([^\"]+)\"")
}

/// The album name in the raw text: the decoded name of the first album URL.
fn extract_album_name_from_text(response_text: &str) -> (res: Option<String>)
    ensures
        res.deep_view() == name_from_pattern(response_text@, album_link_pattern()),
{
    name_in_text(response_text, "href=\"/music/[^\"]+/([^\"/_]+)\"[^>]*>[^<]*</a>")
}

/// The track and album names of a response: from the chart-list links where present, else from
/// the URLs in the raw text.
fn extract_track_album_names(response_text: &str) -> (res: (Option<String>, Option<String>))
    ensures
        res.0.deep_view() == response_track_name(response_text@),
        res.1.deep_view() == response_album_name(response_text@),
{
    let track = match first_text(response_text, "td.chartlist-name a") {
        Some(t) => Some(t),
        None => extract_track_name_from_text(response_text),
    };
    let album = match first_text(response_text, "td.chartlist-album a") {
        Some(t) => Some(t),
        None => extract_album_name_from_text(response_text),
    };
    (track, album)
}

fn or_unknown_str(o: &Option<String>) -> (res: String)
    ensures
        res@ == or_unknown(o.deep_view()),
{
    match o {
        Some(s) => s.clone(),
        None => String::from_str("unknown"),
    }
}

/// Reads an edit response: whether it succeeded, a message, and the track and album names in it.
pub fn analyze_edit_response(response_text: &str, status_code: u16) -> (res: EditAnalysisResult)
    ensures
        res.success == edit_succeeded(response_text@, status_code),
        res.message.deep_view() == Some(edit_message(response_text@, status_code)),
        res.actual_track_name.deep_view() == response_track_name(response_text@),
        res.actual_album_name.deep_view() == response_album_name(response_text@),
{
    let successes = select_all(response_text, ".alert-success");
    let errors = select_all(response_text, ".alert-danger, .alert-error, .error");
    let (track, album) = extract_track_album_names(response_text);
    let final_success = 200 <= status_code && status_code < 300 && successes.len() > 0 && errors.len() == 0;
    let message = if errors.len() > 0 {
        let mut m = String::from_str("Edit failed: ");
        m.append(trim_string(errors[0].0.as_str()).as_str());
        m
    } else if final_success {
        let mut m = String::from_str("Edit successful - Track: '");
        m.append(or_unknown_str(&track).as_str());
        m.append("', Album: '");
        m.append(or_unknown_str(&album).as_str());
        m.append("'");
        m
    } else {
        let mut m = String::from_str("Edit failed with status: ");
        m.append(status_display(status_code).as_str());
        m
    };
    EditAnalysisResult {
        success: final_success,
        message: Some(message),
        actual_track_name: track,
        actual_album_name: album,
    }
}

} // verus!
