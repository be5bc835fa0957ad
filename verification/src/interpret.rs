//! The response-interpretation algorithm: the core of the library.
//!
//! Given an endpoint's configuration and the text its server answered
//! with, produce a definite outcome. A body that parses as JSON is walked
//! along the configuration's success path and, failing that, its error
//! path; a body that does not parse is accepted verbatim when the
//! configuration expects the bare body and it looks like a URL. Every
//! input reaches a `Success` or a `Failure`; nothing aborts.

use vstd::prelude::*;

use crate::config::Config;
use crate::config::ConfigView;
use crate::jsonpath::PathStep;
use crate::jsonpath::StepView;
use crate::jsonpath::lemma_step_failure_propagates;
use crate::jsonpath::resolve;
use crate::jsonpath::resolve_path;
use crate::jsonpath::step_into;
use crate::jsonpath::steps_view;
use crate::jsonval::JsonVal;
use crate::rawjson::parse_json;
use crate::rawjson::parsed_json_of;
use crate::strutil::spec_starts_with;
use crate::strutil::str_eq;
use crate::strutil::str_starts_with;

verus! {

/// The outcome of one upload: the URL the endpoint stored the file under,
/// or a human-readable reason why not.
pub enum UploadResult {
    Success(String),
    Failure(String),
}

/// The mathematical shape of an [`UploadResult`].
#[verifier::ext_equal]
pub ghost enum Outcome {
    Success(Seq<char>),
    Failure(Seq<char>),
}

impl View for UploadResult {
    type V = Outcome;

    open spec fn view(&self) -> Outcome {
        match self {
            UploadResult::Success(u) => Outcome::Success(u@),
            UploadResult::Failure(m) => Outcome::Failure(m@),
        }
    }
}

/// The fixed extraction shape of the one special-cased endpoint, which the
/// generic mechanism cannot express because the extracted value is not
/// returned verbatim but prefixed with the service's base address.
pub open spec fn spec_uploadcc_path() -> Seq<StepView> {
    seq![
        StepView::ObjectKey("success_image"@),
        StepView::ArrayIndex(0),
        StepView::ObjectKey("url"@),
    ]
}

/// What the special-cased endpoint's response yields.
pub open spec fn spec_uploadcc_outcome(v: JsonVal) -> Outcome {
    match resolve(v, spec_uploadcc_path()) {
        Some(JsonVal::Str(s)) => Outcome::Success("https://upload.cc/"@ + s@),
        _ => Outcome::Failure("Unable to upload file to upload.cc"@),
    }
}

/// What interpretation yields on a configuration, the parse result of the
/// body, and the body itself.
pub open spec fn spec_interpret(c: ConfigView, parsed: Option<JsonVal>, body: Seq<char>) -> Outcome {
    match parsed {
        Some(v) => {
            if c.name == "uploadcc"@ {
                spec_uploadcc_outcome(v)
            } else {
                match resolve(v, c.response) {
                    Some(JsonVal::Str(s)) => Outcome::Success(s@),
                    _ => match resolve(v, c.message) {
                        Some(JsonVal::Str(m)) => Outcome::Failure(m@),
                        _ => Outcome::Failure("response could not be interpreted"@),
                    },
                }
            }
        },
        None => {
            if c.response.len() == 0 && spec_starts_with(body, "http"@) {
                Outcome::Success(body)
            } else {
                Outcome::Failure("could not parse response: "@ + body)
            }
        },
    }
}

/// The hardcoded, non-generic extraction for the one special-cased
/// endpoint: a documented exception to the generic mechanism.
fn uploadcc_extract(v: &JsonVal) -> (r: UploadResult)
    ensures
        r@ == spec_uploadcc_outcome(*v),
{
    let mut path: Vec<PathStep> = Vec::new();
    path.push(PathStep::ObjectKey("success_image".to_owned()));
    path.push(PathStep::ArrayIndex(0));
    path.push(PathStep::ObjectKey("url".to_owned()));
    proof {
        assert(steps_view(path@) =~= spec_uploadcc_path());
    }
    match resolve_path(v, &path) {
        Some(JsonVal::Str(s)) => UploadResult::Success("https://upload.cc/".to_owned().concat(s.as_str())),
        _ => UploadResult::Failure("Unable to upload file to upload.cc".to_owned()),
    }
}

/// Interpret a response body whose JSON parse result is already at hand.
///
/// With a parsed document, the success path is tried first; a string at
/// its end is the success URL. Otherwise a string at the end of the error
/// path is the failure reason, and failing that too, a fixed reason is
/// returned. Without a parsed document the body itself is the success
/// value exactly when the configuration expects the bare body (empty
/// success path) and the body starts with a URL scheme prefix.
pub fn interpret_parsed(config: &Config, parsed: Option<JsonVal>, body: &str) -> (r: UploadResult)
    ensures
        r@ == spec_interpret(config@, parsed, body@),
{
    match parsed {
        Some(v) => {
            if str_eq(config.name.as_str(), "uploadcc") {
                uploadcc_extract(&v)
            } else {
                match resolve_path(&v, &config.response) {
                    Some(JsonVal::Str(s)) => UploadResult::Success(s.clone()),
                    _ => match resolve_path(&v, &config.message) {
                        Some(JsonVal::Str(m)) => UploadResult::Failure(m.clone()),
                        _ => UploadResult::Failure("response could not be interpreted".to_owned()),
                    },
                }
            }
        },
        None => {
            if config.response.len() == 0 && str_starts_with(body, "http") {
                UploadResult::Success(body.to_owned())
            } else {
                UploadResult::Failure("could not parse response: ".to_owned().concat(body))
            }
        },
    }
}

/// Interpret the raw text an endpoint answered with.
pub fn interpret_response(config: &Config, body: &str) -> (r: UploadResult)
    ensures
        r@ == spec_interpret(config@, parsed_json_of(body@), body@),
{
    let parsed = parse_json(body);
    interpret_parsed(config, parsed, body)
}

/// Law: with an empty success path, a plain-text response that is
/// URL-like is returned as the success value, exactly as it came.
pub proof fn lemma_plain_url_success(c: ConfigView, body: Seq<char>)
    requires
        c.response.len() == 0,
        spec_starts_with(body, "http"@),
    ensures
        spec_interpret(c, None, body) == Outcome::Success(body),
{
}

/// Law: interpretation never swallows an error silently: a failure
/// carries a non-empty reason. The one exception is an endpoint whose own
/// error message, found at the end of the error path, is itself the empty
/// string; such an input is left out here.
pub proof fn lemma_failure_reason_nonempty(
    c: ConfigView,
    parsed: Option<JsonVal>,
    body: Seq<char>,
)
    requires
        parsed matches Some(v) ==> !(resolve(v, c.message) matches Some(JsonVal::Str(m))
            && m@.len() == 0),
    ensures
        spec_interpret(c, parsed, body) matches Outcome::Failure(m) ==> m.len() > 0,
{
    reveal_strlit("https://upload.cc/");
    reveal_strlit("Unable to upload file to upload.cc");
    reveal_strlit("response could not be interpreted");
    reveal_strlit("could not parse response: ");
}

/// Law: a success path that fails at any one step — missing key, index
/// out of range, or a step into the wrong kind of value — never aborts
/// interpretation; the outcome is whatever the error path yields.
pub proof fn lemma_success_path_miss_falls_through(
    c: ConfigView,
    v: JsonVal,
    body: Seq<char>,
    k: int,
)
    requires
        c.name != "uploadcc"@,
        0 <= k < c.response.len(),
        resolve(v, c.response.take(k)) matches Some(w) && step_into(w, c.response[k]) is None,
    ensures
        spec_interpret(c, Some(v), body) == (match resolve(v, c.message) {
            Some(JsonVal::Str(m)) => Outcome::Failure(m@),
            _ => Outcome::Failure("response could not be interpreted"@),
        }),
{
    lemma_step_failure_propagates(v, c.response, k);
}

} // verus!
