use vstd::prelude::*;
use vstd::string::StringExecFns;

use crate::settings::ProjectSettings;
use crate::text::{spec_decimal, u16_decimal};

verus! {

/// The resolved health of one project's build.  `Unknown` is the explicit
/// "could not determine" sentinel: a successful resolution never yields it;
/// only the acquisition cycle substitutes it for a failed resolution.
#[derive(Clone, Copy, Debug, PartialEq, Eq, Structural)]
pub enum BuildStatus {
    Unknown,
    InProgress,
    Success,
    Failure,
}

impl BuildStatus {
    /// The text this status is rendered as.
    pub open spec fn spec_text(self) -> Seq<char> {
        match self {
            BuildStatus::Unknown => "UNKNOWN"@,
            BuildStatus::InProgress => "IN PROGRESS"@,
            BuildStatus::Success => "SUCCESS"@,
            BuildStatus::Failure => "FAILURE"@,
        }
    }

    /// Renders this status for a human reader.
    pub fn as_text(&self) -> (r: &'static str)
        ensures
            r@ == self.spec_text(),
    {
        match self {
            BuildStatus::Unknown => "UNKNOWN",
            BuildStatus::InProgress => "IN PROGRESS",
            BuildStatus::Success => "SUCCESS",
            BuildStatus::Failure => "FAILURE",
        }
    }
}

/// One project's resolved status, addressed to its output pin.
#[derive(Debug, PartialEq)]
pub struct StatusReport {
    pub pin_id: String,
    pub status: BuildStatus,
}

/// What one HTTP exchange with the build server came to, as the transport
/// layer reports it: a response with its status code and body text, or a
/// failure before any response arrived, or a failure while reading the body.
#[derive(Debug, PartialEq)]
pub enum FetchOutcome {
    Response { code: u16, body: String },
    TransportFailure { description: String },
    ReadFailure { description: String },
}

/// Why a project's status could not be resolved.
#[derive(Debug, PartialEq)]
pub enum EnquirerError {
    /// The HTTP request itself failed (connection, TLS, ...).
    HttpError { description: String },
    /// The response body could not be read.
    IoError { description: String },
    /// The last-build response body is not valid JSON.
    JsonError { description: String },
    /// The running-build check answered with a status code that means neither
    /// "a build is running" nor "no build is running".
    UnexpectedHttpStatus { code: u16 },
    /// The last-build response carries no string field `status`.
    StatusFieldNotString,
    /// The `status` field holds neither `SUCCESS` nor `FAILURE`.
    UnexpectedStatusValue { value: String },
}

impl EnquirerError {
    /// The diagnostic line this error is reported as.
    pub open spec fn spec_describe(self) -> Seq<char> {
        match self {
            EnquirerError::HttpError { description } => description@,
            EnquirerError::IoError { description } => description@,
            EnquirerError::JsonError { description } => description@,
            EnquirerError::UnexpectedHttpStatus { code } => "Error during running status query, status code "@
                + spec_decimal(code as nat),
            EnquirerError::StatusFieldNotString => "Build status field in server response is not valid string"@,
            EnquirerError::UnexpectedStatusValue { value } => "Unexpected build status value: "@
                + value@,
        }
    }

    /// Renders the diagnostic line for this error.
    pub fn describe(&self) -> (r: String)
        ensures
            r@ == self.spec_describe(),
    {
        match self {
            EnquirerError::HttpError { description } => description.clone(),
            EnquirerError::IoError { description } => description.clone(),
            EnquirerError::JsonError { description } => description.clone(),
            EnquirerError::UnexpectedHttpStatus { code } => {
                let mut s: String = "Error during running status query, status code ".to_owned();
                let num = u16_decimal(*code);
                s.append(num.as_str());
                s
            },
            EnquirerError::StatusFieldNotString => "Build status field in server response is not valid string".to_owned(),
            EnquirerError::UnexpectedStatusValue { value } => {
                let mut s: String = "Unexpected build status value: ".to_owned();
                s.append(value.as_str());
                s
            },
        }
    }
}

/// serde_json's error type, held only long enough to be turned into a
/// diagnostic text.
#[verifier::external_type_specification]
#[verifier::external_body]
pub struct ExJsonError(serde_json::Error);

/// Whether `s` is a well-formed JSON document, as serde_json accepts it.
pub uninterp spec fn json_parses(s: Seq<char>) -> bool;

/// The string value of the top-level field named `field` of the JSON document
/// `s`: `Some` of its characters when `s` parses to an object whose field
/// `field` holds a string, `None` when `s` parses to anything else.
/// Meaningful only when `json_parses(s)` holds.
pub uninterp spec fn json_string_field(s: Seq<char>, field: Seq<char>) -> Option<Seq<char>>;

/// Relies on serde_json::from_str::<Value> (whether a text parses as JSON is
/// a function of the text alone), serde_json::Value::get (the named field of
/// the parsed top-level value) and serde_json::Value::as_str (its string
/// value, when it is a string).
#[verifier::external_body]
fn parse_string_field(body: &str, field: &str) -> (r: Result<Option<String>, serde_json::Error>)
    ensures
        r is Ok <==> json_parses(body@),
        r matches Ok(Some(v)) ==> json_string_field(body@, field@) == Some(v@),
        r matches Ok(None) ==> json_string_field(body@, field@) is None,
{
    match serde_json::from_str::<serde_json::Value>(body) {
        Ok(v) => Ok(v.get(field).and_then(serde_json::Value::as_str).map(str::to_string)),
        Err(e) => Err(e),
    }
}

/// Relies on serde_json::Error's Display impl for the diagnostic text.
#[verifier::external_body]
fn json_error_message(e: &serde_json::Error) -> String {
    e.to_string()
}

/// What a resolution comes to, stated over the observed exchanges alone.
pub enum Resolution {
    /// The two-stage query resolved the project to this status.
    Status(BuildStatus),
    /// A request failed in the transport; the payload is the transport's text.
    TransportFault(Seq<char>),
    /// A response body could not be read; the payload is the reader's text.
    ReadFault(Seq<char>),
    /// The last-build body is not valid JSON.
    ParseFault,
    /// The running-build check answered with this unexpected status code.
    BadStatusCode(u16),
    /// The last-build body carries no string field `status`.
    FieldNotString,
    /// The `status` field holds this unrecognized value.
    BadStatusValue(Seq<char>),
}

/// Whether the running-build check, answered by `running`, calls for the
/// last-build query: only a plain "404 Not Found" answer does.
pub open spec fn spec_needs_last_build(running: FetchOutcome) -> bool {
    running matches FetchOutcome::Response { code, .. } && code == 404
}

/// Whether the running-build check, answered by `running`, calls for the
/// last-build query.
pub fn needs_last_build(running: &FetchOutcome) -> (r: bool)
    ensures
        r == spec_needs_last_build(*running),
{
    match running {
        FetchOutcome::Response { code, .. } => *code == 404,
        _ => false,
    }
}

/// What the last-build status check owes for the exchange `last`: the body is
/// read as JSON and its string field `status` decides between `Success` and
/// `Failure`; everything else is a fault, never a silent default.
pub open spec fn spec_last_build_resolution(last: FetchOutcome) -> Resolution {
    match last {
        FetchOutcome::Response { code: _, body } => {
            if !json_parses(body@) {
                Resolution::ParseFault
            } else {
                match json_string_field(body@, "status"@) {
                    Option::None => Resolution::FieldNotString,
                    Option::Some(v) => if v == "SUCCESS"@ {
                        Resolution::Status(BuildStatus::Success)
                    } else if v == "FAILURE"@ {
                        Resolution::Status(BuildStatus::Failure)
                    } else {
                        Resolution::BadStatusValue(v)
                    },
                }
            }
        },
        FetchOutcome::TransportFailure { description } => Resolution::TransportFault(description@),
        FetchOutcome::ReadFailure { description } => Resolution::ReadFault(description@),
    }
}

/// What the whole two-stage query owes for the observed exchanges: a `200`
/// answer to the running-build check short-circuits to `InProgress`, a `404`
/// answer defers to the last-build check, any other answer or fault stops the
/// resolution.  Meaningful when `last` is present exactly where
/// `spec_needs_last_build(running)` asks for it.
pub open spec fn spec_resolution(running: FetchOutcome, last: Option<FetchOutcome>) -> Resolution {
    match running {
        FetchOutcome::Response { code, .. } => {
            if code == 200 {
                Resolution::Status(BuildStatus::InProgress)
            } else if code == 404 {
                match last {
                    Option::Some(l) => spec_last_build_resolution(l),
                    Option::None => arbitrary(),
                }
            } else {
                Resolution::BadStatusCode(code)
            }
        },
        FetchOutcome::TransportFailure { description } => Resolution::TransportFault(description@),
        FetchOutcome::ReadFailure { description } => Resolution::ReadFault(description@),
    }
}

/// How an error value realises a faulting `Resolution`.
pub open spec fn fault_error_matches(e: EnquirerError, m: Resolution) -> bool {
    match m {
        Resolution::Status(_) => false,
        Resolution::TransportFault(d) => e matches EnquirerError::HttpError { description }
            && description@ == "Error on HTTP request processing: "@ + d,
        Resolution::ReadFault(d) => e matches EnquirerError::IoError { description }
            && description@ == "Error on response reading: "@ + d,
        Resolution::ParseFault => e matches EnquirerError::JsonError { .. },
        Resolution::BadStatusCode(c) => e matches EnquirerError::UnexpectedHttpStatus { code }
            && code == c,
        Resolution::FieldNotString => e == EnquirerError::StatusFieldNotString,
        Resolution::BadStatusValue(v) => e matches EnquirerError::UnexpectedStatusValue { value }
            && value@ == v,
    }
}

/// How a status result realises a `Resolution`.
pub open spec fn status_matches(r: Result<BuildStatus, EnquirerError>, m: Resolution) -> bool {
    match m {
        Resolution::Status(s) => r matches Ok(st) && st == s,
        _ => r matches Err(e) && fault_error_matches(e, m),
    }
}

/// How a report result realises a `Resolution` for the pin `pin_id`.
pub open spec fn resolution_matches(
    r: Result<StatusReport, EnquirerError>,
    m: Resolution,
    pin_id: Seq<char>,
) -> bool {
    match m {
        Resolution::Status(s) => r matches Ok(rep) && rep.pin_id@ == pin_id && rep.status == s,
        _ => r matches Err(e) && fault_error_matches(e, m),
    }
}

/// The build status resolver: interprets the answers of the two-stage query
/// against the build server.  It holds no state of its own; the transport
/// that carries the requests is handed its outcomes.
pub struct Enquirer {}

impl Enquirer {
    /// A fresh resolver.
    pub fn new() -> (r: Enquirer)
        ensures
            r == (Enquirer {  }),
    {
        Enquirer {  }
    }

    /// The query that asks whether a build of this project is running now.
    pub open spec fn spec_running_build_url(base: Seq<char>, build_type_id: Seq<char>) -> Seq<char> {
        base + "/guestAuth/app/rest/buildTypes/id:"@ + build_type_id + "/builds/running:true"@
    }

    /// The query that asks for the most recent finished build of this project.
    pub open spec fn spec_last_build_url(base: Seq<char>, build_type_id: Seq<char>) -> Seq<char> {
        base + "/guestAuth/app/rest/buildTypes/id:"@ + build_type_id + "/builds/count:1"@
    }

    /// Builds the running-build check's address.
    pub fn running_build_url(&self, tc_url: &str, project: &ProjectSettings) -> (r: String)
        ensures
            r@ == Self::spec_running_build_url(tc_url@, project.build_type_id@),
    {
        let mut url: String = tc_url.to_owned();
        url.append("/guestAuth/app/rest/buildTypes/id:");
        url.append(project.build_type_id.as_str());
        url.append("/builds/running:true");
        url
    }

    /// Builds the last-build check's address.
    pub fn last_build_url(&self, tc_url: &str, project: &ProjectSettings) -> (r: String)
        ensures
            r@ == Self::spec_last_build_url(tc_url@, project.build_type_id@),
    {
        let mut url: String = tc_url.to_owned();
        url.append("/guestAuth/app/rest/buildTypes/id:");
        url.append(project.build_type_id.as_str());
        url.append("/builds/count:1");
        url
    }

    /// The `Accept` header value both queries carry.
    pub fn json_accept_header_value(&self) -> (r: &'static str)
        ensures
            r@ == "application/json; charset=utf-8"@,
    {
        "application/json; charset=utf-8"
    }

    /// Interprets the running-build check: `200` means a build is running,
    /// `404` means none is, anything else is an error carrying the code; a
    /// transport fault is passed on as such.
    pub fn query_for_running_build(&self, outcome: &FetchOutcome) -> (r: Result<bool, EnquirerError>)
        ensures
            match *outcome {
                FetchOutcome::Response { code, .. } => if code == 200 {
                    r == Ok::<bool, EnquirerError>(true)
                } else if code == 404 {
                    r == Ok::<bool, EnquirerError>(false)
                } else {
                    r matches Err(e) && (e matches EnquirerError::UnexpectedHttpStatus { code: c }
                        && c == code)
                },
                FetchOutcome::TransportFailure { description } => r matches Err(e)
                    && (e matches EnquirerError::HttpError { description: d }
                    && d@ == "Error on HTTP request processing: "@ + description@),
                FetchOutcome::ReadFailure { description } => r matches Err(e)
                    && (e matches EnquirerError::IoError { description: d }
                    && d@ == "Error on response reading: "@ + description@),
            },
    {
        match outcome {
            FetchOutcome::Response { code, .. } => {
                if *code == 200 {
                    Ok(true)
                } else if *code == 404 {
                    Ok(false)
                } else {
                    Err(EnquirerError::UnexpectedHttpStatus { code: *code })
                }
            },
            FetchOutcome::TransportFailure { description } => {
                let mut d: String = "Error on HTTP request processing: ".to_owned();
                d.append(description.as_str());
                Err(EnquirerError::HttpError { description: d })
            },
            FetchOutcome::ReadFailure { description } => {
                let mut d: String = "Error on response reading: ".to_owned();
                d.append(description.as_str());
                Err(EnquirerError::IoError { description: d })
            },
        }
    }

    /// The status a last-build answer's extracted `status` field resolves to:
    /// exactly `SUCCESS` and `FAILURE` are accepted; a missing or non-string
    /// field, and any other value, are errors, never a silent default.
    pub fn build_status_from_field(&self, field: Option<String>) -> (r: Result<
        BuildStatus,
        EnquirerError,
    >)
        ensures
            match field {
                Option::None => r matches Err(e) && e == EnquirerError::StatusFieldNotString,
                Option::Some(v) => if v@ == "SUCCESS"@ {
                    r matches Ok(s) && s == BuildStatus::Success
                } else if v@ == "FAILURE"@ {
                    r matches Ok(s) && s == BuildStatus::Failure
                } else {
                    r matches Err(e) && (e matches EnquirerError::UnexpectedStatusValue { value }
                        && value@ == v@)
                },
            },
    {
        match field {
            Option::None => Err(EnquirerError::StatusFieldNotString),
            Option::Some(v) => {
                let success: String = "SUCCESS".to_owned();
                let failure: String = "FAILURE".to_owned();
                if v == success {
                    Ok(BuildStatus::Success)
                } else if v == failure {
                    Ok(BuildStatus::Failure)
                } else {
                    Err(EnquirerError::UnexpectedStatusValue { value: v })
                }
            },
        }
    }

    /// Interprets the last-build status check: the body is parsed as JSON and
    /// its string field `status` decides the resolved status.
    pub fn query_for_last_build(&self, outcome: &FetchOutcome) -> (r: Result<
        BuildStatus,
        EnquirerError,
    >)
        ensures
            status_matches(r, spec_last_build_resolution(*outcome)),
    {
        match outcome {
            FetchOutcome::Response { code: _, body } => {
                match parse_string_field(body.as_str(), "status") {
                    Ok(field) => self.build_status_from_field(field),
                    Err(e) => {
                        let mut d: String = "Error on response deserialization: ".to_owned();
                        let msg = json_error_message(&e);
                        d.append(msg.as_str());
                        Err(EnquirerError::JsonError { description: d })
                    },
                }
            },
            FetchOutcome::TransportFailure { description } => {
                let mut d: String = "Error on HTTP request processing: ".to_owned();
                d.append(description.as_str());
                Err(EnquirerError::HttpError { description: d })
            },
            FetchOutcome::ReadFailure { description } => {
                let mut d: String = "Error on response reading: ".to_owned();
                d.append(description.as_str());
                Err(EnquirerError::IoError { description: d })
            },
        }
    }

    /// Resolves one project from the observed exchanges: the answer to the
    /// running-build check, and, exactly where that answer calls for it, the
    /// answer to the last-build check.  A successful resolution reports the
    /// project's own pin and never `Unknown`.
    pub fn query_for_project(
        &self,
        project: &ProjectSettings,
        running: &FetchOutcome,
        last: &Option<FetchOutcome>,
    ) -> (r: Result<StatusReport, EnquirerError>)
        requires
            (*last) is Some <==> spec_needs_last_build(*running),
        ensures
            resolution_matches(r, spec_resolution(*running, *last), project.pin_id@),
    {
        let pin_id = project.pin_id.clone();
        match self.query_for_running_build(running) {
            Ok(is_running) => {
                if is_running {
                    Ok(StatusReport { pin_id, status: BuildStatus::InProgress })
                } else {
                    match last {
                        Option::Some(l) => {
                            match self.query_for_last_build(l) {
                                Ok(status) => Ok(StatusReport { pin_id, status }),
                                Err(e) => Err(e),
                            }
                        },
                        Option::None => vstd::pervasive::unreached(),
                    }
                }
            },
            Err(e) => Err(e),
        }
    }
}

/// Law: a running build short-circuits the query.  For every project, a
/// `200` answer to the running-build check resolves to `InProgress`, and the
/// last-build query is not called for.
pub proof fn lemma_running_build_short_circuits(body: String)
    ensures
        !spec_needs_last_build(FetchOutcome::Response { code: 200, body }),
        spec_resolution(FetchOutcome::Response { code: 200, body }, None) == Resolution::Status(
            BuildStatus::InProgress,
        ),
{
}

/// Law: a finished build resolves by its `status` field.  For every project,
/// after a `404` answer to the running-build check, a last-build body whose
/// string field `status` reads `SUCCESS` resolves to `Success`, and one whose
/// field reads `FAILURE` resolves to `Failure`.
pub proof fn lemma_last_build_resolves_by_field(
    running_body: String,
    code: u16,
    body: String,
)
    requires
        json_parses(body@),
    ensures
        spec_needs_last_build(FetchOutcome::Response { code: 404, body: running_body }),
        json_string_field(body@, "status"@) == Some("SUCCESS"@) ==> spec_resolution(
            FetchOutcome::Response { code: 404, body: running_body },
            Some(FetchOutcome::Response { code, body }),
        ) == Resolution::Status(BuildStatus::Success),
        json_string_field(body@, "status"@) == Some("FAILURE"@) ==> spec_resolution(
            FetchOutcome::Response { code: 404, body: running_body },
            Some(FetchOutcome::Response { code, body }),
        ) == Resolution::Status(BuildStatus::Failure),
{
    reveal_strlit("SUCCESS");
    reveal_strlit("FAILURE");
    assert("SUCCESS"@[0] == 'S' && "FAILURE"@[0] == 'F');
}

/// Law: an ill-formed `status` field is a semantic error, never a silent
/// default.  After a `404` answer, a last-build body that parses but has no
/// string field `status` fails as such, and one whose field holds any value
/// other than `SUCCESS` or `FAILURE` fails naming that value; neither
/// resolves to a status.
pub proof fn lemma_bad_status_field_is_error(running_body: String, code: u16, body: String)
    requires
        json_parses(body@),
    ensures
        json_string_field(body@, "status"@) is None ==> spec_resolution(
            FetchOutcome::Response { code: 404, body: running_body },
            Some(FetchOutcome::Response { code, body }),
        ) == Resolution::FieldNotString,
        match json_string_field(body@, "status"@) {
            Option::Some(v) => v != "SUCCESS"@ && v != "FAILURE"@ ==> spec_resolution(
                FetchOutcome::Response { code: 404, body: running_body },
                Some(FetchOutcome::Response { code, body }),
            ) == Resolution::BadStatusValue(v),
            Option::None => true,
        },
{
}

/// Law: an unexpected answer to the running-build check is a semantic error
/// naming the status code, and the last-build query is not called for.
pub proof fn lemma_unexpected_code_is_error(code: u16, body: String)
    requires
        code != 200,
        code != 404,
    ensures
        !spec_needs_last_build(FetchOutcome::Response { code, body }),
        spec_resolution(FetchOutcome::Response { code, body }, None) == Resolution::BadStatusCode(
            code,
        ),
{
}

/// Law: no resolution ever comes out `Unknown`.  Whatever the observed
/// exchanges, the resolver either names one of the three determined statuses
/// or fails; `Unknown` is only ever substituted by the acquisition cycle for
/// a failed resolution.
pub proof fn lemma_resolver_never_unknown(running: FetchOutcome, last: Option<FetchOutcome>)
    requires
        spec_needs_last_build(running) ==> last is Some,
    ensures
        spec_resolution(running, last) != Resolution::Status(BuildStatus::Unknown),
{
}

} // verus!
