use vstd::prelude::*;
use vstd::string::StringExecFns;

verus! {

/// The decision service's verdict on a scanned code.
#[derive(Clone, Copy, Debug, PartialEq, Eq, Structural)]
pub enum AccessStatus {
    Granted,
    Denied,
}

/// HTTP status that the decision service answers with when it grants access.
pub const STATUS_NO_CONTENT: u16 = 204;

/// HTTP status for a malformed request: the code is denied.
pub const STATUS_BAD_REQUEST: u16 = 400;

/// HTTP status for an unknown code: the code is denied.
pub const STATUS_NOT_FOUND: u16 = 404;

/// The verdict that an HTTP status of the decision service carries, if any.
pub open spec fn verdict_of_status(status: u16) -> Option<AccessStatus> {
    if status == STATUS_NO_CONTENT {
        Some(AccessStatus::Granted)
    } else if status == STATUS_NOT_FOUND || status == STATUS_BAD_REQUEST {
        Some(AccessStatus::Denied)
    } else {
        None
    }
}

/// Reads the decision service's verdict from the status of its answer;
/// `None` for any status that is neither a grant nor a denial.
pub fn verdict_from_status(status: u16) -> (r: Option<AccessStatus>)
    ensures
        r == verdict_of_status(status),
{
    if status == STATUS_NO_CONTENT {
        Some(AccessStatus::Granted)
    } else if status == STATUS_NOT_FOUND || status == STATUS_BAD_REQUEST {
        Some(AccessStatus::Denied)
    } else {
        None
    }
}

/// The body of a request for a verdict on a scanned code.
pub struct AccessCodeAccess<'a> {
    pub code: &'a str,
}

impl<'a> AccessCodeAccess<'a> {
    /// A request about `code`.
    pub fn new(code: &'a str) -> (r: AccessCodeAccess<'a>)
        ensures
            r.code@ == code@,
    {
        AccessCodeAccess { code }
    }
}

/// An answer of the decision service that is neither a grant nor a denial.
pub struct AccessError {
    message: String,
}

/// The message of an answer that carried no readable error.
pub const UNEXPECTED_RESPONSE: &'static str = "unexpected response";

impl AccessError {
    /// The text that the error carries.
    pub closed spec fn spec_message(&self) -> Seq<char> {
        self.message@
    }

    /// An error with the service's own message.
    pub fn new(message: String) -> (r: AccessError)
        ensures
            r.spec_message() == message@,
    {
        AccessError { message }
    }

    /// The error used where the service's answer holds no readable message.
    pub fn unexpected_response() -> (r: AccessError)
        ensures
            r.spec_message() == UNEXPECTED_RESPONSE@,
    {
        AccessError { message: String::from_str(UNEXPECTED_RESPONSE) }
    }

    /// The text that the error carries.
    pub fn message(&self) -> (r: String)
        ensures
            r@ == self.spec_message(),
    {
        self.message.clone()
    }
}

/// Path of the decision service's verdict endpoint, under its base URL.
pub const ACCESS_CODE_PATH: &'static str = "/access/code";

/// Path of the decision service's active profile endpoint, under its base URL.
pub const ACTIVE_PROFILE_PATH: &'static str = "/active-profile";

/// Where and how to reach the decision service.
pub struct AccessEndpoints {
    pub api_url: String,
    pub api_token: String,
}

impl AccessEndpoints {
    /// The service at `api_url`, reached with the bearer token `api_token`.
    pub fn new(api_url: String, api_token: String) -> (r: AccessEndpoints)
        ensures
            r.api_url == api_url,
            r.api_token == api_token,
    {
        AccessEndpoints { api_url, api_token }
    }

    /// The URL of the verdict endpoint.
    pub fn access_code_url(&self) -> (r: String)
        ensures
            r@ == self.api_url@ + ACCESS_CODE_PATH@,
    {
        self.api_url.clone().concat(ACCESS_CODE_PATH)
    }

    /// The URL of the active profile endpoint.
    pub fn active_profile_url(&self) -> (r: String)
        ensures
            r@ == self.api_url@ + ACTIVE_PROFILE_PATH@,
    {
        self.api_url.clone().concat(ACTIVE_PROFILE_PATH)
    }
}

/// The word that stands for a verdict in the access log.
pub open spec fn verdict_word(status: AccessStatus) -> Seq<char> {
    match status {
        AccessStatus::Granted => "granted"@,
        AccessStatus::Denied => "denied"@,
    }
}

/// The access log's line for a verdict on a code: the code, a space, the
/// verdict's word and a line terminator.
pub fn access_log_line(code: &str, status: AccessStatus) -> (r: String)
    ensures
        r@ == code@ + " "@ + verdict_word(status) + "\n"@,
{
    let word = match status {
        AccessStatus::Granted => "granted",
        AccessStatus::Denied => "denied",
    };
    String::from_str(code).concat(" ").concat(word).concat("\n")
}

/// HTTP status of a command that was written to the link.
pub const STATUS_SUBMITTED: u16 = 204;

/// HTTP status of a command that could not be written.
pub const STATUS_SUBMIT_FAILED: u16 = 500;

/// The HTTP status that answers a command submission.
pub fn submission_status(written: bool) -> (r: u16)
    ensures
        r == (if written { STATUS_SUBMITTED } else { STATUS_SUBMIT_FAILED }),
{
    if written {
        STATUS_SUBMITTED
    } else {
        STATUS_SUBMIT_FAILED
    }
}

} // verus!
