//! Turning what came back from a provider into the uniform result of each
//! operation: a payload on success, an error message otherwise.
use vstd::prelude::*;
use crate::json::{Json, member_or_null, element_or_null, text_of};
use crate::provider::Provider;
use crate::text::{decimal, decimal_of, contains_seq};

verus! {

/// The text that stands in for a reply that holds no message content.
pub const NO_RESPONSE: &'static str = "No response generated";

/// The aggregator's error message when its error body says nothing usable.
pub const GENERIC_API_ERROR: &'static str = "API Error";

/// The start of the local server's error message for a failed status.
pub const LOCAL_STATUS_ERROR_HEAD: &'static str = "Ollama API Error: ";

/// The start of the probe's error message for a failed status.
pub const PROBE_STATUS_ERROR_HEAD: &'static str = "Connection failed: ";

/// The marker that free-tier aggregator models carry in their identifier.
pub const FREE_TIER_MARKER: &'static str = ":free";

/// What a request came to.
pub enum HttpOutcome {
    /// No response: the client could not be built, or the transport failed
    /// (refused connection, DNS, TLS, time limit); with its message.
    Unreachable(String),
    /// A response with this status; its body read as JSON, or the message of
    /// the failure to read it.
    Answered { status: u16, body: Result<Json, String> },
}

/// Whether `status` is in the 2xx range.
pub open spec fn is_success_status(status: u16) -> bool {
    200 <= status <= 299
}

/// The message for a failed status from the local server.
pub open spec fn local_status_error(status: u16) -> Seq<char> {
    LOCAL_STATUS_ERROR_HEAD@ + decimal_of(status as nat)
}

/// The message for a failed status on the connectivity probe.
pub open spec fn probe_status_error(status: u16) -> Seq<char> {
    PROBE_STATUS_ERROR_HEAD@ + decimal_of(status as nat)
}

/// The aggregator's own message in an error body: `error.message`, else
/// `error` where it is a string, else the generic message. An unreadable
/// body counts as `null`.
pub open spec fn aggregator_error(body: Result<Json, String>) -> Seq<char> {
    let j = match body {
        Ok(j) => j,
        Err(_) => Json::Null,
    };
    let err = member_or_null(j, "error"@);
    match text_of(member_or_null(err, "message"@)) {
        Some(t) => t,
        None => match text_of(err) {
            Some(t) => t,
            None => GENERIC_API_ERROR@,
        },
    }
}

/// The error message of an enhancement or listing outcome, or none where
/// the outcome is a success.
pub open spec fn error_of(provider: Provider, outcome: HttpOutcome) -> Option<Seq<char>> {
    match outcome {
        HttpOutcome::Unreachable(m) => Some(m@),
        HttpOutcome::Answered { status, body } => if !is_success_status(status) {
            match provider {
                Provider::Local => Some(local_status_error(status)),
                Provider::Aggregator => Some(aggregator_error(body)),
            }
        } else {
            match body {
                Ok(_) => None,
                Err(m) => Some(m@),
            }
        },
    }
}

/// The reply's message content: `message.content` from the local server,
/// `choices[0].message.content` from the aggregator.
pub open spec fn reply_content(provider: Provider, j: Json) -> Json {
    match provider {
        Provider::Local => member_or_null(member_or_null(j, "message"@), "content"@),
        Provider::Aggregator => member_or_null(
            member_or_null(element_or_null(member_or_null(j, "choices"@), 0), "message"@),
            "content"@,
        ),
    }
}

/// The rewritten prompt in a reply: its content where that is a string,
/// else the placeholder.
pub open spec fn reply_text(provider: Provider, j: Json) -> Seq<char> {
    match text_of(reply_content(provider, j)) {
        Some(t) => t,
        None => NO_RESPONSE@,
    }
}

/// A failed status from the local server, on enhancement, listing or the
/// probe, gives an error message that holds the status code in decimal.
pub proof fn status_errors_name_the_code(status: u16, body: Result<Json, String>)
    requires
        !is_success_status(status),
    ensures
        error_of(Provider::Local, HttpOutcome::Answered { status, body }) matches Some(e)
            && contains_seq(e, decimal_of(status as nat)),
        probe_error_of(HttpOutcome::Answered { status, body }) matches Some(e) && contains_seq(
            e,
            decimal_of(status as nat),
        ),
{
    let d = decimal_of(status as nat);
    let l = local_status_error(status);
    let p = probe_status_error(status);
    assert(l.subrange(LOCAL_STATUS_ERROR_HEAD@.len() as int, l.len() as int) =~= d);
    assert(crate::text::occurs_at(l, d, LOCAL_STATUS_ERROR_HEAD@.len() as int));
    assert(p.subrange(PROBE_STATUS_ERROR_HEAD@.len() as int, p.len() as int) =~= d);
    assert(crate::text::occurs_at(p, d, PROBE_STATUS_ERROR_HEAD@.len() as int));
}

/// A transport failure with a non-empty message is a failure, on every
/// operation and for either provider, whose error message is not empty.
pub proof fn transport_failures_are_reported(provider: Provider, message: String)
    requires
        message@.len() > 0,
    ensures
        error_of(provider, HttpOutcome::Unreachable(message)) matches Some(e) && e.len() > 0,
        probe_error_of(HttpOutcome::Unreachable(message)) matches Some(e) && e.len() > 0,
{
}

/// A readable 2xx reply of the local server without `message.content` is a
/// success whose rewritten prompt is the placeholder.
pub proof fn missing_content_gives_placeholder(status: u16, j: Json)
    requires
        is_success_status(status),
        member_or_null(member_or_null(j, "message"@), "content"@) == Json::Null,
    ensures
        error_of(Provider::Local, HttpOutcome::Answered { status, body: Ok(j) }) is None,
        reply_text(Provider::Local, j) == NO_RESPONSE@,
{
}

/// The result of an enhancement.
pub struct EnhanceResult {
    pub success: bool,
    pub enhanced_prompt: Option<String>,
    pub error: Option<String>,
}

impl EnhanceResult {
    /// A success carries the prompt and no error; a failure the error and no prompt.
    pub open spec fn well_formed(&self) -> bool {
        &&& self.success == self.enhanced_prompt is Some
        &&& self.success != self.error is Some
    }
}

fn failed_enhancement(e: String) -> (r: EnhanceResult)
    ensures
        !r.success,
        r.enhanced_prompt is None,
        r.error == Some(e),
{
    EnhanceResult { success: false, enhanced_prompt: None, error: Some(e) }
}

fn local_status_message(status: u16) -> (r: String)
    ensures
        r@ == local_status_error(status),
{
    let mut s = String::from_str(LOCAL_STATUS_ERROR_HEAD);
    s.append(decimal(status).as_str());
    s
}

fn aggregator_message(body: &Result<Json, String>) -> (r: String)
    ensures
        r@ == aggregator_error(*body),
{
    let err = match body {
        Ok(j) => j.member("error"),
        Err(_) => None,
    };
    match err {
        Some(e) => {
            match e.member("message") {
                Some(m) => match m.text() {
                    Some(t) => return t.clone(),
                    None => {},
                },
                None => {},
            }
            match e.text() {
                Some(t) => t.clone(),
                None => String::from_str(GENERIC_API_ERROR),
            }
        },
        None => String::from_str(GENERIC_API_ERROR),
    }
}

pub(crate) fn status_error(provider: Provider, status: u16, body: &Result<Json, String>) -> (r: String)
    requires
        !is_success_status(status),
    ensures
        error_of(provider, HttpOutcome::Answered { status, body: *body }) == Some(r@),
{
    match provider {
        Provider::Local => local_status_message(status),
        Provider::Aggregator => aggregator_message(body),
    }
}

fn reply(provider: Provider, j: &Json) -> (r: String)
    ensures
        r@ == reply_text(provider, *j),
{
    let content = match provider {
        Provider::Local => match j.member("message") {
            Some(m) => m.member("content"),
            None => None,
        },
        Provider::Aggregator => match j.member("choices") {
            Some(c) => match c.element(0) {
                Some(first) => match first.member("message") {
                    Some(m) => m.member("content"),
                    None => None,
                },
                None => None,
            },
            None => None,
        },
    };
    match content {
        Some(c) => match c.text() {
            Some(t) => t.clone(),
            None => String::from_str(NO_RESPONSE),
        },
        None => String::from_str(NO_RESPONSE),
    }
}

/// Shapes what came back from the chat request into an enhancement result.
/// It succeeds exactly on a 2xx status with a readable body, carrying the
/// reply's content or the placeholder; otherwise the error is the transport
/// message, the status message of the local server, the aggregator's own
/// message, or the message of the body that could not be read.
pub fn enhance_result(provider: Provider, outcome: HttpOutcome) -> (r: EnhanceResult)
    ensures
        r.well_formed(),
        r.success == (error_of(provider, outcome) is None),
        !r.success ==> error_of(provider, outcome) == Some(r.error.unwrap()@),
        r.success ==> (outcome matches HttpOutcome::Answered { body: Ok(j), .. }
            && r.enhanced_prompt.unwrap()@ == reply_text(provider, j)),
{
    match outcome {
        HttpOutcome::Unreachable(m) => failed_enhancement(m),
        HttpOutcome::Answered { status, body } => {
            if status < 200 || status > 299 {
                failed_enhancement(status_error(provider, status, &body))
            } else {
                match body {
                    Ok(j) => EnhanceResult {
                        success: true,
                        enhanced_prompt: Some(reply(provider, &j)),
                        error: None,
                    },
                    Err(m) => failed_enhancement(m),
                }
            }
        },
    }
}

/// The result of the connectivity probe.
pub struct ConnectionResult {
    pub success: bool,
    pub error: Option<String>,
}

/// The probe's error message, or none where it succeeded: any 2xx status
/// is a success, whatever the body.
pub open spec fn probe_error_of(outcome: HttpOutcome) -> Option<Seq<char>> {
    match outcome {
        HttpOutcome::Unreachable(m) => Some(m@),
        HttpOutcome::Answered { status, .. } => if is_success_status(status) {
            None
        } else {
            Some(probe_status_error(status))
        },
    }
}

/// Shapes what came back from the probe into a connectivity result.
pub fn connection_result(outcome: HttpOutcome) -> (r: ConnectionResult)
    ensures
        r.success == (r.error is None),
        r.success == (probe_error_of(outcome) is None),
        !r.success ==> probe_error_of(outcome) == Some(r.error.unwrap()@),
{
    match outcome {
        HttpOutcome::Unreachable(m) => ConnectionResult { success: false, error: Some(m) },
        HttpOutcome::Answered { status, .. } => {
            if status < 200 || status > 299 {
                let mut s = String::from_str(PROBE_STATUS_ERROR_HEAD);
                s.append(decimal(status).as_str());
                ConnectionResult { success: false, error: Some(s) }
            } else {
                ConnectionResult { success: true, error: None }
            }
        },
    }
}

} // verus!
