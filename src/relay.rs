//! The gateway's decisions: the reply to a health probe, what to do with an
//! inbound analysis request, and the reply once the downstream call is over.
//!
//! The driver performs the one outbound call that [`plan`] asks for and hands
//! its outcome to [`conclude`].

use crate::validation::{rejection_text, validate, AnalysisRequest, Rejection};
use vstd::prelude::*;
use vstd::string::StringExecFns;

verus! {

/// HTTP status of a reply that completed.
pub const STATUS_OK: u16 = 200;

/// HTTP status of a request that broke a validation rule.
pub const STATUS_BAD_REQUEST: u16 = 400;

/// HTTP status of a request whose downstream call did not complete.
pub const STATUS_INTERNAL_ERROR: u16 = 500;

/// How long the outbound call may wait for the downstream service.
pub const DOWNSTREAM_TIMEOUT_SECS: u64 = 10;

/// The structured reply of a request that was not relayed.
pub struct ValidationResponse {
    pub is_valid: bool,
    pub message: String,
    pub data: Option<AnalysisRequest>,
}

/// The liveness payload.
pub struct HealthStatus {
    pub service: String,
    pub status: String,
}

pub enum ReplyBody {
    /// A validation or dependency failure, encoded as JSON.
    Verdict(ValidationResponse),
    /// The liveness payload, encoded as JSON.
    Health(HealthStatus),
    /// Text passed on to the caller as it is.
    Passthrough(String),
}

/// What the gateway answers: a status and a body.
pub struct Reply {
    pub status: u16,
    pub body: ReplyBody,
}

/// The outbound call that an accepted request asks for.
pub struct Forward {
    pub url: String,
    pub request: AnalysisRequest,
    pub timeout_secs: u64,
}

/// What to do with an inbound request.
pub enum Step {
    /// Answer at once; no outbound call.
    Respond(Reply),
    /// Make exactly this outbound call.
    Forward(Forward),
}

/// How the outbound call ended.
pub enum DownstreamOutcome {
    /// No response arrived: connection refused, timeout, name resolution.
    Unreachable,
    /// A response arrived, with its body as text, or `None` when the body
    /// could not be read.
    Answered(Option<String>),
}

pub open spec fn service_name() -> Seq<char> {
    "rust-service"@
}

pub open spec fn healthy_marker() -> Seq<char> {
    "healthy"@
}

pub open spec fn default_base() -> Seq<char> {
    "http://python-service:8000"@
}

pub open spec fn analyze_path() -> Seq<char> {
    "/analyze"@
}

pub open spec fn unreachable_text() -> Seq<char> {
    "failed to communicate with downstream service"@
}

pub open spec fn empty_object() -> Seq<char> {
    "{}"@
}

/// The base URL in force: the configured one unless it is absent or empty.
pub open spec fn base_in_force(configured: Option<String>) -> Seq<char> {
    match configured {
        Some(s) => if s@.len() > 0 {
            s@
        } else {
            default_base()
        },
        None => default_base(),
    }
}

/// `reply` carries `status` and a failure verdict with `text` and no data.
pub open spec fn is_failure_verdict(reply: Reply, status: u16, text: Seq<char>) -> bool {
    &&& reply.status == status
    &&& match reply.body {
        ReplyBody::Verdict(v) => !v.is_valid && v.message@ == text && v.data is None,
        _ => false,
    }
}

/// `reply` passes `text` on with status 200.
pub open spec fn is_passthrough(reply: Reply, text: Seq<char>) -> bool {
    &&& reply.status == STATUS_OK
    &&& match reply.body {
        ReplyBody::Passthrough(t) => t@ == text,
        _ => false,
    }
}

/// `step` is what the gateway does with `request` under the configured base
/// URL: a 400 verdict for the first broken rule, else one call to the
/// downstream `/analyze` endpoint carrying the request unchanged.
pub open spec fn step_conforms(request: AnalysisRequest, configured: Option<String>, step: Step) -> bool {
    match request.violation() {
        Some(v) => match step {
            Step::Respond(reply) => is_failure_verdict(reply, STATUS_BAD_REQUEST, rejection_text(v)),
            Step::Forward(_) => false,
        },
        None => match step {
            Step::Forward(f) => {
                &&& f.url@ == base_in_force(configured) + analyze_path()
                &&& f.request == request
                &&& f.timeout_secs == DOWNSTREAM_TIMEOUT_SECS
            },
            Step::Respond(_) => false,
        },
    }
}

/// The reply to an outcome of the downstream call: its body as it came with
/// 200 whatever the downstream status, `{}` for an unreadable body, and a 500
/// verdict when no response arrived.
pub open spec fn reply_conforms(outcome: DownstreamOutcome, reply: Reply) -> bool {
    match outcome {
        DownstreamOutcome::Unreachable => is_failure_verdict(
            reply,
            STATUS_INTERNAL_ERROR,
            unreachable_text(),
        ),
        DownstreamOutcome::Answered(Some(body)) => is_passthrough(reply, body@),
        DownstreamOutcome::Answered(None) => is_passthrough(reply, empty_object()),
    }
}

/// The reply to a liveness probe.
pub fn health() -> (r: Reply)
    ensures
        r.status == STATUS_OK,
        r.body matches ReplyBody::Health(h) && h.service@ == service_name() && h.status@
            == healthy_marker(),
{
    Reply {
        status: STATUS_OK,
        body: ReplyBody::Health(
            HealthStatus { service: "rust-service".to_string(), status: "healthy".to_string() },
        ),
    }
}

/// The base URL of the downstream service, from its configured value.
pub fn downstream_base(configured: Option<String>) -> (r: String)
    ensures
        r@ == base_in_force(configured),
{
    match configured {
        Some(s) => if s.as_str().unicode_len() > 0 {
            s
        } else {
            "http://python-service:8000".to_string()
        },
        None => "http://python-service:8000".to_string(),
    }
}

/// The downstream analysis endpoint under `base`.
pub fn analyze_url(base: String) -> (r: String)
    ensures
        r@ == base@ + analyze_path(),
{
    base.concat("/analyze")
}

/// The 400 reply to a broken rule.
pub fn rejection_reply(rejection: Rejection) -> (r: Reply)
    ensures
        is_failure_verdict(r, STATUS_BAD_REQUEST, rejection_text(rejection)),
{
    Reply {
        status: STATUS_BAD_REQUEST,
        body: ReplyBody::Verdict(
            ValidationResponse { is_valid: false, message: rejection.message(), data: None },
        ),
    }
}

/// Decides what to do with an inbound request: reject it, or forward it.
pub fn plan(request: AnalysisRequest, configured: Option<String>) -> (step: Step)
    ensures
        step_conforms(request, configured, step),
{
    match validate(&request) {
        Err(rejection) => Step::Respond(rejection_reply(rejection)),
        Ok(()) => {
            let url = analyze_url(downstream_base(configured));
            Step::Forward(Forward { url, request, timeout_secs: DOWNSTREAM_TIMEOUT_SECS })
        },
    }
}

/// The reply to the caller once the outbound call has ended.
pub fn conclude(outcome: DownstreamOutcome) -> (r: Reply)
    ensures
        reply_conforms(outcome, r),
{
    match outcome {
        DownstreamOutcome::Unreachable => Reply {
            status: STATUS_INTERNAL_ERROR,
            body: ReplyBody::Verdict(
                ValidationResponse {
                    is_valid: false,
                    message: "failed to communicate with downstream service".to_string(),
                    data: None,
                },
            ),
        },
        DownstreamOutcome::Answered(Some(body)) => Reply {
            status: STATUS_OK,
            body: ReplyBody::Passthrough(body),
        },
        DownstreamOutcome::Answered(None) => Reply {
            status: STATUS_OK,
            body: ReplyBody::Passthrough("{}".to_string()),
        },
    }
}

} // verus!
