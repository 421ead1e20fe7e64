//! Properties of the gateway, proved from the contracts of [`crate::relay`].

use crate::magnitude::exceeds_magnitude_limit;
use crate::relay::{
    analyze_path, base_in_force, reply_conforms, step_conforms, unreachable_text,
    DownstreamOutcome, ReplyBody, Step, Reply, STATUS_BAD_REQUEST, STATUS_INTERNAL_ERROR,
    STATUS_OK,
};
use crate::validation::{AnalysisRequest, MAX_NUMBERS, MAX_TEXT_CHARS};
use vstd::prelude::*;

verus! {

/// `step` answers at once with 400 and a verdict that is not valid.
pub open spec fn is_bad_request(step: Step) -> bool {
    &&& step matches Step::Respond(r)
    &&& r.status == STATUS_BAD_REQUEST
    &&& r.body matches ReplyBody::Verdict(v)
    &&& !v.is_valid
}

/// A request without numbers is answered with 400 and `is_valid` false.
pub proof fn lemma_empty_numbers_rejected(
    request: AnalysisRequest,
    configured: Option<String>,
    step: Step,
)
    requires
        request.numbers@.len() == 0,
        step_conforms(request, configured, step),
    ensures
        is_bad_request(step),
{
}

/// A request with more than a hundred numbers is answered with 400.
pub proof fn lemma_too_many_numbers_rejected(
    request: AnalysisRequest,
    configured: Option<String>,
    step: Step,
)
    requires
        request.numbers@.len() > MAX_NUMBERS,
        step_conforms(request, configured, step),
    ensures
        is_bad_request(step),
{
}

/// A request holding a number whose absolute value exceeds 1,000,000 is
/// answered with 400.
pub proof fn lemma_out_of_range_rejected(
    request: AnalysisRequest,
    configured: Option<String>,
    step: Step,
    i: int,
)
    requires
        0 <= i < request.numbers@.len(),
        exceeds_magnitude_limit(request.numbers@[i]),
        step_conforms(request, configured, step),
    ensures
        is_bad_request(step),
{
}

/// A request whose text is longer than a thousand characters is answered
/// with 400.
pub proof fn lemma_long_text_rejected(
    request: AnalysisRequest,
    configured: Option<String>,
    step: Step,
)
    requires
        request.text@.len() > MAX_TEXT_CHARS,
        step_conforms(request, configured, step),
    ensures
        is_bad_request(step),
{
}

/// A request that passes validation leads to exactly one outbound call, to
/// `{base}/analyze`, carrying the request as it was received.
pub proof fn lemma_accepted_request_forwarded(
    request: AnalysisRequest,
    configured: Option<String>,
    step: Step,
)
    requires
        request.is_acceptable(),
        step_conforms(request, configured, step),
    ensures
        step matches Step::Forward(f) && f.request == request && f.url@ == base_in_force(
            configured,
        ) + analyze_path(),
{
}

/// A downstream call that did not complete is answered with 500 and the
/// dependency failure message.
pub proof fn lemma_unreachable_is_internal_error(reply: Reply)
    requires
        reply_conforms(DownstreamOutcome::Unreachable, reply),
    ensures
        reply.status == STATUS_INTERNAL_ERROR,
        reply.body matches ReplyBody::Verdict(v) && !v.is_valid && v.message@
            == unreachable_text(),
{
}

/// A downstream response is passed on as it came, with 200: the reply does
/// not depend on the downstream status.
pub proof fn lemma_answer_relayed_verbatim(body: String, reply: Reply)
    requires
        reply_conforms(DownstreamOutcome::Answered(Some(body)), reply),
    ensures
        reply.status == STATUS_OK,
        reply.body matches ReplyBody::Passthrough(t) && t@ == body@,
{
}

/// Submitting the same valid request again asks for a fresh outbound call,
/// identical to the first: nothing is cached or deduplicated.
pub proof fn lemma_resubmission_forwarded_again(
    first: AnalysisRequest,
    second: AnalysisRequest,
    configured: Option<String>,
    first_step: Step,
    second_step: Step,
)
    requires
        first == second,
        first.is_acceptable(),
        step_conforms(first, configured, first_step),
        step_conforms(second, configured, second_step),
    ensures
        first_step matches Step::Forward(f) && f.request == first,
        second_step matches Step::Forward(g) && g.request == second,
        first_step matches Step::Forward(f) && second_step matches Step::Forward(g) && f.url@
            == g.url@,
{
}

} // verus!
