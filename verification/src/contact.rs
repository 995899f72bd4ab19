//! The contact-form submission state machine.
//!
//! Submitting the form is the one asynchronous act in the system. The
//! library decides everything: whether a click sends a request, what the
//! request contains, and how each possible outcome changes the UI state.
//! The surrounding program only performs the request it is handed and
//! brings back the outcome.

use crate::content::ContactForm;
use crate::ext::{json_normalized, json_reserialize};
use crate::json::{contact_body, contact_body_json};
use crate::text::{dec_str, push_decimal};
use vstd::prelude::*;

verus! {

/// Milliseconds a submission request may take before it is abandoned.
pub const SUBMIT_TIMEOUT_MS: u64 = 10_000;

/// Milliseconds the success notice stays up before the form goes back to
/// accepting input.
pub const SUCCESS_DISPLAY_MS: u32 = 3_000;

/// The submission endpoint's path under the configured base URL.
pub open spec fn contact_endpoint_path() -> Seq<char> {
    "/v1/contact"@
}

/// UI status of the contact form. Only the error state carries a
/// message, so no other combination of status and message exists.
#[derive(Clone, Debug, PartialEq)]
pub enum SubmissionState {
    /// Nothing in flight; the form accepts a submission.
    Idle,
    /// A request is in flight; further submit clicks are ignored.
    Submitting,
    /// The last submission was accepted; shown briefly, then idle again.
    Success,
    /// The last submission failed, with the text shown to the visitor.
    Error(String),
}

/// One outbound HTTP POST the surrounding program is asked to perform.
#[derive(Clone, Debug, PartialEq)]
pub struct OutboundRequest {
    pub url: String,
    pub body: String,
    pub timeout_ms: u64,
}

/// What came back for a submission: a server response with its status
/// code and body text, or one of the three transport failures.
#[derive(Debug)]
pub enum HttpOutcome {
    /// The server answered, with whatever status and body it sent.
    Response { status: u16, body: String },
    /// The request ran out its time budget.
    TimedOut,
    /// The request could not be built or sent at all.
    SendFailed,
    /// The connection failed some other way.
    NetworkFailed,
}

/// The status codes that count as acceptance.
pub open spec fn is_success_status(status: u16) -> bool {
    200 <= status < 300
}

/// How the form reacts to a submit click: a click during an in-flight
/// submission changes nothing and sends nothing; otherwise the form moves
/// to `Submitting` and hands out exactly one request, aimed at the
/// submission endpoint, carrying the framed form body, with the fixed
/// time budget.
pub open spec fn submit_step(
    pre: SubmissionState,
    form: ContactForm,
    base_url: Seq<char>,
    post: SubmissionState,
    request: Option<OutboundRequest>,
) -> bool {
    if pre is Submitting {
        post == pre && request is None
    } else {
        &&& post is Submitting
        &&& match request {
            Option::Some(req) => {
                &&& req.url@ == base_url + contact_endpoint_path()
                &&& req.body@ == contact_body(form)
                &&& req.timeout_ms == SUBMIT_TIMEOUT_MS
            },
            Option::None => false,
        }
    }
}

/// The text shown for a rejected submission: the status code and, when
/// the response body is JSON, the body as the serializer prints it.
pub open spec fn server_error_text(status: u16, body: Seq<char>) -> Seq<char> {
    let head = "Server error: "@ + dec_str(status as int);
    match json_normalized(body) {
        Option::Some(t) => head + " | "@ + t,
        Option::None => head,
    }
}

/// How a settled submission changes the UI: acceptance shows success,
/// blanks every form field and asks for the notice to come down after
/// the fixed display time; any rejection or failure shows its error text
/// and leaves the form fields exactly as they were.
pub open spec fn response_step(
    form: ContactForm,
    outcome: HttpOutcome,
    post: SubmissionState,
    post_form: ContactForm,
    notice_ms: Option<u32>,
) -> bool {
    match outcome {
        HttpOutcome::Response { status, body } => {
            if is_success_status(status) {
                &&& post is Success
                &&& post_form.is_blank()
                &&& notice_ms == Some(SUCCESS_DISPLAY_MS)
            } else {
                &&& post matches SubmissionState::Error(m) && m@ == server_error_text(
                    status,
                    body@,
                )
                &&& post_form == form
                &&& notice_ms is None
            }
        },
        HttpOutcome::TimedOut => {
            &&& post matches SubmissionState::Error(m) && m@
                == "Request timed out. Please try again."@
            &&& post_form == form
            &&& notice_ms is None
        },
        HttpOutcome::SendFailed => {
            &&& post matches SubmissionState::Error(m) && m@
                == "Unable to send request. Please check your connection or try again later."@
            &&& post_form == form
            &&& notice_ms is None
        },
        HttpOutcome::NetworkFailed => {
            &&& post matches SubmissionState::Error(m) && m@
                == "Network error. Please try again later."@
            &&& post_form == form
            &&& notice_ms is None
        },
    }
}

/// Reacts to a submit click. Returns the next status and the request to
/// perform, if any.
pub fn submit_requested(state: &SubmissionState, form: &ContactForm, base_url: &str) -> (r: (
    SubmissionState,
    Option<OutboundRequest>,
))
    ensures
        submit_step(*state, *form, base_url@, r.0, r.1),
{
    match state {
        SubmissionState::Submitting => (SubmissionState::Submitting, Option::None),
        _ => {
            let mut url = base_url.to_owned();
            url.append("/v1/contact");
            let body = contact_body_json(form);
            let request = OutboundRequest { url, body, timeout_ms: SUBMIT_TIMEOUT_MS };
            (SubmissionState::Submitting, Option::Some(request))
        },
    }
}

fn server_error_message(status: u16, body: &str) -> (r: String)
    ensures
        r@ == server_error_text(status, body@),
{
    let mut msg = String::from_str("Server error: ");
    push_decimal(&mut msg, status);
    match json_reserialize(body) {
        Option::Some(t) => {
            msg.append(" | ");
            msg.append(t.as_str());
            assert(msg@ =~= server_error_text(status, body@));
        },
        Option::None => {},
    }
    msg
}

/// Settles a submission with what came back for it. Returns the next
/// status, the form fields to show, and how long to display the success
/// notice before going idle, if it is to be displayed at all.
pub fn apply_response(form: ContactForm, outcome: HttpOutcome) -> (r: (
    SubmissionState,
    ContactForm,
    Option<u32>,
))
    ensures
        response_step(form, outcome, r.0, r.1, r.2),
{
    match outcome {
        HttpOutcome::Response { status, body } => {
            if 200 <= status && status < 300 {
                (SubmissionState::Success, ContactForm::default(), Option::Some(SUCCESS_DISPLAY_MS))
            } else {
                let msg = server_error_message(status, body.as_str());
                (SubmissionState::Error(msg), form, Option::None)
            }
        },
        HttpOutcome::TimedOut => {
            let msg = String::from_str("Request timed out. Please try again.");
            (SubmissionState::Error(msg), form, Option::None)
        },
        HttpOutcome::SendFailed => {
            let msg = String::from_str(
                "Unable to send request. Please check your connection or try again later.",
            );
            (SubmissionState::Error(msg), form, Option::None)
        },
        HttpOutcome::NetworkFailed => {
            let msg = String::from_str("Network error. Please try again later.");
            (SubmissionState::Error(msg), form, Option::None)
        },
    }
}

/// Takes the success notice down once its display time has elapsed: the
/// form is idle again, whatever happened meanwhile.
pub fn success_notice_elapsed() -> (r: SubmissionState)
    ensures
        r is Idle,
{
    SubmissionState::Idle
}

/// Law: submitting while a submission is already in flight produces no
/// second outbound request, and the status does not move.
pub proof fn law_no_second_request(
    form: ContactForm,
    base_url: Seq<char>,
    post: SubmissionState,
    request: Option<OutboundRequest>,
)
    requires
        submit_step(SubmissionState::Submitting, form, base_url, post, request),
    ensures
        request is None,
        post is Submitting,
{
}

/// Law: an accepted (2xx) response always shows success, blanks all four
/// form fields, and asks for the notice to come down after exactly the
/// configured display time, upon which the form is idle again.
pub proof fn law_success_clears_form(
    form: ContactForm,
    status: u16,
    body: String,
    post: SubmissionState,
    post_form: ContactForm,
    notice_ms: Option<u32>,
)
    requires
        response_step(form, HttpOutcome::Response { status, body }, post, post_form, notice_ms),
        is_success_status(status),
    ensures
        post is Success,
        post_form.is_blank(),
        notice_ms == Some(SUCCESS_DISPLAY_MS),
{
}

/// Law: a rejected (non-2xx) response always shows an error and leaves
/// every form field untouched.
pub proof fn law_error_keeps_form(
    form: ContactForm,
    status: u16,
    body: String,
    post: SubmissionState,
    post_form: ContactForm,
    notice_ms: Option<u32>,
)
    requires
        response_step(form, HttpOutcome::Response { status, body }, post, post_form, notice_ms),
        !is_success_status(status),
    ensures
        post is Error,
        post_form == form,
{
}

} // verus!
