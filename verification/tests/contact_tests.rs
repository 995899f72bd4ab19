use portfolio::contact::{
    apply_response, submit_requested, success_notice_elapsed, HttpOutcome, OutboundRequest,
    SubmissionState, SUBMIT_TIMEOUT_MS, SUCCESS_DISPLAY_MS,
};
use portfolio::content::ContactForm;

fn sample_form() -> ContactForm {
    ContactForm {
        name: "John Doe".to_string(),
        email: "john.doe@example.com".to_string(),
        phone: "+1 (555) 123-4567".to_string(),
        message: "Hello there".to_string(),
    }
}

#[test]
fn submit_from_idle_sends_one_request() {
    let (state, request) = submit_requested(&SubmissionState::Idle, &sample_form(), "https://api.example.com");
    assert_eq!(state, SubmissionState::Submitting);
    let request: OutboundRequest = request.expect("a request must go out");
    assert_eq!(request.url, "https://api.example.com/v1/contact");
    assert_eq!(request.timeout_ms, SUBMIT_TIMEOUT_MS);
    assert_eq!(request.timeout_ms, 10_000);
}

#[test]
fn submit_while_submitting_sends_nothing() {
    let (state, request) = submit_requested(&SubmissionState::Submitting, &sample_form(), "https://api.example.com");
    assert_eq!(state, SubmissionState::Submitting);
    assert!(request.is_none());
}

#[test]
fn submit_after_error_sends_again() {
    let prior = SubmissionState::Error("Server error: 500".to_string());
    let (state, request) = submit_requested(&prior, &sample_form(), "https://api.example.com");
    assert_eq!(state, SubmissionState::Submitting);
    assert!(request.is_some());
}

#[test]
fn request_body_is_the_exact_json_object() {
    let (_, request) = submit_requested(&SubmissionState::Idle, &sample_form(), "x");
    let body = request.unwrap().body;
    assert_eq!(
        body,
        "{\"name\":\"John Doe\",\"email\":\"john.doe@example.com\",\
         \"phone\":\"+1 (555) 123-4567\",\"message\":\"Hello there\"}"
    );
}

#[test]
fn request_body_round_trips_through_a_json_parser() {
    let form = ContactForm {
        name: "Quote \" backslash \\ newline \n tab \t done".to_string(),
        email: "a@b".to_string(),
        phone: String::new(),
        message: "control \u{1} char".to_string(),
    };
    let (_, request) = submit_requested(&SubmissionState::Idle, &form, "x");
    let body = request.unwrap().body;
    let value: serde_json::Value = serde_json::from_str(&body).expect("body must be valid JSON");
    assert_eq!(value["name"].as_str().unwrap(), form.name);
    assert_eq!(value["email"].as_str().unwrap(), form.email);
    assert_eq!(value["phone"].as_str().unwrap(), form.phone);
    assert_eq!(value["message"].as_str().unwrap(), form.message);
}

#[test]
fn request_body_escapes_like_the_serializer() {
    let form = ContactForm {
        name: "a\"b".to_string(),
        email: "c\\d".to_string(),
        phone: "e\nf".to_string(),
        message: "g\u{1f}h".to_string(),
    };
    let (_, request) = submit_requested(&SubmissionState::Idle, &form, "x");
    let body = request.unwrap().body;
    assert!(body.contains("a\\\"b"));
    assert!(body.contains("c\\\\d"));
    assert!(body.contains("e\\nf"));
    assert!(body.contains("g\\u001fh"));
}

#[test]
fn accepted_response_shows_success_and_clears_the_form() {
    let (state, form, notice_ms) = apply_response(
        sample_form(),
        HttpOutcome::Response { status: 200, body: String::new() },
    );
    assert_eq!(state, SubmissionState::Success);
    assert_eq!(form, ContactForm::default());
    assert!(form.name.is_empty() && form.email.is_empty() && form.phone.is_empty() && form.message.is_empty());
    assert_eq!(notice_ms, Some(SUCCESS_DISPLAY_MS));
    assert_eq!(notice_ms, Some(3_000));
    assert_eq!(success_notice_elapsed(), SubmissionState::Idle);
}

#[test]
fn any_2xx_counts_as_acceptance() {
    for status in [200u16, 201, 204, 299] {
        let (state, _, _) = apply_response(
            sample_form(),
            HttpOutcome::Response { status, body: String::new() },
        );
        assert_eq!(state, SubmissionState::Success);
    }
}

#[test]
fn rejected_response_shows_error_and_keeps_the_form() {
    let before = sample_form();
    let (state, form, notice_ms) = apply_response(
        sample_form(),
        HttpOutcome::Response { status: 500, body: "not json".to_string() },
    );
    assert_eq!(state, SubmissionState::Error("Server error: 500".to_string()));
    assert_eq!(form, before);
    assert_eq!(notice_ms, None);
}

#[test]
fn rejected_response_quotes_a_json_body() {
    let (state, _, _) = apply_response(
        sample_form(),
        HttpOutcome::Response { status: 422, body: "{\"detail\": \"bad email\"}".to_string() },
    );
    assert_eq!(
        state,
        SubmissionState::Error("Server error: 422 | {\"detail\":\"bad email\"}".to_string())
    );
}

#[test]
fn status_below_200_is_not_acceptance() {
    let (state, _, _) = apply_response(
        sample_form(),
        HttpOutcome::Response { status: 199, body: String::new() },
    );
    assert_eq!(state, SubmissionState::Error("Server error: 199".to_string()));
}

#[test]
fn timeout_has_its_fixed_message() {
    let before = sample_form();
    let (state, form, _) = apply_response(sample_form(), HttpOutcome::TimedOut);
    assert_eq!(
        state,
        SubmissionState::Error("Request timed out. Please try again.".to_string())
    );
    assert_eq!(form, before);
}

#[test]
fn send_failure_has_its_fixed_message() {
    let (state, _, _) = apply_response(sample_form(), HttpOutcome::SendFailed);
    assert_eq!(
        state,
        SubmissionState::Error(
            "Unable to send request. Please check your connection or try again later.".to_string()
        )
    );
}

#[test]
fn network_failure_has_its_fixed_message() {
    let (state, _, _) = apply_response(sample_form(), HttpOutcome::NetworkFailed);
    assert_eq!(
        state,
        SubmissionState::Error("Network error. Please try again later.".to_string())
    );
}
