use link_shortener::api::url_is_valid;
use link_shortener::errors::{handle_rejection, to_rejection, Error, Rejection};
use link_shortener::response::ResponseBody;

fn message_of(body: &ResponseBody) -> String {
    match body {
        ResponseBody::Message { message, .. } => message.clone(),
        _ => panic!("expected a message body"),
    }
}

fn success_of(body: &ResponseBody) -> bool {
    match body {
        ResponseBody::Message { success, .. } => *success,
        _ => panic!("expected a message body"),
    }
}

#[test]
fn database_errors_never_leak_detail() {
    let resp = Error::database(String::from("row lock timeout on links")).to_http();
    assert_eq!(resp.status, 500);
    assert_eq!(message_of(&resp.body), "a database error occurred");
    assert!(!success_of(&resp.body));
    assert_eq!(resp.log_message.as_deref(), Some("row lock timeout on links"));
}

#[test]
fn unique_violations_are_conflicts() {
    let resp = Error::unique_violation().to_http();
    assert_eq!(resp.status, 409);
    assert_eq!(message_of(&resp.body), "a field was not unique");
}

#[test]
fn invalid_links_are_bad_requests() {
    let resp = Error::invalid_link().to_http();
    assert_eq!(resp.status, 400);
    assert_eq!(message_of(&resp.body), "the provided link was invalid");
}

#[test]
fn authentication_failures_carry_the_challenge() {
    let resp = Error::authentication(String::from("enter the realm")).to_http();
    assert_eq!(resp.status, 401);
    assert_eq!(
        resp.www_authenticate.as_deref(),
        Some("Basic realm=\"enter the realm\", charset=\"UTF-8\"")
    );
    match &resp.body {
        ResponseBody::Html { content } => assert_eq!(content, "401 Unauthorized: enter the realm"),
        _ => panic!("the challenge body is a small page"),
    }
}

#[test]
fn custom_errors_keep_their_status_and_message() {
    let resp = Error::custom(String::from("teapot refused"), 418).to_http();
    assert_eq!(resp.status, 418);
    assert_eq!(message_of(&resp.body), "teapot refused");
    assert!(resp.log_message.is_none());
}

#[test]
fn custom_errors_can_carry_a_log_line() {
    let resp = Error::custom_with_log(
        String::from("internal server error"),
        500,
        String::from("stack went sideways"),
    )
    .to_http();
    assert_eq!(resp.status, 500);
    assert_eq!(message_of(&resp.body), "internal server error");
    assert_eq!(resp.log_message.as_deref(), Some("stack went sideways"));
}

#[test]
fn an_application_error_keeps_its_own_mapping_through_the_chain() {
    let resp = handle_rejection(to_rejection(Error::unique_violation()));
    assert_eq!(resp.status, 409);
    assert_eq!(message_of(&resp.body), "a field was not unique");
}

#[test]
fn oversized_payloads_resolve_to_413() {
    let resp = handle_rejection(Rejection::PayloadTooLarge);
    assert_eq!(resp.status, 413);
    assert_eq!(message_of(&resp.body), "payload too large");
}

#[test]
fn body_shape_failures_resolve_to_400_with_the_cause() {
    let resp = handle_rejection(Rejection::BodyDeserialize {
        message: String::from("expected a string at line 1"),
    });
    assert_eq!(resp.status, 400);
    assert_eq!(message_of(&resp.body), "expected a string at line 1");
}

#[test]
fn unpermitted_methods_resolve_to_405() {
    let resp = handle_rejection(Rejection::MethodNotAllowed);
    assert_eq!(resp.status, 405);
    assert_eq!(message_of(&resp.body), "method not allowed");
}

#[test]
fn unmatched_routes_resolve_to_404() {
    let resp = handle_rejection(Rejection::NotFound);
    assert_eq!(resp.status, 404);
    assert_eq!(message_of(&resp.body), "not found");
}

#[test]
fn unclassified_failures_are_logged_500s_with_a_generic_body() {
    let resp = handle_rejection(Rejection::Unclassified {
        detail: String::from("socket vanished"),
    });
    assert_eq!(resp.status, 500);
    assert_eq!(message_of(&resp.body), "internal server error");
    assert_eq!(
        resp.log_message.as_deref(),
        Some("unhandled error: socket vanished")
    );
}

#[test]
fn url_validation_accepts_absolute_uris() {
    assert!(url_is_valid(&String::from("https://example.com")).is_ok());
    assert!(url_is_valid(&String::from("http://example.com/a/b?c=d")).is_ok());
    assert!(url_is_valid(&String::from("ftp://files.example")).is_ok());
}

#[test]
fn url_validation_rejects_what_does_not_parse_absolutely() {
    assert!(url_is_valid(&String::from("not a url")).is_err());
    assert!(url_is_valid(&String::from("")).is_err());
    assert!(url_is_valid(&String::from("example.com")).is_err());
    assert!(url_is_valid(&String::from("/relative/path")).is_err());
}
