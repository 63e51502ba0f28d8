//! The notifier-side decision logic: response checking and the
//! refresh-and-retry-once token discipline.

use blooming::notify::check_response;
use blooming::notify::ErrorMessage;
use blooming::notify::NotifyStep;
use blooming::notify::CODE_TOKEN_EXPIRED;
use blooming::notify::DEFAULT_NUM_ITEMS_EACH_NOTIFY;
use blooming::notify::QQ_GUILD_NUM_ITEMS_EACH_NOTIFY;
use blooming::notify::QQ_NUM_ITEMS_EACH_NOTIFY;
use blooming::Error;

fn error_payload(code: i32, message: &str) -> ErrorMessage {
    ErrorMessage {
        message: String::from(message),
        code,
        err_code: 0,
        trace_id: String::from("trace"),
    }
}

#[test]
fn batch_sizes_of_the_notifier_variants() {
    assert_eq!(QQ_NUM_ITEMS_EACH_NOTIFY, 3);
    assert_eq!(QQ_GUILD_NUM_ITEMS_EACH_NOTIFY, 5);
    assert_eq!(DEFAULT_NUM_ITEMS_EACH_NOTIFY, 0);
}

#[test]
fn check_response_accepts_a_plain_success() {
    assert_eq!(check_response(200, &None).unwrap(), true);
    assert_eq!(check_response(204, &None).unwrap(), true);
}

#[test]
fn check_response_sees_an_expired_token() {
    assert_eq!(check_response(401, &None).unwrap(), false);
    let expired = Some(error_payload(CODE_TOKEN_EXPIRED, "token expired"));
    assert_eq!(check_response(500, &expired).unwrap(), false);
}

#[test]
fn check_response_surfaces_an_unusable_backend() {
    let broken = Some(error_payload(7, "backend on fire"));
    let err = check_response(500, &broken).unwrap_err();
    assert!(matches!(err, Error::Delivery(_)));
    assert_eq!(err.message().as_str(), "backend on fire");
}

#[test]
fn notify_session_sends_straight_through_with_a_valid_token() {
    let step = NotifyStep::begin(true);
    assert!(matches!(step, NotifyStep::Sending { resend: false }));
    let step = step.on_response(200, &None);
    assert!(matches!(step, NotifyStep::Done));
}

#[test]
fn notify_session_fetches_a_token_first_when_none_is_held() {
    let step = NotifyStep::begin(false);
    assert!(matches!(step, NotifyStep::FetchingToken { resend: false }));
    let step = step.on_token_fetched();
    assert!(matches!(step, NotifyStep::Sending { resend: false }));
}

#[test]
fn notify_session_renews_and_resends_exactly_once() {
    let step = NotifyStep::begin(true);
    let expired = Some(error_payload(CODE_TOKEN_EXPIRED, "token expired"));
    let step = step.on_response(500, &expired);
    assert!(matches!(step, NotifyStep::FetchingToken { resend: true }));
    let step = step.on_token_fetched();
    assert!(matches!(step, NotifyStep::Sending { resend: true }));
    // The resent call's own expired-token response can never request
    // another renewal.
    let step = step.on_response(401, &None);
    assert!(matches!(step, NotifyStep::Done));
}

#[test]
fn notify_session_aborts_on_transport_and_backend_failures() {
    let step = NotifyStep::begin(false);
    let step = step.on_token_error(Error::Delivery(String::from("auth endpoint down")));
    assert!(matches!(step, NotifyStep::Aborted(_)));

    let step = NotifyStep::begin(true);
    let step = step.on_send_error(Error::Delivery(String::from("connection reset")));
    assert!(matches!(step, NotifyStep::Aborted(_)));

    let step = NotifyStep::begin(true);
    let broken = Some(error_payload(8, "bad request"));
    let step = step.on_response(500, &broken);
    match step {
        NotifyStep::Aborted(e) => assert_eq!(e.message().as_str(), "bad request"),
        _ => panic!("expected the session to abort"),
    }
}
