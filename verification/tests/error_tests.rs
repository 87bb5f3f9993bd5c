use fakturoid::client::{error_response, evaluate_status};
use fakturoid::error::{FakturoidError, Kind, UnknownError};

fn no_validation() -> Option<Result<Vec<(String, Vec<String>)>, String>> {
    None
}

#[test]
fn status_404_is_entity_does_not_exist() {
    let e = error_response(404, "not found".to_string(), no_validation());
    assert_eq!(*e.kind(), Kind::EntityDoesNotExists);
    assert_eq!(e.status(), Some(404));
}

#[test]
fn status_429_is_too_many_requests() {
    let e = error_response(429, "rate".to_string(), no_validation());
    assert_eq!(*e.kind(), Kind::TooManyRequests);
}

#[test]
fn status_402_is_payment_required() {
    let e = error_response(402, "pay".to_string(), no_validation());
    assert_eq!(*e.kind(), Kind::PaymentRequired);
}

#[test]
fn status_403_is_forbidden() {
    let e = error_response(403, "no".to_string(), no_validation());
    assert_eq!(*e.kind(), Kind::Forbidden);
}

#[test]
fn server_errors_are_service_errors() {
    for status in [500u16, 502, 503, 599] {
        let e = error_response(status, "down".to_string(), no_validation());
        assert_eq!(*e.kind(), Kind::ServiceError);
    }
}

#[test]
fn unlisted_statuses_are_other() {
    for status in [400u16, 401, 418, 600] {
        let e = error_response(status, "hm".to_string(), no_validation());
        assert_eq!(*e.kind(), Kind::Other);
    }
}

#[test]
fn decoded_422_carries_field_detail() {
    let detail = vec![("name".to_string(), vec!["can't be blank".to_string()])];
    let e = error_response(422, "unprocessable".to_string(), Some(Ok(detail.clone())));
    assert_eq!(*e.kind(), Kind::UnprocessableEntity);
    assert_eq!(e.data_errors(), Some(&detail));
    assert_eq!(e.into_data_errors(), Some(detail));
}

#[test]
fn undecodable_422_body_is_other() {
    let e = error_response(
        422,
        "unprocessable".to_string(),
        Some(Err("expected value at line 1".to_string())),
    );
    assert_eq!(*e.kind(), Kind::Other);
    assert!(e.data_errors().is_none());
    assert_eq!(e.describe(), "expected value at line 1");
}

#[test]
fn success_status_in_error_path_is_internal_inconsistency() {
    let e = error_response(200, "fine".to_string(), no_validation());
    assert_eq!(*e.kind(), Kind::Other);
    assert_eq!(e.status(), None);
    assert_eq!(e.describe(), "Something is wrong in function evaluate_response");
}

#[test]
fn non_error_status_in_error_path_is_internal_inconsistency() {
    let e = error_response(302, "moved".to_string(), no_validation());
    assert_eq!(*e.kind(), Kind::Other);
    assert_eq!(e.status(), None);
    assert_eq!(e.describe(), "Something is wrong in function evaluate_response");
}

#[test]
fn describe_renders_the_fixed_messages() {
    let too_many = error_response(429, String::new(), no_validation());
    assert_eq!(too_many.describe(), "Request limit exceeded. Limit is 200 per one minute.");
    let payment = error_response(402, String::new(), no_validation());
    assert_eq!(payment.describe(), "Payment required");
    let forbidden = error_response(403, String::new(), no_validation());
    assert_eq!(forbidden.describe(), "Forbidden operation");
    let missing = error_response(404, String::new(), no_validation());
    assert_eq!(missing.describe(), "Entity does not exists");
    let service = error_response(503, String::new(), no_validation());
    assert_eq!(service.describe(), "Service Unavailable. Status is: 503");
    let other = FakturoidError::from_failure("connection reset".to_string());
    assert_eq!(other.describe(), "connection reset");
}

#[test]
fn describe_renders_validation_detail() {
    let detail = vec![
        ("name".to_string(), vec!["can't be blank".to_string(), "too short".to_string()]),
        ("lines".to_string(), vec!["missing".to_string()]),
    ];
    let e = FakturoidError::from_data(detail, "422".to_string());
    assert_eq!(
        e.describe(),
        "Errors in input data: name: [can't be blank, too short]; lines: [missing]"
    );
    let bare = error_response(422, "bare".to_string(), None);
    assert_eq!(*bare.kind(), Kind::Other);
}

#[test]
fn bare_422_status_without_detail_renders_generic_message() {
    let e = FakturoidError::from_status(422, "input rejected".to_string());
    assert_eq!(*e.kind(), Kind::UnprocessableEntity);
    assert!(e.data_errors().is_none());
    assert_eq!(e.describe(), "Malformed input data.");
}

#[test]
fn evaluate_status_splits_on_success() {
    assert!(evaluate_status(200, String::new(), None).is_ok());
    assert!(evaluate_status(204, String::new(), None).is_ok());
    assert!(evaluate_status(299, String::new(), None).is_ok());
    let err = evaluate_status(199, String::new(), None);
    assert!(err.is_err());
    let err = evaluate_status(300, String::new(), None);
    assert!(err.is_err());
    let err = evaluate_status(404, String::new(), None).unwrap_err();
    assert_eq!(*err.kind(), Kind::EntityDoesNotExists);
}

#[test]
fn unknown_error_names_the_operation() {
    let u = UnknownError::new("list<T>()");
    assert_eq!(u.message(), "Something is wrong in function list<T>()");
}
