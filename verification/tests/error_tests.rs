use trailerfin::error::Error;
use trailerfin::error::ServerBodyError;
use trailerfin::error::ServerOtherBodyError;
use trailerfin::error::ServerValidationBodyError;

fn validation() -> ServerValidationBodyError {
    ServerValidationBodyError { errors: vec!["field is required".to_string()] }
}

fn other() -> ServerOtherBodyError {
    ServerOtherBodyError { status_message: "internal error".to_string() }
}

#[test]
fn test_error_as_validation_error() {
    let e = Error::Validation(validation());
    assert_eq!(e.as_validation_error().unwrap().errors[0], "field is required");
    assert!(e.as_server_error().is_none());
}

#[test]
fn test_error_as_server_error() {
    let e = Error::Server { code: 500, content: other() };
    assert_eq!(e.as_server_error().unwrap().status_message, "internal error");
    assert!(e.as_validation_error().is_none());
}

#[test]
fn test_other_error_kinds_expose_neither_payload() {
    let e = Error::Request { message: "connection refused".to_string() };
    assert!(e.as_validation_error().is_none());
    assert!(e.as_server_error().is_none());
}

#[test]
fn test_server_body_error_accessors() {
    let v = ServerBodyError::Validation(validation());
    assert!(v.as_validation_error().is_some());
    assert!(v.as_other_error().is_none());
    let o = ServerBodyError::Other(other());
    assert!(o.as_other_error().is_some());
    assert!(o.as_validation_error().is_none());
}
