use user_service::errors::AppError;
use user_service::middleware::{buffer_body, Direction};
use user_service::store::UserTable;
use user_service::user::{UserRole, UserStatus};

#[test]
fn buffered_request_bytes_pass_through_unchanged() {
    let bytes: Vec<u8> = b"{\"name\":\"test-user\"}".to_vec();
    let out = buffer_body(Direction::Request, Ok(bytes.clone())).unwrap();
    assert_eq!(out, bytes);
}

#[test]
fn buffered_response_bytes_pass_through_unchanged() {
    let bytes: Vec<u8> = vec![0, 159, 146, 150, 255];
    let out = buffer_body(Direction::Response, Ok(bytes.clone())).unwrap();
    assert_eq!(out, bytes);
}

#[test]
fn empty_body_passes_through_unchanged() {
    let out = buffer_body(Direction::Request, Ok(Vec::new())).unwrap();
    assert!(out.is_empty());
}

#[test]
fn failed_request_drain_becomes_bad_request() {
    let err = buffer_body(Direction::Request, Err(String::from("connection reset"))).unwrap_err();
    assert_eq!(err.0, 400);
    assert_eq!(err.1, "failed to read request body: connection reset");
}

#[test]
fn failed_response_drain_becomes_bad_request() {
    let err = buffer_body(Direction::Response, Err(String::from("stream closed"))).unwrap_err();
    assert_eq!(err.0, 400);
    assert_eq!(err.1, "failed to read response body: stream closed");
}

#[test]
fn direction_names() {
    assert_eq!(Direction::Request.as_str(), "request");
    assert_eq!(Direction::Response.as_str(), "response");
}

#[test]
fn adapted_error_is_uniform() {
    let e = AppError::new(String::from("database is locked"));
    let (code, body) = e.into_response();
    assert_eq!(code, 500);
    assert_eq!(body, "Something went wrong: database is locked");
}

#[test]
fn any_stringified_cause_converts() {
    let e = AppError::from(String::from("boom"));
    let (code, body) = e.into_response();
    assert_eq!(code, 500);
    assert_eq!(body, "Something went wrong: boom");
}

#[test]
fn update_reports_affected_rows() {
    let mut table = UserTable::new();
    let created = table.insert_returning(
        String::from("n"),
        String::from("e@example.com"),
        String::from("pw"),
        UserRole::User,
        UserStatus::Active,
        3,
    );
    assert_eq!(table.set_status_by_id(created.id, UserStatus::Inactive), 1);
    assert_eq!(table.set_status_by_id(9999, UserStatus::Inactive), 0);
    assert!(table.select_by_id(9999).is_none());
    let row = table.select_by_id(created.id).unwrap();
    assert_eq!(row.status, UserStatus::Inactive);
}
