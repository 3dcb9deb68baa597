use iam_service::error::{documented_codes, ApiError, Status};

#[test]
fn an_error_carries_status_and_context() {
    let e = ApiError::new(Status::NotFound, "x: y");
    assert_eq!(e.status_code, 404);
    assert!(e.error);
    assert_eq!(e.message, "x: y");
}

#[test]
fn a_cause_follows_the_context() {
    let e = ApiError::from_err(Status::Unauthorized, "login: user not found for email 'a@b'", "NotFound");
    assert_eq!(e.message, "login: user not found for email 'a@b': NotFound");
    assert_eq!(e.status_code, 401);
    let e = ApiError::internal("register: hashing password", "Io");
    assert_eq!(e.message, "register: hashing password: Io");
    assert_eq!(e.status_code, 500);
}

#[test]
fn every_kind_of_error_has_its_code() {
    assert_eq!(ApiError::not_found("c").status_code, 404);
    assert_eq!(ApiError::unauthorized("c").status_code, 401);
    assert_eq!(ApiError::forbidden("c").status_code, 403);
    assert_eq!(ApiError::bad_request("c").status_code, 400);
    assert_eq!(ApiError::conflict("c").status_code, 409);
    assert_eq!(ApiError::service_unavailable("c").status_code, 503);
    assert_eq!(ApiError::service_unavailable("c").message, "c");
}

#[test]
fn the_documented_codes_are_those_of_the_statuses() {
    let all = [
        Status::BadRequest,
        Status::Unauthorized,
        Status::Forbidden,
        Status::NotFound,
        Status::Conflict,
        Status::InternalServerError,
        Status::ServiceUnavailable,
    ];
    let codes: Vec<u16> = all.iter().map(|s| s.code()).collect();
    assert_eq!(documented_codes(), codes);
}
