use auth_core::utils::error::{AppError, ErrorKind};

#[test]
fn each_error_has_its_status() {
    let m = || "m".to_string();
    assert_eq!(AppError::BadRequest(m()).status_code(), 400);
    assert_eq!(AppError::Unauthorized(m()).status_code(), 401);
    assert_eq!(AppError::NotFound(m()).status_code(), 404);
    assert_eq!(AppError::Conflict(m()).status_code(), 409);
    assert_eq!(AppError::InternalServerError(m()).status_code(), 500);
}

#[test]
fn each_error_has_its_kind() {
    let m = || "m".to_string();
    assert_eq!(AppError::BadRequest(m()).kind(), ErrorKind::BadRequest);
    assert_eq!(AppError::Unauthorized(m()).kind(), ErrorKind::Unauthorized);
    assert_eq!(AppError::NotFound(m()).kind(), ErrorKind::NotFound);
    assert_eq!(AppError::Conflict(m()).kind(), ErrorKind::Conflict);
    assert_eq!(AppError::InternalServerError(m()).kind(), ErrorKind::InternalServerError);
}

#[test]
fn message_is_given_back_verbatim() {
    assert_eq!(AppError::BadRequest("bad \"input\"".to_string()).message(), "bad \"input\"");
    assert_eq!(AppError::Unauthorized(String::new()).message(), "");
    assert_eq!(AppError::NotFound("no such user".to_string()).message(), "no such user");
    assert_eq!(AppError::Conflict("taken".to_string()).message(), "taken");
    assert_eq!(AppError::InternalServerError("ünïcode".to_string()).message(), "ünïcode");
}
