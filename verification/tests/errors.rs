use vehicle_booking::error::{AppError, ErrorKind};

#[test]
fn each_kind_has_its_status_and_text() {
    let cases = [
        (AppError::not_found("x"), ErrorKind::NotFound, 404u16, "Not found: x"),
        (AppError::forbidden("x"), ErrorKind::Forbidden, 403, "Forbidden: x"),
        (AppError::unauthorized("x"), ErrorKind::Unauthorized, 401, "Unauthorized: x"),
        (
            AppError::internal_server_error("x"),
            ErrorKind::InternalServerError,
            500,
            "Internal server error: x",
        ),
        (AppError::bad_request("x"), ErrorKind::BadRequest, 400, "Invalid request parameters: x"),
    ];
    for (error, kind, status, text) in cases {
        assert_eq!(error.kind(), kind);
        assert_eq!(error.status_code(), status);
        assert_eq!(error.message(), "x");
        assert_eq!(error.to_string(), text);
    }
}

#[test]
fn constructors_keep_the_message() {
    match AppError::forbidden("You can only view your own bookings.") {
        AppError::Forbidden { message } => {
            assert_eq!(message, "You can only view your own bookings.")
        }
        other => panic!("unexpected {:?}", other),
    }
    match AppError::bad_request("") {
        AppError::BadRequest { message } => assert_eq!(message, ""),
        other => panic!("unexpected {:?}", other),
    }
}
