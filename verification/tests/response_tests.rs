use auth_gate::response::{CustomResponse, CustomResponseEmptyData, ErrorResponse, ErrorStatus};

#[test]
fn success_envelope_carries_ok_and_the_payload() {
    let r = CustomResponse::new(41_u32);
    assert_eq!(r.status, "ok");
    assert_eq!(r.data, 41);
}

#[test]
fn success_envelope_can_be_empty() {
    let r = CustomResponse::new(CustomResponseEmptyData {});
    assert_eq!(r.status, "ok");
}

#[test]
fn status_codes_match_the_classification() {
    let cases = [
        (ErrorStatus::BadRequest, 400_u16, "BadRequest"),
        (ErrorStatus::Unauthorized, 401, "Unauthorized"),
        (ErrorStatus::Forbidden, 403, "Forbidden"),
        (ErrorStatus::NotFound, 404, "NotFound"),
        (ErrorStatus::InternalServerError, 500, "InternalServerError"),
    ];
    for (status, code, text) in cases {
        let e = ErrorResponse { status, message: "m".to_string() };
        assert_eq!(e.status_code(), code);
        assert_eq!(status.text(), text);
    }
}

#[test]
fn error_text_names_status_and_message() {
    let e = ErrorResponse {
        status: ErrorStatus::Unauthorized,
        message: "Invalid token".to_string(),
    };
    assert_eq!(e.to_text(), "status: Unauthorized, message:Invalid token");
}
