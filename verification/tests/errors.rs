use system_calls::AppError;

#[test]
fn each_error_has_its_status() {
    assert_eq!(AppError::NotFound.status_code(), 404);
    assert_eq!(AppError::BadRequest("x".into()).status_code(), 400);
    assert_eq!(AppError::Ddb("x".into()).status_code(), 500);
    assert_eq!(AppError::Deserialize("x".into()).status_code(), 500);
}

#[test]
fn internal_errors_do_not_show_their_details() {
    let ddb = AppError::Ddb("connection refused to 10.0.0.1".into());
    let de = AppError::Deserialize("missing field `name`".into());
    assert!(ddb.is_internal());
    assert!(de.is_internal());
    assert_eq!(ddb.client_message(), "internal server error");
    assert_eq!(de.client_message(), "internal server error");
    assert!(!AppError::NotFound.is_internal());
    assert!(!AppError::BadRequest("x".into()).is_internal());
}

#[test]
fn client_errors_carry_their_text() {
    assert_eq!(AppError::BadRequest("bad os".into()).client_message(), "bad os");
    assert_eq!(AppError::NotFound.client_message(), "not found");
}

#[test]
fn descriptions() {
    assert_eq!(AppError::NotFound.description(), "not found");
    assert_eq!(AppError::BadRequest("x".into()).description(), "invalid input: x");
    assert_eq!(AppError::Ddb("y".into()).description(), "dynamodb error: y");
    assert_eq!(AppError::Deserialize("z".into()).description(), "deserialization error: z");
}
