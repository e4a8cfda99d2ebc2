use speechdis::error::{ApiError, ApiErrorKind, Error};

#[test]
fn error_from_message_has_no_description() {
    let e = Error::from(String::from("bad input"));
    assert_eq!(e.message, "bad input");
    assert!(e.description.is_none());
}

#[test]
fn user_errors_answer_400_and_others_500() {
    let user = ApiError::UserError(Error::from(String::from("x")));
    assert_eq!(user.status(), 400);
    assert_eq!(user.kind(), ApiErrorKind::UserError);
    assert_eq!(ApiError::redis_pool_error("d").status(), 500);
    assert_eq!(ApiError::redis_error("d").status(), 500);
    assert_eq!(ApiError::empty_model_error().status(), 500);
    assert_eq!(ApiError::form_parsing_error("d").status(), 500);
    assert_eq!(ApiError::io_error("d").status(), 500);
}

#[test]
fn pool_error_records_its_cause() {
    let e = ApiError::redis_pool_error("timeout");
    assert_eq!(e.kind(), ApiErrorKind::RedisPoolError);
    assert_eq!(e.body().message, "RedisPoolError: Unable to pool a connection to redis");
    assert_eq!(e.body().description.as_deref(), Some("From: timeout"));
}

#[test]
fn each_kind_has_its_message() {
    assert_eq!(
        ApiError::redis_error("k").body().message,
        "RedisError: Unable to parse result or missing key"
    );
    assert_eq!(
        ApiError::form_parsing_error("k").body().message,
        "FormParsingError: Unable to parse the incoming form"
    );
    assert_eq!(ApiError::io_error("k").body().message, "IOError: Unable to read the bytes from model");
    let empty = ApiError::empty_model_error();
    assert_eq!(empty.kind(), ApiErrorKind::EmptyModelError);
    assert_eq!(empty.body().message, "The model list in redis is empty");
    assert!(empty.body().description.is_none());
}

#[test]
fn strum_parse_error_becomes_form_parsing_error() {
    let e = ApiError::from_parse_error(&strum::ParseError::VariantNotFound);
    assert_eq!(e.kind(), ApiErrorKind::FormParsingError);
    assert_eq!(e.body().description.as_deref(), Some("From: Matching variant not found"));
}

#[test]
fn pool_failure_becomes_pool_error_with_its_text() {
    let err: deadpool_redis::PoolError = deadpool::managed::PoolError::Closed;
    let e = ApiError::from_pool_error(&err);
    assert_eq!(e.kind(), ApiErrorKind::RedisPoolError);
    assert_eq!(e.body().description.as_deref(), Some("From: Pool has been closed"));
}

#[test]
fn redis_failure_becomes_redis_error_with_its_text() {
    let err = redis::RedisError::from((redis::ErrorKind::Client, "no such key"));
    let e = ApiError::from_redis_error(&err);
    assert_eq!(e.kind(), ApiErrorKind::RedisError);
    let d = e.body().description.clone().unwrap();
    assert!(d.starts_with("From: "));
    assert!(d.contains("no such key"));
}

#[test]
fn io_failure_becomes_io_error_with_its_text() {
    let err = std::io::Error::new(std::io::ErrorKind::Other, "disk gone");
    let e = ApiError::from_io_error(&err);
    assert_eq!(e.kind(), ApiErrorKind::IOError);
    assert_eq!(e.body().description.as_deref(), Some("From: disk gone"));
}
