use server::error::AppError;
use server::error::StoreFailure;
use std::borrow::Cow;

fn all_errors() -> Vec<(AppError, u16, &'static str)> {
    vec![
        (AppError::BadRequest, 400, "400 Bad Request"),
        (AppError::Unauthorized, 401, "401 Unauthorized"),
        (AppError::Forbidden, 403, "403 Forbidden"),
        (AppError::NotFound, 404, "404 Not Found"),
        (AppError::MethodNotAllowed, 405, "405 Method Not Allowed"),
        (AppError::Conflict, 409, "409 Conflict"),
        (AppError::UnprocessableEntity, 422, "422 Unprocessable Entity"),
        (AppError::InternalServer("pool is gone".to_string()), 500, "500 Internal Server Error"),
        (AppError::NotImplemented, 501, "501 Not Implemented"),
        (AppError::BadGateway, 502, "502 Bad Gateway"),
        (AppError::ServiceUnavailable, 503, "503 Service Unavailable"),
    ]
}

#[test]
fn every_error_has_its_status() {
    for (error, status, _) in all_errors() {
        assert_eq!(error.status_code(), status);
    }
}

#[test]
fn every_error_has_its_message() {
    for (error, _, message) in all_errors() {
        assert_eq!(error.message(), message);
    }
}

#[test]
fn the_detail_of_an_internal_error_is_not_in_its_message() {
    let error = AppError::internal("secret detail");
    assert_eq!(error, AppError::InternalServer("secret detail".to_string()));
    assert_eq!(error.message(), "500 Internal Server Error");
}

fn database(code: Option<&str>, detail: &str) -> StoreFailure {
    StoreFailure::Database { code: code.map(|code| code.to_string()), detail: detail.to_string() }
}

#[test]
fn no_row_is_not_found() {
    assert_eq!(AppError::from_store_failure(StoreFailure::RowNotFound), AppError::NotFound);
}

#[test]
fn constraint_violations_map_by_their_code() {
    assert_eq!(AppError::from_store_failure(database(Some("23502"), "null")), AppError::BadRequest);
    assert_eq!(AppError::from_store_failure(database(Some("23503"), "fk")), AppError::BadRequest);
    assert_eq!(AppError::from_store_failure(database(Some("23505"), "dup")), AppError::Conflict);
}

#[test]
fn other_database_errors_are_internal_with_their_detail() {
    assert_eq!(
        AppError::from_store_failure(database(Some("23514"), "check failed")),
        AppError::InternalServer("check failed".to_string())
    );
    assert_eq!(
        AppError::from_store_failure(database(Some(""), "no code")),
        AppError::InternalServer("no code".to_string())
    );
    assert_eq!(
        AppError::from_store_failure(database(None, "no code at all")),
        AppError::InternalServer("no code at all".to_string())
    );
    assert_eq!(
        AppError::from_store_failure(database(Some("235050"), "longer")),
        AppError::InternalServer("longer".to_string())
    );
}

#[test]
fn other_failures_are_internal_with_their_detail() {
    assert_eq!(
        AppError::from_store_failure(StoreFailure::Other { detail: "timeout".to_string() }),
        AppError::InternalServer("timeout".to_string())
    );
}

#[derive(Debug)]
struct Refusal {
    code: Option<&'static str>,
}

impl std::fmt::Display for Refusal {
    fn fmt(&self, f: &mut std::fmt::Formatter<'_>) -> std::fmt::Result {
        f.write_str("the database said no")
    }
}

impl std::error::Error for Refusal {}

impl sqlx::error::DatabaseError for Refusal {
    fn message(&self) -> &str {
        "the database said no"
    }

    fn code(&self) -> Option<Cow<'_, str>> {
        self.code.map(Cow::Borrowed)
    }

    fn as_error(&self) -> &(dyn std::error::Error + Send + Sync + 'static) {
        self
    }

    fn as_error_mut(&mut self) -> &mut (dyn std::error::Error + Send + Sync + 'static) {
        self
    }

    fn into_error(self: Box<Self>) -> Box<dyn std::error::Error + Send + Sync + 'static> {
        self
    }

    fn kind(&self) -> sqlx::error::ErrorKind {
        sqlx::error::ErrorKind::Other
    }
}

fn refusal(code: Option<&'static str>) -> sqlx::Error {
    sqlx::Error::Database(Box::new(Refusal { code }))
}

#[test]
fn store_errors_map_by_variant_and_code() {
    assert_eq!(AppError::from_store(sqlx::Error::RowNotFound), AppError::NotFound);
    assert_eq!(AppError::from_store(refusal(Some("23502"))), AppError::BadRequest);
    assert_eq!(AppError::from_store(refusal(Some("23503"))), AppError::BadRequest);
    assert_eq!(AppError::from_store(refusal(Some("23505"))), AppError::Conflict);
    assert_eq!(
        AppError::from_store(refusal(Some("42601"))),
        AppError::InternalServer("the database said no".to_string())
    );
    assert_eq!(
        AppError::from_store(refusal(None)),
        AppError::InternalServer("the database said no".to_string())
    );
}

#[test]
fn store_errors_of_other_variants_are_internal() {
    assert_eq!(
        AppError::from_store(sqlx::Error::PoolTimedOut),
        AppError::InternalServer(sqlx::Error::PoolTimedOut.to_string())
    );
    assert_eq!(
        AppError::from_store(sqlx::Error::Protocol("bad frame".to_string())),
        AppError::InternalServer("encountered unexpected or invalid data: bad frame".to_string())
    );
}
