use articles::domain::article::repository::{conclude, conclude_lookup, conclude_mutation};
use articles::global::errors::{CustomError, StoreFailure, StoreFailureKind};

/// An error as a database reports it.
#[derive(Debug)]
struct Refusal {
    message: &'static str,
    kind: fn() -> sqlx::error::ErrorKind,
}

impl std::fmt::Display for Refusal {
    fn fmt(&self, f: &mut std::fmt::Formatter<'_>) -> std::fmt::Result {
        f.write_str(self.message)
    }
}

impl std::error::Error for Refusal {}

impl sqlx::error::DatabaseError for Refusal {
    fn message(&self) -> &str {
        self.message
    }

    fn as_error(&self) -> &(dyn std::error::Error + Send + Sync + 'static) {
        self
    }

    fn as_error_mut(&mut self) -> &mut (dyn std::error::Error + Send + Sync + 'static) {
        self
    }

    fn into_error(self: Box<Self>) -> Box<dyn std::error::Error + Send + Sync + 'static> {
        self
    }

    fn kind(&self) -> sqlx::error::ErrorKind {
        (self.kind)()
    }
}

fn foreign_key_violation() -> sqlx::Error {
    sqlx::Error::Database(Box::new(Refusal {
        message: "violates foreign key constraint",
        kind: || sqlx::error::ErrorKind::ForeignKeyViolation,
    }))
}

fn unique_violation() -> sqlx::Error {
    sqlx::Error::Database(Box::new(Refusal {
        message: "duplicate key value",
        kind: || sqlx::error::ErrorKind::UniqueViolation,
    }))
}

#[test]
fn an_error_of_the_database_is_of_kind_database() {
    let failure = StoreFailure::from_sqlx(&foreign_key_violation());
    assert_eq!(failure.kind, StoreFailureKind::Database);
    assert_eq!(failure.detail, "error returned from database: violates foreign key constraint");
    let failure = StoreFailure::from_sqlx(&unique_violation());
    assert_eq!(failure.kind, StoreFailureKind::Database);
}

#[test]
fn a_missing_row_is_of_kind_row_not_found() {
    let failure = StoreFailure::from_sqlx(&sqlx::Error::RowNotFound);
    assert_eq!(failure.kind, StoreFailureKind::RowNotFound);
    assert_eq!(
        failure.detail,
        "no rows returned by a query that expected to return at least one row"
    );
}

#[test]
fn an_error_of_reading_a_row_is_of_kind_unreadable() {
    let errors = vec![
        sqlx::Error::ColumnNotFound("is_exist".to_string()),
        sqlx::Error::ColumnIndexOutOfBounds { index: 3, len: 3 },
        sqlx::Error::ColumnDecode {
            index: "0".to_string(),
            source: Box::new(std::io::Error::new(std::io::ErrorKind::InvalidData, "not a bool")),
        },
        sqlx::Error::Decode(Box::new(std::io::Error::new(
            std::io::ErrorKind::InvalidData,
            "not an integer",
        ))),
    ];
    for error in errors {
        assert_eq!(StoreFailure::from_sqlx(&error).kind, StoreFailureKind::Unreadable);
    }
    assert_eq!(
        StoreFailure::from_sqlx(&sqlx::Error::ColumnNotFound("is_exist".to_string())).detail,
        "no column found for name: is_exist"
    );
}

#[test]
fn every_other_error_is_of_kind_other() {
    let errors = vec![
        sqlx::Error::PoolTimedOut,
        sqlx::Error::PoolClosed,
        sqlx::Error::WorkerCrashed,
        sqlx::Error::Protocol("bad frame".to_string()),
        sqlx::Error::Io(std::io::Error::new(std::io::ErrorKind::BrokenPipe, "broken pipe")),
        sqlx::Error::Tls(Box::new(std::io::Error::new(
            std::io::ErrorKind::ConnectionAborted,
            "handshake failed",
        ))),
        sqlx::Error::InvalidArgument("too many parameters".to_string()),
    ];
    for error in errors {
        assert_eq!(StoreFailure::from_sqlx(&error).kind, StoreFailureKind::Other);
    }
    assert_eq!(
        StoreFailure::from_sqlx(&sqlx::Error::PoolTimedOut).detail,
        "pool timed out while waiting for an open connection"
    );
}

#[test]
fn a_failure_of_sqlx_is_classified_as_the_repository_does() {
    let saved: Result<i64, StoreFailure> = Err(StoreFailure::from_sqlx(&foreign_key_violation()));
    assert!(matches!(conclude(saved), Err(CustomError::DatabaseError(_))));

    let read: Result<i64, StoreFailure> = Err(StoreFailure::from_sqlx(&sqlx::Error::RowNotFound));
    assert_eq!(conclude_lookup(read), Err(CustomError::NotFound("Article".to_string())));

    let listed: Result<i64, StoreFailure> = Err(StoreFailure::from_sqlx(&sqlx::Error::RowNotFound));
    assert!(matches!(conclude(listed), Err(CustomError::Unexpected(_))));

    let updated = Err(StoreFailure::from_sqlx(&unique_violation()));
    assert!(matches!(conclude_mutation(updated), Err(CustomError::DatabaseError(_))));
}

#[test]
fn a_lost_connection_during_a_delete_is_a_database_error() {
    let lost = sqlx::Error::Io(std::io::Error::new(std::io::ErrorKind::BrokenPipe, "broken pipe"));
    let result = conclude_mutation(Err(StoreFailure::from_sqlx(&lost)));
    let error = result.err().unwrap();
    assert!(matches!(error, CustomError::DatabaseError(_)));
    assert_eq!(error.into_response(), (400, "Database error".to_string()));

    let timed_out = conclude_mutation(Err(StoreFailure::from_sqlx(&sqlx::Error::PoolTimedOut)));
    assert_eq!(
        timed_out,
        Err(CustomError::DatabaseError(
            "pool timed out while waiting for an open connection".to_string()
        ))
    );

    let read: Result<i64, StoreFailure> = Err(StoreFailure::from_sqlx(&sqlx::Error::PoolClosed));
    assert!(matches!(conclude_lookup(read), Err(CustomError::DatabaseError(_))));
}

#[test]
fn a_row_that_cannot_be_read_is_unexpected() {
    let unread = sqlx::Error::ColumnNotFound("delete_count".to_string());
    let result = conclude_mutation(Err(StoreFailure::from_sqlx(&unread)));
    let error = result.err().unwrap();
    assert!(matches!(error, CustomError::Unexpected(_)));
    assert_eq!(error.into_response(), (500, "Unexpected error".to_string()));
}
