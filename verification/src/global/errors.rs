//! The closed set of failure kinds that every layer shares, how a failure of
//! the store is classified into it, and how each kind is shown to a client.

use vstd::prelude::*;

verus! {

/// The kind of a failure, without its text.
#[derive(Clone, Copy, Debug, PartialEq, Eq, Structural)]
pub enum ErrorKind {
    NotFound,
    DatabaseError,
    Invalidate,
    Unauthorized,
    Unexpected,
    Duplicated,
}

/// A failure as contracts see it: its kind and the text it carries, which is
/// the resource's name for `NotFound`, `Invalidate`, `Unauthorized` and
/// `Duplicated`, and the store's detail for `DatabaseError` and `Unexpected`.
pub ghost struct ErrorView {
    pub kind: ErrorKind,
    pub text: Seq<char>,
}

#[derive(Debug, PartialEq)]
pub enum CustomError {
    /// The addressed entity does not exist.
    NotFound(String),
    /// The store reported an error of its own, such as a violated constraint.
    DatabaseError(String),
    /// Data from the caller failed validation before it reached the store.
    Invalidate(String),
    /// The entity exists, but the caller does not own it.
    Unauthorized(String),
    /// Any other failure: an internal fault.
    Unexpected(String),
    /// A uniqueness constraint was violated.
    Duplicated(String),
}

impl View for CustomError {
    type V = ErrorView;

    open spec fn view(&self) -> ErrorView {
        match *self {
            CustomError::NotFound(t) => ErrorView { kind: ErrorKind::NotFound, text: t@ },
            CustomError::DatabaseError(t) => ErrorView { kind: ErrorKind::DatabaseError, text: t@ },
            CustomError::Invalidate(t) => ErrorView { kind: ErrorKind::Invalidate, text: t@ },
            CustomError::Unauthorized(t) => ErrorView { kind: ErrorKind::Unauthorized, text: t@ },
            CustomError::Unexpected(t) => ErrorView { kind: ErrorKind::Unexpected, text: t@ },
            CustomError::Duplicated(t) => ErrorView { kind: ErrorKind::Duplicated, text: t@ },
        }
    }
}

/// What went wrong with a statement, as far as the classification reads it.
#[derive(Clone, Copy, Debug, PartialEq, Eq, Structural)]
pub enum StoreFailureKind {
    /// The database answered the statement with an error of its own: a
    /// violated constraint, a fault in the syntax.
    Database,
    /// A statement that must return a row returned none.
    RowNotFound,
    /// The answer came back, but what it holds could not be read.
    Unreadable,
    /// Anything else that went wrong while the statement ran: the
    /// connection, the pool, the protocol.
    Other,
}

/// A failure while a statement was executed.
#[derive(Debug, PartialEq)]
pub struct StoreFailure {
    pub kind: StoreFailureKind,
    pub detail: String,
}

/// `sqlx::Error`: how a statement that was run through sqlx fails. Nothing
/// inside it is seen here.
#[verifier::external_type_specification]
#[verifier::external_body]
pub struct ExSqlxError(sqlx::Error);

/// Tells the variants of `sqlx::Error` apart: `Database`, `RowNotFound`,
/// the four that say that a row or a column could not be read, and all the
/// others. Nothing is claimed of which one an error is.
#[verifier::external_body]
fn sqlx_failure_kind(error: &sqlx::Error) -> (kind: StoreFailureKind) {
    match error {
        sqlx::Error::Database(_) => StoreFailureKind::Database,
        sqlx::Error::RowNotFound => StoreFailureKind::RowNotFound,
        sqlx::Error::ColumnIndexOutOfBounds { .. } => StoreFailureKind::Unreadable,
        sqlx::Error::ColumnNotFound(_) => StoreFailureKind::Unreadable,
        sqlx::Error::ColumnDecode { .. } => StoreFailureKind::Unreadable,
        sqlx::Error::Decode(_) => StoreFailureKind::Unreadable,
        _ => StoreFailureKind::Other,
    }
}

/// The text that a `sqlx::Error` shows of itself through `Display`. Nothing
/// is claimed of what it says.
#[verifier::external_body]
fn sqlx_failure_detail(error: &sqlx::Error) -> (detail: String) {
    format!("{}", error)
}

impl StoreFailure {
    /// What the classification reads of a failure of sqlx: which of the
    /// four kinds it is, and what it says of itself. The error is opaque
    /// here, so nothing is stated of the result; `from_store` and
    /// `from_lookup` state what each failure becomes.
    pub fn from_sqlx(error: &sqlx::Error) -> (failure: StoreFailure) {
        StoreFailure { kind: sqlx_failure_kind(error), detail: sqlx_failure_detail(error) }
    }
}

/// The status code under which a failure of kind `kind` is shown.
pub open spec fn status_of(kind: ErrorKind) -> int {
    match kind {
        ErrorKind::NotFound => 404,
        ErrorKind::DatabaseError => 400,
        ErrorKind::Invalidate => 400,
        ErrorKind::Unauthorized => 401,
        ErrorKind::Unexpected => 500,
        ErrorKind::Duplicated => 400,
    }
}

/// The message under which a failure is shown. Only `NotFound` and
/// `Duplicated` name the resource; the details of the store never leave.
pub open spec fn message_of(error: ErrorView) -> Seq<char> {
    match error.kind {
        ErrorKind::NotFound => error.text + " not found"@,
        ErrorKind::DatabaseError => "Database error"@,
        ErrorKind::Invalidate => "Validation failed"@,
        ErrorKind::Unauthorized => "Authorization failed"@,
        ErrorKind::Unexpected => "Unexpected error"@,
        ErrorKind::Duplicated => "Duplicated "@ + error.text,
    }
}

/// The failure that a failed statement becomes. Whatever went wrong while
/// the statement ran is a `DatabaseError`, be it the database's own error,
/// the connection or anything else. An answer that came back and could not
/// be read, or that lacks the row it must have, is `Unexpected`. Either
/// keeps the store's detail.
pub open spec fn fault_of(kind: StoreFailureKind, detail: Seq<char>) -> ErrorView {
    match kind {
        StoreFailureKind::Database => ErrorView { kind: ErrorKind::DatabaseError, text: detail },
        StoreFailureKind::Other => ErrorView { kind: ErrorKind::DatabaseError, text: detail },
        StoreFailureKind::RowNotFound => ErrorView { kind: ErrorKind::Unexpected, text: detail },
        StoreFailureKind::Unreadable => ErrorView { kind: ErrorKind::Unexpected, text: detail },
    }
}

/// The failure that a failed lookup of one row of `resource` becomes: a
/// missing row is `NotFound`, everything else is as for any statement.
pub open spec fn lookup_failure_of(
    kind: StoreFailureKind,
    detail: Seq<char>,
    resource: Seq<char>,
) -> ErrorView {
    match kind {
        StoreFailureKind::RowNotFound => ErrorView { kind: ErrorKind::NotFound, text: resource },
        _ => fault_of(kind, detail),
    }
}

impl CustomError {
    pub fn kind(&self) -> (kind: ErrorKind)
        ensures
            kind == self@.kind,
    {
        match self {
            CustomError::NotFound(_) => ErrorKind::NotFound,
            CustomError::DatabaseError(_) => ErrorKind::DatabaseError,
            CustomError::Invalidate(_) => ErrorKind::Invalidate,
            CustomError::Unauthorized(_) => ErrorKind::Unauthorized,
            CustomError::Unexpected(_) => ErrorKind::Unexpected,
            CustomError::Duplicated(_) => ErrorKind::Duplicated,
        }
    }

    /// Classifies the failure of a statement that inserts, lists, deletes or
    /// updates.
    pub fn from_store(failure: StoreFailure) -> (error: CustomError)
        ensures
            error@ == fault_of(failure.kind, failure.detail@),
    {
        match failure.kind {
            StoreFailureKind::Database => CustomError::DatabaseError(failure.detail),
            StoreFailureKind::Other => CustomError::DatabaseError(failure.detail),
            StoreFailureKind::RowNotFound => CustomError::Unexpected(failure.detail),
            StoreFailureKind::Unreadable => CustomError::Unexpected(failure.detail),
        }
    }

    /// Classifies the failure of a statement that looks up one row of
    /// `resource`.
    pub fn from_lookup(failure: StoreFailure, resource: &str) -> (error: CustomError)
        ensures
            error@ == lookup_failure_of(failure.kind, failure.detail@, resource@),
    {
        match failure.kind {
            StoreFailureKind::RowNotFound => CustomError::NotFound(resource.to_owned()),
            _ => CustomError::from_store(failure),
        }
    }

    pub fn status_code(&self) -> (status: u16)
        ensures
            status == status_of(self@.kind),
    {
        match self {
            CustomError::NotFound(_) => 404,
            CustomError::DatabaseError(_) => 400,
            CustomError::Invalidate(_) => 400,
            CustomError::Unauthorized(_) => 401,
            CustomError::Unexpected(_) => 500,
            CustomError::Duplicated(_) => 400,
        }
    }

    pub fn message(&self) -> (message: String)
        ensures
            message@ == message_of(self@),
    {
        match self {
            CustomError::NotFound(t) => {
                let mut message = t.clone();
                message.append(" not found");
                message
            },
            CustomError::DatabaseError(_) => "Database error".to_owned(),
            CustomError::Invalidate(_) => "Validation failed".to_owned(),
            CustomError::Unauthorized(_) => "Authorization failed".to_owned(),
            CustomError::Unexpected(_) => "Unexpected error".to_owned(),
            CustomError::Duplicated(t) => {
                let mut message = "Duplicated ".to_owned();
                message.append(t.as_str());
                message
            },
        }
    }

    /// The status code and the body that a client is shown for this failure.
    pub fn into_response(&self) -> (response: (u16, String))
        ensures
            response.0 == status_of(self@.kind),
            response.1@ == message_of(self@),
    {
        (self.status_code(), self.message())
    }
}

} // verus!
