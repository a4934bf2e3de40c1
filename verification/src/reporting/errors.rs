//! Errors of the reporting service and the HTTP answer they give.
use vstd::prelude::*;
use vstd::std_specs::convert::FromSpec;

verus! {

/// The error type of the ClickHouse client.
#[verifier::external_type_specification]
#[verifier::external_body]
pub struct ExClickhouseError(clickhouse_rs::errors::Error);

/// An error while the service answers a request.
#[derive(Debug)]
pub enum AppError {
    /// Querying the database failed.
    DBAccessorError(String),
    /// No database connection could be taken from the pool.
    DbCouldNotGetHandler(clickhouse_rs::errors::Error),
    /// Writing JSON failed.
    JsonSerialization(String),
    /// Not implemented.
    Unimplemented,
}

impl From<clickhouse_rs::errors::Error> for AppError {
    fn from(e: clickhouse_rs::errors::Error) -> (r: Self) {
        AppError::DbCouldNotGetHandler(e)
    }
}

impl vstd::std_specs::convert::FromSpecImpl<clickhouse_rs::errors::Error> for AppError {
    open spec fn obeys_from_spec() -> bool {
        true
    }

    open spec fn from_spec(v: clickhouse_rs::errors::Error) -> Self {
        AppError::DbCouldNotGetHandler(v)
    }
}

/// The error that a request handler answers with.
#[derive(Debug, Clone, Copy, PartialEq, Eq, Structural)]
pub enum ResponderErr {
    InternalError,
}

impl From<AppError> for ResponderErr {
    fn from(e: AppError) -> (r: Self) {
        match e {
            AppError::DBAccessorError(_)
            | AppError::DbCouldNotGetHandler(_)
            | AppError::JsonSerialization(_)
            | AppError::Unimplemented => ResponderErr::InternalError,
        }
    }
}

impl vstd::std_specs::convert::FromSpecImpl<AppError> for ResponderErr {
    open spec fn obeys_from_spec() -> bool {
        true
    }

    open spec fn from_spec(v: AppError) -> Self {
        ResponderErr::InternalError
    }
}

impl ResponderErr {
    /// The HTTP status of the answer: 500 for an internal error.
    pub fn status_code(&self) -> (r: u16)
        ensures
            r == 500,
    {
        match self {
            ResponderErr::InternalError => 500,
        }
    }

    /// The text of the answer.
    pub fn message(&self) -> (r: String)
        ensures
            r@ == "An internal error occurred. Please try again later."@,
    {
        match self {
            ResponderErr::InternalError => String::from_str(
                "An internal error occurred. Please try again later.",
            ),
        }
    }
}

/// Whatever went wrong while a request was answered, the client is told of
/// an internal error, with status 500.
pub proof fn lemma_every_app_error_is_internal(e: AppError)
    ensures
        <ResponderErr as FromSpec<AppError>>::from_spec(e)
            == ResponderErr::InternalError,
{
}

} // verus!
