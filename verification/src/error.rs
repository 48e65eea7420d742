//! The error kinds the brain reports, their messages and HTTP status codes.
use crate::text::concat_str;
use vstd::prelude::*;

verus! {

/// An error of the brain service, each kind carrying its detail text.
#[derive(Debug, Clone, PartialEq, Eq)]
pub enum AppError {
    Database(String),
    ModelRuntime(String),
    Request(String),
    NotFound(String),
    Internal(String),
}

/// The JSON body sent with an error response.
#[derive(Debug, Clone, PartialEq, Eq)]
pub struct ErrorBody {
    pub ok: bool,
    pub error: String,
}

impl AppError {
    /// The human-readable message: a kind prefix followed by the detail.
    pub open spec fn spec_message(self) -> Seq<char> {
        match self {
            AppError::Database(d) => "database error: "@ + d@,
            AppError::ModelRuntime(d) => "model runtime error: "@ + d@,
            AppError::Request(d) => "request error: "@ + d@,
            AppError::NotFound(d) => "not found: "@ + d@,
            AppError::Internal(d) => "internal error: "@ + d@,
        }
    }

    /// The HTTP status code of this kind of error.
    pub open spec fn spec_status_code(self) -> u16 {
        match self {
            AppError::NotFound(_) => 404,
            AppError::Request(_) => 400,
            AppError::ModelRuntime(_) => 503,
            AppError::Database(_) | AppError::Internal(_) => 500,
        }
    }

    /// The message of this error.
    pub fn message(&self) -> (m: String)
        ensures
            m@ == self.spec_message(),
    {
        match self {
            AppError::Database(d) => concat_str("database error: ", d.as_str()),
            AppError::ModelRuntime(d) => concat_str("model runtime error: ", d.as_str()),
            AppError::Request(d) => concat_str("request error: ", d.as_str()),
            AppError::NotFound(d) => concat_str("not found: ", d.as_str()),
            AppError::Internal(d) => concat_str("internal error: ", d.as_str()),
        }
    }

    /// The HTTP status code an error response carries.
    pub fn status_code(&self) -> (c: u16)
        ensures
            c == self.spec_status_code(),
    {
        match self {
            AppError::NotFound(_) => 404,
            AppError::Request(_) => 400,
            AppError::ModelRuntime(_) => 503,
            AppError::Database(_) | AppError::Internal(_) => 500,
        }
    }

    /// The body of the error response: `ok` is false and `error` the message.
    pub fn body(&self) -> (b: ErrorBody)
        ensures
            !b.ok,
            b.error@ == self.spec_message(),
    {
        ErrorBody { ok: false, error: self.message() }
    }
}

/// `e` is a request error with this detail.
pub open spec fn is_request_error(e: AppError, detail: Seq<char>) -> bool {
    e matches AppError::Request(d) && d@ == detail
}

/// `e` is a not-found error with this detail.
pub open spec fn is_not_found_error(e: AppError, detail: Seq<char>) -> bool {
    e matches AppError::NotFound(d) && d@ == detail
}

/// `e` is a model-runtime error with this detail.
pub open spec fn is_model_runtime_error(e: AppError, detail: Seq<char>) -> bool {
    e matches AppError::ModelRuntime(d) && d@ == detail
}

/// A result of the brain service.
pub type AppResult<T> = Result<T, AppError>;

/// An error's message names its kind and ends with its detail, and its
/// status tells the kinds apart: 404 for a missing thing, 400 for a bad
/// request, 503 for the model runtime, 500 for the database and internal
/// errors.
pub proof fn lemma_error_message_and_status(e: AppError)
    ensures
        match e {
            AppError::Database(d) => d@.is_suffix_of(e.spec_message()) && e.spec_status_code() == 500,
            AppError::ModelRuntime(d) => d@.is_suffix_of(e.spec_message()) && e.spec_status_code()
                == 503,
            AppError::Request(d) => d@.is_suffix_of(e.spec_message()) && e.spec_status_code() == 400,
            AppError::NotFound(d) => d@.is_suffix_of(e.spec_message()) && e.spec_status_code() == 404,
            AppError::Internal(d) => d@.is_suffix_of(e.spec_message()) && e.spec_status_code() == 500,
        },
        e matches AppError::Request(d) ==> e.spec_message() == "request error: "@ + d@,
        e matches AppError::NotFound(d) ==> e.spec_message() == "not found: "@ + d@,
{
    let m = e.spec_message();
    match e {
        AppError::Database(d) => {
            assert(d@ =~= m.subrange(m.len() - d@.len(), m.len() as int));
        },
        AppError::ModelRuntime(d) => {
            assert(d@ =~= m.subrange(m.len() - d@.len(), m.len() as int));
        },
        AppError::Request(d) => {
            assert(d@ =~= m.subrange(m.len() - d@.len(), m.len() as int));
        },
        AppError::NotFound(d) => {
            assert(d@ =~= m.subrange(m.len() - d@.len(), m.len() as int));
        },
        AppError::Internal(d) => {
            assert(d@ =~= m.subrange(m.len() - d@.len(), m.len() as int));
        },
    }
}

} // verus!
