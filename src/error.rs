use vstd::prelude::*;

use crate::key::IndexKey;

verus! {

/// The kinds of failure the service reports, each with its detail.
#[derive(Debug, Clone, PartialEq, Eq)]
pub enum AppError {
    ValidationError(String),
    FaissError(String),
    HnswError(String),
    UsearchError(String),
    IndexNotFound(String),
    UnsupportedIndexType(IndexKey),
    /// The index of the key cannot do what was asked of it.
    UnsupportedOperation(IndexKey, String),
    InitIndexError(IndexKey, String),
    UpsertError(String),
    QueryError(String),
}

pub open spec fn status_of(e: AppError) -> u16 {
    match e {
        AppError::ValidationError(_) => 400,
        AppError::IndexNotFound(_) | AppError::UnsupportedIndexType(_) => 404,
        _ => 500,
    }
}

impl AppError {
    /// The HTTP status a transport reports this error with: malformed input is
    /// 400, a missing or unsupported index 404, every other failure 500.
    pub fn status_code(&self) -> (r: u16)
        ensures
            r == status_of(*self),
    {
        match self {
            AppError::ValidationError(_) => 400,
            AppError::IndexNotFound(_) | AppError::UnsupportedIndexType(_) => 404,
            _ => 500,
        }
    }
}

} // verus!
