use vstd::prelude::*;

use crate::error::AppError;
use crate::key::{IndexKey, IndexType, MetricType};

verus! {

/// A request to create the index of a key.
#[derive(Debug, Clone, Copy, PartialEq, Eq, Structural)]
pub struct CreateRequest {
    pub index_type: Option<IndexType>,
    pub dim: Option<u32>,
    pub metric_type: Option<MetricType>,
    /// Capacity of a graph index; given for HNSW and only for it.
    pub max_elements: Option<usize>,
}

/// A request for the metadata of one record.
#[derive(Debug, Clone, Copy, PartialEq, Eq, Structural)]
pub struct QueryRequest {
    pub id: Option<u64>,
}

/// The answer to a create request.
#[derive(Debug, Clone, PartialEq, Eq)]
pub struct CreateResponse {
    pub code: i32,
    pub error_msg: Option<String>,
    pub index_key: Option<IndexKey>,
}

/// The answer to an insert request.
#[derive(Debug, Clone, PartialEq, Eq)]
pub struct InsertResponse {
    pub code: i32,
    pub error_msg: Option<String>,
}

/// The fields of a create request each hold what they must.
pub open spec fn create_fields_valid(r: CreateRequest) -> bool {
    &&& r.index_type is Some
    &&& r.dim matches Some(d) && d >= 1
    &&& r.metric_type is Some
    &&& r.max_elements matches Some(m) ==> m >= 1
}

/// A graph index is given a capacity, and no other index is.
pub open spec fn capacity_fits_type(r: CreateRequest) -> bool {
    match r.index_type {
        Some(IndexType::HNSW) => r.max_elements is Some,
        Some(_) => r.max_elements is None,
        None => true,
    }
}

/// The rule across fields of a create request: `max_elements` is required
/// for HNSW and refused for every other index type.
pub fn validate_create_request(request: &CreateRequest) -> (r: Result<(), AppError>)
    ensures
        r is Ok <==> capacity_fits_type(*request),
        r is Err ==> r matches Err(AppError::ValidationError(_)),
{
    match request.index_type {
        Some(IndexType::HNSW) => {
            if request.max_elements.is_none() {
                return Err(
                    AppError::ValidationError(
                        "max_elements is required for HNSW index type".to_owned(),
                    ),
                );
            }
        },
        Some(_) => {
            if request.max_elements.is_some() {
                return Err(
                    AppError::ValidationError(
                        "max_elements is only allowed for HNSW index type".to_owned(),
                    ),
                );
            }
        },
        None => {},
    }
    Ok(())
}

impl CreateRequest {
    /// Checks every field, then the rule across fields.
    pub fn validate(&self) -> (r: Result<(), AppError>)
        ensures
            r is Ok <==> create_fields_valid(*self) && capacity_fits_type(*self),
            r is Err ==> r matches Err(AppError::ValidationError(_)),
    {
        if self.index_type.is_none() {
            return Err(AppError::ValidationError("index_type cannot be empty".to_owned()));
        }
        match self.dim {
            None => {
                return Err(AppError::ValidationError("dim cannot be empty".to_owned()));
            },
            Some(d) => {
                if d < 1 {
                    return Err(AppError::ValidationError("dim must be at least 1".to_owned()));
                }
            },
        }
        if self.metric_type.is_none() {
            return Err(AppError::ValidationError("metric_type cannot be empty".to_owned()));
        }
        if let Some(m) = self.max_elements {
            if m < 1 {
                return Err(
                    AppError::ValidationError("max_elements must be at least 1".to_owned()),
                );
            }
        }
        validate_create_request(self)
    }

    /// The key the request names, once it is valid.
    pub fn index_key(&self) -> (r: IndexKey)
        requires
            create_fields_valid(*self),
        ensures
            Some(r.index_type) == self.index_type && Some(r.dim) == self.dim && Some(r.metric_type)
                == self.metric_type,
    {
        IndexKey {
            index_type: self.index_type.unwrap(),
            dim: self.dim.unwrap(),
            metric_type: self.metric_type.unwrap(),
        }
    }
}

impl QueryRequest {
    /// The id is given and at least 1.
    pub fn validate(&self) -> (r: Result<u64, AppError>)
        ensures
            match self.id {
                Some(id) if id >= 1 => r == Ok::<u64, AppError>(id),
                _ => r matches Err(AppError::ValidationError(_)),
            },
    {
        match self.id {
            None => Err(AppError::ValidationError("id cannot be empty".to_owned())),
            Some(id) => {
                if id < 1 {
                    Err(AppError::ValidationError("id must be at least 1".to_owned()))
                } else {
                    Ok(id)
                }
            },
        }
    }
}

} // verus!
