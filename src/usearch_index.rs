use vstd::prelude::*;

use usearch::{Index, IndexOptions};

use crate::error::AppError;

verus! {

#[verifier::external_type_specification]
#[verifier::external_body]
pub struct ExIndex(Index);

#[verifier::external_type_specification]
#[verifier::external_body]
pub struct ExIndexOptions(IndexOptions);

/// Relies on usearch::Index::new: an index made from the options, or the
/// message of the exception usearch raised.
#[verifier::external_body]
pub(crate) fn new_usearch_index(opt: &IndexOptions) -> (r: Result<Index, String>) {
    Index::new(opt).map_err(|e| e.what().to_owned())
}

/// Relies on usearch::Index::remove: the number of vectors removed under the
/// key, or the message of the exception usearch raised.
#[verifier::external_body]
fn usearch_remove(index: &Index, key: u64) -> (r: Result<usize, String>) {
    index.remove(key).map_err(|e| e.what().to_owned())
}

/// Relies on usearch::Index::reserve: room for the capacity, or the message
/// of the exception usearch raised.
#[verifier::external_body]
fn usearch_reserve(index: &Index, capacity: usize) -> (r: Result<(), String>) {
    index.reserve(capacity).map_err(|e| e.what().to_owned())
}

/// Relies on usearch::Index::dimensions: the dimension of the vectors indexed.
/// Nothing is stated of it: loading or viewing a file through `&Index`
/// replaces the dimension without a change that Verus sees.
#[verifier::external_body]
fn usearch_dimensions(index: &Index) -> (r: usize) {
    index.dimensions()
}

/// A usearch index; usearch synchronises its own operations, so the index is
/// shared without a lock of ours.
pub struct UsearchIndex {
    index: Index,
}

impl UsearchIndex {
    pub fn new(index: Index) -> (r: Self)
        ensures
            r.inner_spec() == index,
    {
        UsearchIndex { index }
    }

    pub closed spec fn inner_spec(&self) -> Index {
        self.index
    }

    /// The usearch index, for the operations on vectors.
    pub fn index(&self) -> (r: &Index)
        ensures
            *r == self.inner_spec(),
    {
        &self.index
    }

    /// Removes the vectors of `label` and gives how many there were; a
    /// failure of usearch is reported as a usearch error with its message.
    pub fn remove(&self, label: u64) -> (r: Result<usize, AppError>)
        ensures
            r is Err ==> r matches Err(AppError::UsearchError(_)),
    {
        match usearch_remove(&self.index, label) {
            Ok(n) => Ok(n),
            Err(msg) => Err(AppError::UsearchError(msg)),
        }
    }

    /// Makes room for `size` vectors; a failure of usearch is reported as a
    /// usearch error with its message.
    pub fn reserve(&self, size: usize) -> (r: Result<(), AppError>)
        ensures
            r is Err ==> r matches Err(AppError::UsearchError(_)),
    {
        match usearch_reserve(&self.index, size) {
            Ok(()) => Ok(()),
            Err(msg) => Err(AppError::UsearchError(msg)),
        }
    }

    /// The dimension of the vectors the index holds.
    pub fn dim(&self) -> usize {
        usearch_dimensions(&self.index)
    }
}

} // verus!
