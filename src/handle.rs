use vstd::prelude::*;

use std::sync::Arc;

use crate::error::AppError;
use crate::key::IndexType;

verus! {

/// Shared ownership of one index instance, tagged with the algorithm it was
/// built for. Clones alias the same instance.
pub struct IndexHandle<T> {
    algorithm: IndexType,
    inner: Arc<T>,
}

impl<T> View for IndexHandle<T> {
    /// The algorithm tag and the instance.
    type V = (IndexType, T);

    closed spec fn view(&self) -> Self::V {
        (self.algorithm, *self.inner)
    }
}

impl<T> Clone for IndexHandle<T> {
    fn clone(&self) -> (r: Self)
        ensures
            r@ == self@,
    {
        IndexHandle { algorithm: self.algorithm, inner: Arc::clone(&self.inner) }
    }
}

impl<T> IndexHandle<T> {
    pub fn new(algorithm: IndexType, inner: T) -> (r: Self)
        ensures
            r@ == (algorithm, inner),
    {
        IndexHandle { algorithm, inner: Arc::new(inner) }
    }

    /// The algorithm the instance was built for.
    pub fn algorithm(&self) -> (r: IndexType)
        ensures
            r == self@.0,
    {
        self.algorithm
    }

    /// The instance, where the caller asks for the algorithm it was built for;
    /// `None` for any other algorithm.
    pub fn downcast_ref(&self, algorithm: IndexType) -> (r: Option<&T>)
        ensures
            r is Some <==> algorithm == self@.0,
            r is Some ==> *r->0 == self@.1,
    {
        if self.algorithm == algorithm {
            Some(&*self.inner)
        } else {
            None
        }
    }
}

/// Turns a declarative configuration into a constructed index instance.
pub trait IndexBuilder<T> {
    fn build(&self) -> Result<IndexHandle<T>, AppError>;
}

} // verus!
