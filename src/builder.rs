use vstd::prelude::*;

use usearch::IndexOptions;

use crate::error::AppError;
use crate::key::MetricType;
use crate::usearch_index::{new_usearch_index, UsearchIndex};

verus! {

/// Configuration of a faiss index: the factory description, the metric and
/// the dimension.
pub struct FaissIndexBuilder {
    descriptor: String,
    metric_type: MetricType,
    dim: u32,
}

impl View for FaissIndexBuilder {
    type V = (Seq<char>, MetricType, u32);

    closed spec fn view(&self) -> Self::V {
        (self.descriptor@, self.metric_type, self.dim)
    }
}

impl Default for FaissIndexBuilder {
    fn default() -> (r: Self)
        ensures
            r@ == (Seq::<char>::empty(), MetricType::L2, 0u32),
    {
        FaissIndexBuilder { descriptor: String::new(), metric_type: MetricType::L2, dim: 0 }
    }
}

impl FaissIndexBuilder {
    pub fn description(self, s: &str) -> (r: Self)
        ensures
            r@ == (s@, self@.1, self@.2),
    {
        FaissIndexBuilder { descriptor: s.to_owned(), ..self }
    }

    pub fn metric_type(self, metric_type: MetricType) -> (r: Self)
        ensures
            r@ == (self@.0, metric_type, self@.2),
    {
        FaissIndexBuilder { metric_type, ..self }
    }

    pub fn dim(self, dim: u32) -> (r: Self)
        ensures
            r@ == (self@.0, self@.1, dim),
    {
        FaissIndexBuilder { dim, ..self }
    }

    pub fn descriptor(&self) -> (r: &str)
        ensures
            r@ == self@.0,
    {
        self.descriptor.as_str()
    }

    pub fn get_metric_type(&self) -> (r: MetricType)
        ensures
            r == self@.1,
    {
        self.metric_type
    }

    pub fn get_dim(&self) -> (r: u32)
        ensures
            r == self@.2,
    {
        self.dim
    }

    /// Fails where no index can be built: a zero dimension or an empty
    /// description.
    pub fn check(&self) -> (r: Result<(), AppError>)
        ensures
            r is Ok <==> self@.2 > 0 && self@.0.len() > 0,
            r is Err ==> r matches Err(AppError::ValidationError(_)),
    {
        if self.dim == 0 {
            return Err(AppError::ValidationError("dim must be at least 1".to_owned()));
        }
        if self.descriptor.as_str().is_empty() {
            return Err(AppError::ValidationError("index description cannot be empty".to_owned()));
        }
        Ok(())
    }
}

/// The most connections per node an HNSW graph can store.
pub const HNSW_CONNECTION_LIMIT: usize = 256;

/// Configuration of an HNSW graph over elements of type `T` compared by the
/// distance `D`.
pub struct HnswIndexBuilder<T, D> {
    max_nb_connection: usize,
    max_elements: usize,
    max_layer: usize,
    ef_construction: usize,
    data: T,
    space: D,
}

/// The numeric parameters of an HNSW configuration.
pub struct HnswParams {
    pub max_nb_connection: usize,
    pub max_elements: usize,
    pub max_layer: usize,
    pub ef_construction: usize,
}

impl<T, D> View for HnswIndexBuilder<T, D> {
    type V = HnswParams;

    closed spec fn view(&self) -> HnswParams {
        HnswParams {
            max_nb_connection: self.max_nb_connection,
            max_elements: self.max_elements,
            max_layer: self.max_layer,
            ef_construction: self.ef_construction,
        }
    }
}

impl<T, D> HnswIndexBuilder<T, D> {
    /// A configuration with every parameter zero.
    pub fn with_parts(data: T, space: D) -> (r: Self)
        ensures
            r@ == (HnswParams { max_nb_connection: 0, max_elements: 0, max_layer: 0, ef_construction: 0 }),
            r.data_spec() == data,
            r.space_spec() == space,
    {
        HnswIndexBuilder {
            max_nb_connection: 0,
            max_elements: 0,
            max_layer: 0,
            ef_construction: 0,
            data,
            space,
        }
    }

    pub closed spec fn data_spec(&self) -> T {
        self.data
    }

    pub closed spec fn space_spec(&self) -> D {
        self.space
    }

    pub fn max_nb_connection(self, max_nb_connection: usize) -> (r: Self)
        ensures
            r@ == (HnswParams { max_nb_connection, ..self@ }),
            r.data_spec() == self.data_spec() && r.space_spec() == self.space_spec(),
    {
        HnswIndexBuilder { max_nb_connection, ..self }
    }

    pub fn max_elements(self, max_elements: usize) -> (r: Self)
        ensures
            r@ == (HnswParams { max_elements, ..self@ }),
            r.data_spec() == self.data_spec() && r.space_spec() == self.space_spec(),
    {
        HnswIndexBuilder { max_elements, ..self }
    }

    pub fn max_layer(self, max_layer: usize) -> (r: Self)
        ensures
            r@ == (HnswParams { max_layer, ..self@ }),
            r.data_spec() == self.data_spec() && r.space_spec() == self.space_spec(),
    {
        HnswIndexBuilder { max_layer, ..self }
    }

    pub fn ef_construction(self, ef_construction: usize) -> (r: Self)
        ensures
            r@ == (HnswParams { ef_construction, ..self@ }),
            r.data_spec() == self.data_spec() && r.space_spec() == self.space_spec(),
    {
        HnswIndexBuilder { ef_construction, ..self }
    }

    pub fn space(self, space: D) -> (r: Self)
        ensures
            r@ == self@,
            r.data_spec() == self.data_spec() && r.space_spec() == space,
    {
        HnswIndexBuilder { space, ..self }
    }

    pub fn data(self, data: T) -> (r: Self)
        ensures
            r@ == self@,
            r.data_spec() == data && r.space_spec() == self.space_spec(),
    {
        HnswIndexBuilder { data, ..self }
    }

    /// The numeric parameters.
    pub fn params(&self) -> (r: HnswParams)
        ensures
            r == self@,
    {
        HnswParams {
            max_nb_connection: self.max_nb_connection,
            max_elements: self.max_elements,
            max_layer: self.max_layer,
            ef_construction: self.ef_construction,
        }
    }

    pub fn get_space(&self) -> (r: &D)
        ensures
            *r == self.space_spec(),
    {
        &self.space
    }

    /// Fails where no graph can be built: a zero connection count, capacity,
    /// layer count or construction width, or more connections than a graph
    /// stores.
    pub fn check(&self) -> (r: Result<(), AppError>)
        ensures
            r is Ok <==> 0 < self@.max_nb_connection <= HNSW_CONNECTION_LIMIT && self@.max_elements
                > 0 && self@.max_layer > 0 && self@.ef_construction > 0,
            r is Err ==> r matches Err(AppError::ValidationError(_)),
    {
        if self.max_nb_connection == 0 || self.max_elements == 0 || self.max_layer == 0
            || self.ef_construction == 0 {
            return Err(
                AppError::ValidationError("graph parameters must all be at least 1".to_owned()),
            );
        }
        if self.max_nb_connection > HNSW_CONNECTION_LIMIT {
            return Err(
                AppError::ValidationError("max_nb_connection must be at most 256".to_owned()),
            );
        }
        Ok(())
    }
}

/// Configuration of a usearch index.
pub struct UsearchIndexBuilder {
    opt: IndexOptions,
}

impl UsearchIndexBuilder {
    pub fn new(opt: IndexOptions) -> (r: Self)
        ensures
            r.options() == opt,
    {
        UsearchIndexBuilder { opt }
    }

    pub closed spec fn options(&self) -> IndexOptions {
        self.opt
    }

    /// Builds the index; a failure of usearch is reported as a usearch error.
    pub fn build_index(&self) -> (r: Result<UsearchIndex, AppError>)
        ensures
            r is Err ==> r matches Err(AppError::UsearchError(_)),
    {
        match new_usearch_index(&self.opt) {
            Ok(index) => Ok(UsearchIndex::new(index)),
            Err(msg) => Err(AppError::UsearchError(msg)),
        }
    }
}

} // verus!
