use vstd::prelude::*;

verus! {

/// The backend algorithm that an index is built with.
#[derive(Debug, Clone, Copy, PartialEq, Eq, Hash, Structural)]
pub enum IndexType {
    FLAT,
    HNSW,
    UNKNOWN,
    USEARCH,
}

/// The distance an index ranks its neighbours by.
#[derive(Debug, Clone, Copy, PartialEq, Eq, Hash, Structural)]
pub enum MetricType {
    /// Inner product, also called cosine distance
    InnerProduct,
    /// Euclidean L2-distance
    L2,
}

/// The sole identity of an index instance: algorithm, dimensionality and metric.
#[derive(Debug, Clone, Copy, PartialEq, Eq, Hash, Structural)]
pub struct IndexKey {
    pub index_type: IndexType,
    pub dim: u32,
    pub metric_type: MetricType,
}

pub open spec fn index_type_name(t: IndexType) -> Seq<char> {
    match t {
        IndexType::FLAT => "FLAT"@,
        IndexType::HNSW => "HNSW"@,
        IndexType::USEARCH => "USEARCH"@,
        IndexType::UNKNOWN => "UNKNOWN"@,
    }
}

pub open spec fn metric_type_name(m: MetricType) -> Seq<char> {
    match m {
        MetricType::InnerProduct => "INNER_PRODUCT"@,
        MetricType::L2 => "L2"@,
    }
}

pub open spec fn index_type_tag(t: IndexType) -> u64 {
    match t {
        IndexType::FLAT => 0,
        IndexType::HNSW => 1,
        IndexType::UNKNOWN => 2,
        IndexType::USEARCH => 3,
    }
}

pub open spec fn metric_type_tag(m: MetricType) -> u64 {
    match m {
        MetricType::InnerProduct => 0,
        MetricType::L2 => 1,
    }
}

/// A number that identifies a key: the algorithm above bit 33, the metric at
/// bit 32, the dimension below.
pub open spec fn key_code(k: IndexKey) -> u64 {
    (index_type_tag(k.index_type) * 0x2_0000_0000 + metric_type_tag(k.metric_type) * 0x1_0000_0000
        + k.dim as u64) as u64
}

/// Two keys with the same code are the same key.
pub proof fn lemma_key_code_injective(a: IndexKey, b: IndexKey)
    ensures
        key_code(a) == key_code(b) <==> a == b,
{
}

impl IndexType {
    /// Upper-case name of the algorithm.
    pub fn as_str(&self) -> (r: &'static str)
        ensures
            r@ == index_type_name(*self),
    {
        match self {
            IndexType::FLAT => "FLAT",
            IndexType::HNSW => "HNSW",
            IndexType::USEARCH => "USEARCH",
            IndexType::UNKNOWN => "UNKNOWN",
        }
    }
}

impl MetricType {
    /// Upper-case name of the metric.
    pub fn as_str(&self) -> (r: &'static str)
        ensures
            r@ == metric_type_name(*self),
    {
        match self {
            MetricType::InnerProduct => "INNER_PRODUCT",
            MetricType::L2 => "L2",
        }
    }
}

impl Default for MetricType {
    fn default() -> (r: MetricType)
        ensures
            r == MetricType::L2,
    {
        MetricType::L2
    }
}

impl IndexKey {
    pub fn new(index_type: IndexType, dim: u32, metric_type: MetricType) -> (r: IndexKey)
        ensures
            r == (IndexKey { index_type, dim, metric_type }),
    {
        IndexKey { index_type, dim, metric_type }
    }

    /// The number that identifies this key among all keys.
    pub fn code(&self) -> (r: u64)
        ensures
            r == key_code(*self),
    {
        let t: u64 = match self.index_type {
            IndexType::FLAT => 0,
            IndexType::HNSW => 1,
            IndexType::UNKNOWN => 2,
            IndexType::USEARCH => 3,
        };
        let m: u64 = match self.metric_type {
            MetricType::InnerProduct => 0,
            MetricType::L2 => 1,
        };
        t * 0x2_0000_0000 + m * 0x1_0000_0000 + self.dim as u64
    }
}

} // verus!
