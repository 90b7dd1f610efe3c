use vstd::prelude::*;

use std::collections::HashMap;

use crate::error::AppError;
use crate::handle::IndexHandle;
use crate::key::{key_code, lemma_key_code_injective, IndexKey, IndexType, MetricType};

verus! {

broadcast use vstd::std_specs::hash::group_hash_axioms;

/// Connections per node of a graph index the registry builds.
pub const HNSW_MAX_NB_CONNECTION: usize = 16;

/// Layers of a graph index the registry builds.
pub const HNSW_MAX_LAYER: usize = 16;

/// Candidate list size while a graph index the registry builds is filled.
pub const HNSW_EF_CONSTRUCTION: usize = 200;

/// What a backend is built with, chosen from an index key.
pub enum BuildPlan {
    /// A faiss index made by its factory from `description`.
    Faiss { dim: u32, description: String, metric: MetricType },
    /// An HNSW graph with Euclidean distance.
    Hnsw { max_nb_connection: usize, max_elements: usize, max_layer: usize, ef_construction: usize },
    /// A usearch index.
    Usearch { dimensions: usize, metric: MetricType },
}

/// The key names an algorithm and metric that some backend builds.
pub open spec fn supported(key: IndexKey) -> bool {
    match key.index_type {
        IndexType::FLAT | IndexType::USEARCH => true,
        IndexType::HNSW => key.metric_type == MetricType::L2,
        IndexType::UNKNOWN => false,
    }
}

/// The key and the capacity hint are parameters a backend can be built with.
pub open spec fn valid_params(key: IndexKey, max_elements: usize) -> bool {
    key.dim > 0 && (key.index_type == IndexType::HNSW ==> max_elements > 0)
}

/// `p` is the plan for `key` and `max_elements`.
pub open spec fn plan_fits(key: IndexKey, max_elements: usize, p: BuildPlan) -> bool {
    match p {
        BuildPlan::Faiss { dim, description, metric } => key.index_type == IndexType::FLAT && dim
            == key.dim && description@ == "IDMap,Flat"@ && metric == key.metric_type,
        BuildPlan::Hnsw { max_nb_connection, max_elements: m, max_layer, ef_construction } =>
            key.index_type == IndexType::HNSW && max_nb_connection == HNSW_MAX_NB_CONNECTION && m
            == max_elements && max_layer == HNSW_MAX_LAYER && ef_construction
            == HNSW_EF_CONSTRUCTION,
        BuildPlan::Usearch { dimensions, metric } => key.index_type == IndexType::USEARCH
            && dimensions == key.dim as usize && metric == key.metric_type,
    }
}

/// Chooses how the backend for `key` is built. An algorithm, or an algorithm
/// and metric, that no backend offers is unsupported; a zero dimension, or a
/// zero capacity for a graph index, is malformed.
pub fn build_plan(key: IndexKey, max_elements: usize) -> (r: Result<BuildPlan, AppError>)
    ensures
        !supported(key) ==> r == Err::<BuildPlan, AppError>(AppError::UnsupportedIndexType(key)),
        supported(key) && !valid_params(key, max_elements) ==> r matches Err(
            AppError::ValidationError(_),
        ),
        r is Ok <==> supported(key) && valid_params(key, max_elements),
        r matches Ok(p) ==> plan_fits(key, max_elements, p),
{
    let hnsw_l2 = match key.metric_type {
        MetricType::L2 => true,
        MetricType::InnerProduct => false,
    };
    match key.index_type {
        IndexType::UNKNOWN => {
            return Err(AppError::UnsupportedIndexType(key));
        },
        IndexType::HNSW => {
            if !hnsw_l2 {
                return Err(AppError::UnsupportedIndexType(key));
            }
        },
        _ => {},
    }
    if key.dim == 0 {
        return Err(AppError::ValidationError("dim must be at least 1".to_owned()));
    }
    match key.index_type {
        IndexType::FLAT => Ok(
            BuildPlan::Faiss {
                dim: key.dim,
                description: "IDMap,Flat".to_owned(),
                metric: key.metric_type,
            },
        ),
        IndexType::HNSW => {
            if max_elements == 0 {
                return Err(AppError::ValidationError("max_elements must be at least 1".to_owned()));
            }
            Ok(
                BuildPlan::Hnsw {
                    max_nb_connection: HNSW_MAX_NB_CONNECTION,
                    max_elements,
                    max_layer: HNSW_MAX_LAYER,
                    ef_construction: HNSW_EF_CONSTRUCTION,
                },
            )
        },
        _ => Ok(BuildPlan::Usearch { dimensions: key.dim as usize, metric: key.metric_type }),
    }
}

/// The map after registering `v` under `key`: unchanged where `key` already
/// has an entry.
pub open spec fn registered<V>(m: Map<IndexKey, V>, key: IndexKey, v: V) -> Map<IndexKey, V> {
    if m.contains_key(key) {
        m
    } else {
        m.insert(key, v)
    }
}

/// What registering the outcome `res` of a build under `key` gives: the
/// instance is registered and the call succeeds, or the build's message comes
/// back as a failed initialisation and nothing changes.
pub open spec fn built_outcome<T>(
    before: Map<IndexKey, (IndexType, T)>,
    key: IndexKey,
    res: Result<T, String>,
    r: Result<(), AppError>,
    after: Map<IndexKey, (IndexType, T)>,
) -> bool {
    match res {
        Ok(t) => r is Ok && after == before.insert(key, (key.index_type, t)),
        Err(msg) => r == Err::<(), AppError>(AppError::InitIndexError(key, msg)) && after == before,
    }
}

/// The owner of every index instance: each key maps to the one handle built
/// for it, and an entry, once made, is never replaced or removed. `init` takes
/// `&mut self`: callers that share the registry between threads hold it
/// behind a lock, so one construction per key wins and every caller sees it.
pub struct IndexFactory<T> {
    index_map: HashMap<u64, IndexHandle<T>>,
}

impl<T> View for IndexFactory<T> {
    /// Each key with the algorithm tag and instance of its handle.
    type V = Map<IndexKey, (IndexType, T)>;

    closed spec fn view(&self) -> Self::V {
        Map::new(
            |k: IndexKey| self.index_map@.contains_key(key_code(k)),
            |k: IndexKey| self.index_map@[key_code(k)]@,
        )
    }
}

impl<T> IndexFactory<T> {
    pub fn new() -> (r: Self)
        ensures
            r@ == Map::<IndexKey, (IndexType, T)>::empty(),
    {
        let r = IndexFactory { index_map: HashMap::new() };
        assert(r@ =~= Map::<IndexKey, (IndexType, T)>::empty());
        r
    }

    /// The handle registered under `key`, if any.
    pub fn get_index(&self, key: IndexKey) -> (r: Option<IndexHandle<T>>)
        ensures
            r is Some <==> self@.contains_key(key),
            r matches Some(h) ==> h@ == self@[key],
    {
        match self.index_map.get(&key.code()) {
            Some(h) => Some(h.clone()),
            None => None,
        }
    }

    /// Registers the instance built from `built` under `key`, where `key` has
    /// no entry yet. A failed build registers nothing and is reported as a
    /// failed initialisation of `key`.
    pub fn register_built(&mut self, key: IndexKey, built: Result<T, String>) -> (r: Result<
        (),
        AppError,
    >)
        requires
            !old(self)@.contains_key(key),
        ensures
            built_outcome(old(self)@, key, built, r, final(self)@),
    {
        match built {
            Ok(t) => {
                let ghost before = self@;
                let h = IndexHandle::new(key.index_type, t);
                self.index_map.insert(key.code(), h);
                proof {
                    assert forall|k: IndexKey| #[trigger]
                        self@.contains_key(k) == before.insert(key, h@).contains_key(k) by {
                        lemma_key_code_injective(k, key);
                    }
                    assert forall|k: IndexKey| #[trigger]
                        self@.contains_key(k) implies self@[k] == before.insert(key, h@)[k] by {
                        lemma_key_code_injective(k, key);
                    }
                    assert(self@ =~= before.insert(key, h@));
                }
                Ok(())
            },
            Err(msg) => Err(AppError::InitIndexError(key, msg)),
        }
    }

    /// Makes sure `key` has an index. Where it has one already, nothing is
    /// built and nothing changes. An unsupported or malformed key fails
    /// before anything is built. Otherwise the plan for the key is handed to
    /// `build` once: what it builds is registered and the call succeeds, and
    /// a failed build is reported as a failed initialisation of the key.
    pub fn init<F>(&mut self, key: IndexKey, max_elements: usize, build: F) -> (r: Result<
        (),
        AppError,
    >) where F: FnOnce(BuildPlan) -> Result<T, String>
        requires
            forall|p: BuildPlan| build.requires((p,)),
        ensures
            old(self)@.contains_key(key) ==> r is Ok && final(self)@ == old(self)@,
            !old(self)@.contains_key(key) && !supported(key) ==> r == Err::<(), AppError>(
                AppError::UnsupportedIndexType(key),
            ),
            !old(self)@.contains_key(key) && supported(key) && !valid_params(key, max_elements)
                ==> r matches Err(AppError::ValidationError(_)),
            r is Err ==> final(self)@ == old(self)@,
            !old(self)@.contains_key(key) && supported(key) && valid_params(key, max_elements)
                ==> exists|p: BuildPlan, res: Result<T, String>|
                plan_fits(key, max_elements, p) && build.ensures((p,), res) && built_outcome(
                    old(self)@,
                    key,
                    res,
                    r,
                    final(self)@,
                ),
            final(self)@ == registered(old(self)@, key, final(self)@[key]) || r is Err,
    {
        if self.index_map.contains_key(&key.code()) {
            return Ok(());
        }
        let plan = match build_plan(key, max_elements) {
            Ok(p) => p,
            Err(e) => {
                return Err(e);
            },
        };
        let ghost p = plan;
        let built = build(plan);
        let ghost b = built;
        let ghost before = self@;
        let r = self.register_built(key, built);
        assert(plan_fits(key, max_elements, p) && build.ensures((p,), b) && built_outcome(
            before,
            key,
            b,
            r,
            self@,
        ));
        r
    }
}

/// Registering under a key that has an entry changes nothing, so the handle
/// of the first registration is the one every later caller observes.
pub proof fn lemma_register_idempotent<V>(m: Map<IndexKey, V>, key: IndexKey, first: V, second: V)
    ensures
        registered(registered(m, key, first), key, second) == registered(m, key, first),
        !m.contains_key(key) ==> registered(registered(m, key, first), key, second)[key] == first,
{
}

/// Registering under one key leaves the entry of every other key as it was.
pub proof fn lemma_register_isolated<V>(m: Map<IndexKey, V>, k1: IndexKey, k2: IndexKey, v: V)
    requires
        k1 != k2,
    ensures
        registered(m, k1, v).contains_key(k2) == m.contains_key(k2),
        m.contains_key(k2) ==> registered(m, k1, v)[k2] == m[k2],
{
}

} // verus!
