use usearch::{IndexOptions, MetricKind, ScalarKind};
use vectordb::builder::UsearchIndexBuilder;
use vectordb::error::AppError;
use vectordb::handle::IndexHandle;
use vectordb::key::{IndexKey, IndexType, MetricType};
use vectordb::registry::{build_plan, BuildPlan, IndexFactory};
use vectordb::usearch_index::UsearchIndex;

/// What the tests build in place of a backend: the plan it was built from.
#[derive(Debug)]
struct Built {
    dim: u32,
    metric: MetricType,
}

fn build(plan: BuildPlan) -> Result<Built, String> {
    match plan {
        BuildPlan::Faiss { dim, metric, .. } => Ok(Built { dim, metric }),
        BuildPlan::Hnsw { .. } => Ok(Built { dim: 0, metric: MetricType::L2 }),
        BuildPlan::Usearch { dimensions, metric } => Ok(Built { dim: dimensions as u32, metric }),
    }
}

fn key(index_type: IndexType, dim: u32, metric_type: MetricType) -> IndexKey {
    IndexKey { index_type, dim, metric_type }
}

#[test]
fn index_factory_test_index_factory() {
    let mut index_factory = IndexFactory::new();
    index_factory.init(key(IndexType::FLAT, 128, MetricType::L2), 1000, build).unwrap();
    index_factory.init(key(IndexType::FLAT, 256, MetricType::L2), 1000, build).unwrap();
    index_factory
        .init(key(IndexType::FLAT, 10, MetricType::InnerProduct), 1000, build)
        .unwrap();

    let index = index_factory.get_index(key(IndexType::FLAT, 256, MetricType::L2));
    assert_eq!(index.unwrap().downcast_ref(IndexType::FLAT).unwrap().dim, 256);

    let index = index_factory.get_index(key(IndexType::FLAT, 128, MetricType::L2));
    assert_eq!(index.unwrap().downcast_ref(IndexType::FLAT).unwrap().dim, 128);

    let index = index_factory.get_index(key(IndexType::FLAT, 10, MetricType::InnerProduct));
    assert_eq!(
        index.unwrap().downcast_ref(IndexType::FLAT).unwrap().metric,
        MetricType::InnerProduct
    );

    let result = index_factory.init(key(IndexType::UNKNOWN, 128, MetricType::L2), 1000, build);
    assert!(result.is_err());

    index_factory.init(key(IndexType::USEARCH, 128, MetricType::L2), 1000, build).unwrap();
    let index = index_factory.get_index(key(IndexType::USEARCH, 128, MetricType::L2));
    assert_eq!(index.unwrap().downcast_ref(IndexType::USEARCH).unwrap().dim, 128);
}

#[test]
fn unsupported_init_leaves_registry_without_entry() {
    let mut factory: IndexFactory<Built> = IndexFactory::new();
    let unknown = key(IndexType::UNKNOWN, 128, MetricType::L2);
    assert!(factory.get_index(unknown).is_none());
    let result = factory.init(unknown, 1000, build);
    assert_eq!(result, Err(AppError::UnsupportedIndexType(unknown)));
    assert!(factory.get_index(unknown).is_none());
}

#[test]
fn second_init_keeps_first_instance() {
    let mut factory: IndexFactory<Built> = IndexFactory::new();
    let k = key(IndexType::FLAT, 3, MetricType::L2);
    factory.init(k, 0, build).unwrap();
    let mut called = false;
    factory
        .init(k, 0, |_| {
            called = true;
            Ok(Built { dim: 99, metric: MetricType::InnerProduct })
        })
        .unwrap();
    assert!(!called);
    assert_eq!(factory.get_index(k).unwrap().downcast_ref(IndexType::FLAT).unwrap().dim, 3);
}

#[test]
fn keys_do_not_share_instances() {
    let mut factory: IndexFactory<Built> = IndexFactory::new();
    let a = key(IndexType::FLAT, 3, MetricType::L2);
    let b = key(IndexType::FLAT, 3, MetricType::InnerProduct);
    factory.init(a, 0, build).unwrap();
    assert!(factory.get_index(b).is_none());
    factory.init(b, 0, build).unwrap();
    assert_eq!(factory.get_index(a).unwrap().downcast_ref(IndexType::FLAT).unwrap().metric, MetricType::L2);
    assert_eq!(
        factory.get_index(b).unwrap().downcast_ref(IndexType::FLAT).unwrap().metric,
        MetricType::InnerProduct
    );
}

#[test]
fn failed_build_is_an_init_error() {
    let mut factory: IndexFactory<Built> = IndexFactory::new();
    let k = key(IndexType::USEARCH, 8, MetricType::L2);
    let r = factory.init(k, 0, |_| Err("out of memory".to_string()));
    assert_eq!(r, Err(AppError::InitIndexError(k, "out of memory".to_string())));
    assert!(factory.get_index(k).is_none());
}

#[test]
fn hnsw_needs_l2_and_a_capacity() {
    let mut factory: IndexFactory<Built> = IndexFactory::new();
    let ip = key(IndexType::HNSW, 3, MetricType::InnerProduct);
    assert_eq!(factory.init(ip, 1000, build), Err(AppError::UnsupportedIndexType(ip)));
    let l2 = key(IndexType::HNSW, 3, MetricType::L2);
    assert!(matches!(factory.init(l2, 0, build), Err(AppError::ValidationError(_))));
    assert!(factory.init(l2, 1000, build).is_ok());
    assert!(factory.get_index(l2).is_some());
}

#[test]
fn plans_follow_the_key() {
    match build_plan(key(IndexType::FLAT, 3, MetricType::L2), 0) {
        Ok(BuildPlan::Faiss { dim, description, metric }) => {
            assert_eq!(dim, 3);
            assert_eq!(description, "IDMap,Flat");
            assert_eq!(metric, MetricType::L2);
        }
        _ => panic!("expected a faiss plan"),
    }
    match build_plan(key(IndexType::HNSW, 3, MetricType::L2), 1000) {
        Ok(BuildPlan::Hnsw { max_nb_connection, max_elements, max_layer, ef_construction }) => {
            assert_eq!((max_nb_connection, max_elements, max_layer, ef_construction), (16, 1000, 16, 200));
        }
        _ => panic!("expected an hnsw plan"),
    }
    match build_plan(key(IndexType::USEARCH, 128, MetricType::InnerProduct), 0) {
        Ok(BuildPlan::Usearch { dimensions, metric }) => {
            assert_eq!(dimensions, 128);
            assert_eq!(metric, MetricType::InnerProduct);
        }
        _ => panic!("expected a usearch plan"),
    }
    assert!(matches!(
        build_plan(key(IndexType::FLAT, 0, MetricType::L2), 0),
        Err(AppError::ValidationError(_))
    ));
}

#[test]
fn handle_downcast_checks_algorithm() {
    let handle = IndexHandle::new(IndexType::HNSW, 5u32);
    assert_eq!(handle.downcast_ref(IndexType::HNSW), Some(&5));
    assert_eq!(handle.downcast_ref(IndexType::FLAT), None);
    let alias = handle.clone();
    assert_eq!(alias.algorithm(), IndexType::HNSW);
    assert_eq!(alias.downcast_ref(IndexType::HNSW), Some(&5));
}

fn usearch_options() -> IndexOptions {
    IndexOptions {
        dimensions: 3,
        metric: MetricKind::IP,
        quantization: ScalarKind::BF16,
        connectivity: 0,
        expansion_add: 0,
        expansion_search: 0,
        multi: false,
    }
}

#[test]
fn test_new() {
    let usearch_builder = UsearchIndexBuilder::new(IndexOptions::default());
    let index = usearch_builder.build_index();
    assert!(index.is_ok());
}

#[test]
fn test_remove() {
    let index: UsearchIndex = UsearchIndexBuilder::new(usearch_options()).build_index().unwrap();
    let first: [f32; 3] = [0.2, 0.1, 0.2];
    let second: [f32; 3] = [0.2, 0.1, 0.2];

    assert!(index.reserve(10).is_ok());
    assert!(index.index().add(1, &first).is_ok());
    assert!(index.index().add(2, &second).is_ok());

    let query = [0.2, 0.1, 0.2];
    let r = index.remove(1);
    assert_eq!(r, Ok(1));
    let result = index.index().exact_search(&query, 10).unwrap();
    assert_eq!(result.keys.len(), 1);
    assert_eq!(index.dim(), 3);
}
