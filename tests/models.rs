use vectordb::builder::{FaissIndexBuilder, HnswIndexBuilder};
use vectordb::error::AppError;
use vectordb::key::{IndexKey, IndexType, MetricType};
use vectordb::models::{validate_create_request, CreateRequest, QueryRequest};

fn request(index_type: IndexType, max_elements: Option<usize>) -> CreateRequest {
    CreateRequest { index_type: Some(index_type), dim: Some(128), metric_type: Some(MetricType::L2), max_elements }
}

#[test]
fn hnsw_request_needs_capacity() {
    assert!(validate_create_request(&request(IndexType::HNSW, None)).is_err());
    assert!(validate_create_request(&request(IndexType::HNSW, Some(1000))).is_ok());
}

#[test]
fn flat_request_refuses_capacity() {
    assert!(validate_create_request(&request(IndexType::FLAT, Some(1000))).is_err());
    assert!(validate_create_request(&request(IndexType::FLAT, None)).is_ok());
}

#[test]
fn create_request_fields() {
    let mut r = request(IndexType::FLAT, None);
    assert!(r.validate().is_ok());
    assert_eq!(r.index_key(), IndexKey { index_type: IndexType::FLAT, dim: 128, metric_type: MetricType::L2 });
    r.dim = Some(0);
    assert!(matches!(r.validate(), Err(AppError::ValidationError(_))));
    r.dim = None;
    assert!(r.validate().is_err());
    let mut r = request(IndexType::HNSW, Some(0));
    assert!(r.validate().is_err());
    r.max_elements = Some(1);
    assert!(r.validate().is_ok());
    r.metric_type = None;
    assert!(r.validate().is_err());
}

#[test]
fn query_request_id() {
    assert_eq!(QueryRequest { id: Some(7) }.validate(), Ok(7));
    assert!(QueryRequest { id: Some(0) }.validate().is_err());
    assert!(QueryRequest { id: None }.validate().is_err());
}

#[test]
fn faiss_index_builder_test_faiss_index_builder() {
    let builder = FaissIndexBuilder::default()
        .description("IDMap,Flat")
        .metric_type(MetricType::L2)
        .dim(128);
    assert!(builder.check().is_ok());
    assert_eq!(builder.get_dim(), 128);
    assert_eq!(builder.descriptor(), "IDMap,Flat");
    assert_eq!(builder.get_metric_type(), MetricType::L2);
}

#[test]
fn index_builder_test_faiss_index_builder() {
    let builder = FaissIndexBuilder::default()
        .description("IDMap,Flat")
        .metric_type(MetricType::L2)
        .dim(128);
    assert!(builder.check().is_ok());
    assert_eq!(builder.get_dim(), 128);
}

#[test]
fn faiss_builder_refuses_zero_dimension() {
    let builder = FaissIndexBuilder::default().description("IDMap,Flat");
    assert!(matches!(builder.check(), Err(AppError::ValidationError(_))));
    let builder = FaissIndexBuilder::default().dim(4);
    assert!(builder.check().is_err());
}

#[test]
fn test_hnsw_index_builder() {
    let builder = HnswIndexBuilder::with_parts(0u8, ())
        .max_nb_connection(16)
        .max_elements(1000)
        .max_layer(16)
        .ef_construction(10);
    assert!(builder.check().is_ok());
    let p = builder.params();
    assert_eq!(p.max_nb_connection, 16);
    assert_eq!(p.max_elements, 1000);
    assert_eq!(p.ef_construction, 10);
    let zero = HnswIndexBuilder::with_parts(0u8, ()).max_nb_connection(16);
    assert!(zero.check().is_err());
}

#[test]
fn names_and_status_codes() {
    assert_eq!(IndexType::FLAT.as_str(), "FLAT");
    assert_eq!(IndexType::USEARCH.as_str(), "USEARCH");
    assert_eq!(MetricType::InnerProduct.as_str(), "INNER_PRODUCT");
    assert_eq!(MetricType::default(), MetricType::L2);
    let k = IndexKey::new(IndexType::FLAT, 3, MetricType::L2);
    assert_eq!(AppError::ValidationError("x".to_string()).status_code(), 400);
    assert_eq!(AppError::IndexNotFound("x".to_string()).status_code(), 404);
    assert_eq!(AppError::UnsupportedIndexType(k).status_code(), 404);
    assert_eq!(AppError::InitIndexError(k, "x".to_string()).status_code(), 500);
    assert_eq!(AppError::UpsertError("x".to_string()).status_code(), 500);
    assert_eq!(AppError::UnsupportedOperation(k, "x".to_string()).status_code(), 500);
}

#[test]
fn key_codes_differ_between_keys() {
    let a = IndexKey::new(IndexType::FLAT, 3, MetricType::L2);
    let b = IndexKey::new(IndexType::FLAT, 3, MetricType::InnerProduct);
    let c = IndexKey::new(IndexType::HNSW, 3, MetricType::L2);
    assert_eq!(a.code(), 0x1_0000_0003);
    assert_ne!(a.code(), b.code());
    assert_ne!(a.code(), c.code());
}

#[test]
fn hnsw_builder_refuses_too_many_connections() {
    let builder = HnswIndexBuilder::with_parts(0u8, ())
        .max_nb_connection(257)
        .max_elements(1000)
        .max_layer(16)
        .ef_construction(200);
    assert!(matches!(builder.check(), Err(AppError::ValidationError(_))));
    let builder = builder.max_nb_connection(256);
    assert!(builder.check().is_ok());
}
