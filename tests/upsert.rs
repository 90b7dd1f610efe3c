use vectordb::error::AppError;
use vectordb::key::{IndexKey, IndexType, MetricType};
use vectordb::registry::{BuildPlan, IndexFactory};
use vectordb::upsert::{Upsert, UpsertAction, UpsertEvent, UpsertPhase};

fn flat3() -> IndexKey {
    IndexKey { index_type: IndexType::FLAT, dim: 3, metric_type: MetricType::L2 }
}

fn registry_with(key: IndexKey) -> IndexFactory<()> {
    let mut factory = IndexFactory::new();
    factory.init(key, 1000, |_: BuildPlan| Ok(())).unwrap();
    factory
}

/// Runs an upsert, answering each action from the given events in turn, and
/// returns the actions taken.
fn run(registry: &IndexFactory<()>, id: u64, key: IndexKey, events: Vec<UpsertEvent>) -> Vec<UpsertAction> {
    let (mut state, action) = Upsert::start(registry, id, key);
    let mut actions = vec![action];
    for e in events {
        let (next, action) = state.step(e);
        state = next;
        actions.push(action);
    }
    actions
}

#[test]
fn upsert_into_missing_index_fails() {
    let registry: IndexFactory<()> = IndexFactory::new();
    let (state, action) = Upsert::start(&registry, 1, flat3());
    assert_eq!(state.phase, UpsertPhase::Finished);
    assert!(matches!(action, UpsertAction::Finish(Err(AppError::IndexNotFound(_)))));
}

#[test]
fn first_upsert_inserts_then_persists() {
    let registry = registry_with(flat3());
    let actions = run(
        &registry,
        1,
        flat3(),
        vec![
            UpsertEvent::Stored(false),
            UpsertEvent::VectorRead(Some(3)),
            UpsertEvent::Inserted(Ok(())),
            UpsertEvent::Persisted(Ok(())),
        ],
    );
    assert_eq!(
        actions,
        vec![
            UpsertAction::LoadStored,
            UpsertAction::ReadVector,
            UpsertAction::InsertVector,
            UpsertAction::PersistMetadata,
            UpsertAction::Finish(Ok(())),
        ]
    );
}

#[test]
fn second_upsert_removes_stale_vector_first() {
    let registry = registry_with(flat3());
    let actions = run(
        &registry,
        1,
        flat3(),
        vec![
            UpsertEvent::Stored(true),
            UpsertEvent::VectorRead(Some(3)),
            UpsertEvent::Removed(Ok(())),
            UpsertEvent::Inserted(Ok(())),
            UpsertEvent::Persisted(Ok(())),
        ],
    );
    assert_eq!(
        actions,
        vec![
            UpsertAction::LoadStored,
            UpsertAction::ReadVector,
            UpsertAction::RemoveVector,
            UpsertAction::InsertVector,
            UpsertAction::PersistMetadata,
            UpsertAction::Finish(Ok(())),
        ]
    );
}

#[test]
fn replacing_in_a_graph_index_is_unsupported() {
    let key = IndexKey { index_type: IndexType::HNSW, dim: 3, metric_type: MetricType::L2 };
    let registry = registry_with(key);
    let actions = run(&registry, 1, key, vec![UpsertEvent::Stored(true)]);
    assert!(matches!(
        &actions[1],
        UpsertAction::Finish(Err(AppError::UnsupportedOperation(k, _))) if *k == key
    ));
}

#[test]
fn failed_insert_writes_no_metadata() {
    let registry = registry_with(flat3());
    let actions = run(
        &registry,
        1,
        flat3(),
        vec![
            UpsertEvent::Stored(false),
            UpsertEvent::VectorRead(Some(3)),
            UpsertEvent::Inserted(Err("full".to_string())),
        ],
    );
    assert_eq!(actions[3], UpsertAction::Finish(Err(AppError::FaissError("full".to_string()))));
    assert!(!actions.contains(&UpsertAction::PersistMetadata));
}

#[test]
fn document_without_vectors_is_rejected() {
    let registry = registry_with(flat3());
    let actions = run(&registry, 1, flat3(), vec![UpsertEvent::Stored(false), UpsertEvent::VectorRead(None)]);
    assert!(matches!(actions[2], UpsertAction::Finish(Err(AppError::ValidationError(_)))));
}

#[test]
fn vector_of_wrong_length_is_rejected() {
    let registry = registry_with(flat3());
    let actions = run(&registry, 1, flat3(), vec![UpsertEvent::Stored(false), UpsertEvent::VectorRead(Some(4))]);
    assert!(matches!(actions[2], UpsertAction::Finish(Err(AppError::ValidationError(_)))));
}

#[test]
fn failed_removal_is_a_backend_error() {
    let key = IndexKey { index_type: IndexType::USEARCH, dim: 3, metric_type: MetricType::L2 };
    let registry = registry_with(key);
    let actions = run(
        &registry,
        1,
        key,
        vec![
            UpsertEvent::Stored(true),
            UpsertEvent::VectorRead(Some(3)),
            UpsertEvent::Removed(Err("gone".to_string())),
        ],
    );
    assert_eq!(actions[3], UpsertAction::Finish(Err(AppError::UsearchError("gone".to_string()))));
}

#[test]
fn failed_write_is_an_upsert_error() {
    let registry = registry_with(flat3());
    let actions = run(
        &registry,
        1,
        flat3(),
        vec![
            UpsertEvent::Stored(false),
            UpsertEvent::VectorRead(Some(3)),
            UpsertEvent::Inserted(Ok(())),
            UpsertEvent::Persisted(Err("disk".to_string())),
        ],
    );
    assert_eq!(actions[4], UpsertAction::Finish(Err(AppError::UpsertError("disk".to_string()))));
}

#[test]
fn event_out_of_order_ends_the_upsert() {
    let registry = registry_with(flat3());
    let actions = run(&registry, 1, flat3(), vec![UpsertEvent::Persisted(Ok(()))]);
    assert!(matches!(actions[1], UpsertAction::Finish(Err(AppError::UpsertError(_)))));
}

#[test]
fn flat_l2_scenario_registers_and_upserts() {
    let key = flat3();
    let mut factory: IndexFactory<u32> = IndexFactory::new();
    factory
        .init(key, 0, |plan| match plan {
            BuildPlan::Faiss { dim, description, metric } => {
                assert_eq!(description, "IDMap,Flat");
                assert_eq!(metric, MetricType::L2);
                Ok(dim)
            }
            _ => Err("wrong backend".to_string()),
        })
        .unwrap();
    assert_eq!(factory.get_index(key).unwrap().downcast_ref(IndexType::FLAT), Some(&3));

    let (mut state, action) = Upsert::start(&factory, 1, key);
    assert_eq!(action, UpsertAction::LoadStored);
    let mut actions = Vec::new();
    for e in [
        UpsertEvent::Stored(false),
        UpsertEvent::VectorRead(Some(3)),
        UpsertEvent::Inserted(Ok(())),
        UpsertEvent::Persisted(Ok(())),
    ] {
        let (next, action) = state.step(e);
        state = next;
        actions.push(action);
    }
    assert_eq!(actions.last(), Some(&UpsertAction::Finish(Ok(()))));
    assert_eq!(state.phase, UpsertPhase::Finished);
    assert_eq!(state.id, 1);
}

#[test]
fn malformed_replacement_keeps_the_stale_vector() {
    let registry = registry_with(flat3());
    for read in [UpsertEvent::VectorRead(None), UpsertEvent::VectorRead(Some(2))] {
        let actions = run(&registry, 1, flat3(), vec![UpsertEvent::Stored(true), read]);
        assert!(matches!(actions[2], UpsertAction::Finish(Err(AppError::ValidationError(_)))));
        assert!(!actions.contains(&UpsertAction::RemoveVector));
    }
}
