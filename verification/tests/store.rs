use vector_query::errors::StoreError;
use vector_query::model::{DistanceMetric, EmbeddingVector, PayloadEntry, PayloadFilter};
use vector_query::store::{MemoryStore, StoredPoint};

fn point(id: &str, vector: Vec<i64>, score: i64) -> StoredPoint {
    StoredPoint {
        point_id: id.to_string(),
        vector,
        score,
        payload: Vec::new(),
    }
}

fn entry(field: &str, value: &str) -> PayloadEntry {
    PayloadEntry {
        field: field.to_string(),
        value: value.to_string(),
    }
}

#[test]
fn create_collection_succeeds() {
    let mut store = MemoryStore::new();
    let r = store.create_collection("docs".to_string(), 3, DistanceMetric::Cosine);
    assert_eq!(r, Ok(()));
}

#[test]
fn create_twice_surfaces_conflict() {
    let mut store = MemoryStore::new();
    assert_eq!(
        store.create_collection("docs".to_string(), 3, DistanceMetric::Cosine),
        Ok(())
    );
    assert_eq!(
        store.create_collection("docs".to_string(), 3, DistanceMetric::Cosine),
        Err(StoreError::AlreadyExists)
    );
}

#[test]
fn delete_never_created_is_not_found() {
    let mut store = MemoryStore::new();
    assert_eq!(
        store.delete_collection(&"ghost".to_string()),
        Err(StoreError::NotFound)
    );
}

#[test]
fn delete_after_delete_is_not_found() {
    let mut store = MemoryStore::new();
    assert_eq!(
        store.create_collection("docs".to_string(), 3, DistanceMetric::Cosine),
        Ok(())
    );
    assert_eq!(store.delete_collection(&"docs".to_string()), Ok(()));
    assert_eq!(
        store.delete_collection(&"docs".to_string()),
        Err(StoreError::NotFound)
    );
}

#[test]
fn insert_point_into_absent_collection_is_not_found() {
    let mut store = MemoryStore::new();
    assert_eq!(
        store.insert_point(&"ghost".to_string(), point("p", vec![1, 2], 5)),
        Err(StoreError::NotFound)
    );
}

#[test]
fn insert_point_of_wrong_dimension_is_rejected() {
    let mut store = MemoryStore::new();
    assert_eq!(
        store.create_collection("docs".to_string(), 2, DistanceMetric::Dot),
        Ok(())
    );
    assert_eq!(
        store.insert_point(&"docs".to_string(), point("p", vec![1, 2, 3], 5)),
        Err(StoreError::DimensionMismatch)
    );
}

#[test]
fn search_absent_collection_is_not_found() {
    let store = MemoryStore::new();
    let query = EmbeddingVector::new(vec![1, 2]);
    assert_eq!(
        store.search(&"ghost".to_string(), &query, 10, None),
        Err(StoreError::NotFound)
    );
}

#[test]
fn search_of_wrong_dimension_is_mismatch_not_truncation() {
    let mut store = MemoryStore::new();
    assert_eq!(
        store.create_collection("docs".to_string(), 2, DistanceMetric::Euclidean),
        Ok(())
    );
    let query = EmbeddingVector::new(vec![1, 2, 3]);
    assert_eq!(
        store.search(&"docs".to_string(), &query, 10, None),
        Err(StoreError::DimensionMismatch)
    );
}

#[test]
fn search_empty_collection_returns_no_results() {
    let mut store = MemoryStore::new();
    assert_eq!(
        store.create_collection("docs".to_string(), 2, DistanceMetric::Cosine),
        Ok(())
    );
    let query = EmbeddingVector::new(vec![1, 2]);
    let results = store.search(&"docs".to_string(), &query, 10, None).unwrap();
    assert!(results.is_empty());
}

#[test]
fn search_ranks_by_non_increasing_score_and_truncates() {
    let mut store = MemoryStore::new();
    assert_eq!(
        store.create_collection("docs".to_string(), 2, DistanceMetric::Cosine),
        Ok(())
    );
    let name = "docs".to_string();
    assert_eq!(store.insert_point(&name, point("low", vec![1, 0], 300_000)), Ok(()));
    assert_eq!(store.insert_point(&name, point("top", vec![0, 1], 900_000)), Ok(()));
    assert_eq!(store.insert_point(&name, point("mid", vec![1, 1], 700_000)), Ok(()));
    assert_eq!(store.insert_point(&name, point("least", vec![2, 1], 100_000)), Ok(()));

    let query = EmbeddingVector::new(vec![1, 2]);
    let results = store.search(&name, &query, 3, None).unwrap();
    assert_eq!(results.len(), 3);
    let scores: Vec<i64> = results.iter().map(|r| r.score).collect();
    assert_eq!(scores, vec![900_000, 700_000, 300_000]);
    let ids: Vec<&str> = results.iter().map(|r| r.point_id.as_str()).collect();
    assert_eq!(ids, vec!["top", "mid", "low"]);
}

#[test]
fn search_keeps_equal_scores_together() {
    let mut store = MemoryStore::new();
    assert_eq!(
        store.create_collection("docs".to_string(), 1, DistanceMetric::Cosine),
        Ok(())
    );
    let name = "docs".to_string();
    assert_eq!(store.insert_point(&name, point("a", vec![1], 500_000)), Ok(()));
    assert_eq!(store.insert_point(&name, point("b", vec![2], 500_000)), Ok(()));
    assert_eq!(store.insert_point(&name, point("c", vec![3], 200_000)), Ok(()));

    let query = EmbeddingVector::new(vec![7]);
    let results = store.search(&name, &query, 2, None).unwrap();
    assert_eq!(results.len(), 2);
    assert_eq!(results[0].score, 500_000);
    assert_eq!(results[1].score, 500_000);
    let mut ids: Vec<&str> = results.iter().map(|r| r.point_id.as_str()).collect();
    ids.sort();
    assert_eq!(ids, vec!["a", "b"]);
}

#[test]
fn search_with_zero_top_k_returns_nothing() {
    let mut store = MemoryStore::new();
    assert_eq!(
        store.create_collection("docs".to_string(), 1, DistanceMetric::Cosine),
        Ok(())
    );
    let name = "docs".to_string();
    assert_eq!(store.insert_point(&name, point("a", vec![1], 500_000)), Ok(()));
    let query = EmbeddingVector::new(vec![7]);
    let results = store.search(&name, &query, 0, None).unwrap();
    assert!(results.is_empty());
}

#[test]
fn search_returns_payloads_unchanged() {
    let mut store = MemoryStore::new();
    assert_eq!(
        store.create_collection("docs".to_string(), 1, DistanceMetric::Cosine),
        Ok(())
    );
    let name = "docs".to_string();
    let p = StoredPoint {
        point_id: "a".to_string(),
        vector: vec![1],
        score: 500_000,
        payload: vec![entry("text", "refund policy text")],
    };
    assert_eq!(store.insert_point(&name, p), Ok(()));
    let query = EmbeddingVector::new(vec![7]);
    let results = store.search(&name, &query, 10, None).unwrap();
    assert_eq!(results.len(), 1);
    assert_eq!(results[0].payload, vec![entry("text", "refund policy text")]);
}

#[test]
fn search_filter_restricts_candidates_before_ranking() {
    let mut store = MemoryStore::new();
    assert_eq!(
        store.create_collection("docs".to_string(), 1, DistanceMetric::Cosine),
        Ok(())
    );
    let name = "docs".to_string();
    let mut a = point("a", vec![1], 900_000);
    a.payload = vec![entry("lang", "en")];
    let mut b = point("b", vec![2], 800_000);
    b.payload = vec![entry("lang", "de")];
    let mut c = point("c", vec![3], 500_000);
    c.payload = vec![entry("lang", "en"), entry("kind", "faq")];
    assert_eq!(store.insert_point(&name, a), Ok(()));
    assert_eq!(store.insert_point(&name, b), Ok(()));
    assert_eq!(store.insert_point(&name, c), Ok(()));

    let query = EmbeddingVector::new(vec![7]);
    let filter = PayloadFilter {
        field: "lang".to_string(),
        value: "en".to_string(),
    };
    let results = store.search(&name, &query, 10, Some(&filter)).unwrap();
    let ids: Vec<&str> = results.iter().map(|r| r.point_id.as_str()).collect();
    assert_eq!(ids, vec!["a", "c"]);
}

#[test]
fn search_filter_without_matches_returns_nothing() {
    let mut store = MemoryStore::new();
    assert_eq!(
        store.create_collection("docs".to_string(), 1, DistanceMetric::Cosine),
        Ok(())
    );
    let name = "docs".to_string();
    let mut a = point("a", vec![1], 900_000);
    a.payload = vec![entry("lang", "en")];
    assert_eq!(store.insert_point(&name, a), Ok(()));

    let query = EmbeddingVector::new(vec![7]);
    let filter = PayloadFilter {
        field: "lang".to_string(),
        value: "fr".to_string(),
    };
    let results = store.search(&name, &query, 10, Some(&filter)).unwrap();
    assert!(results.is_empty());
}
