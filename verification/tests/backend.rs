//! The storage capability of the in-memory backend, and the normalization
//! of engine-specific error codes.

use swiftlink::config::DatabaseType;
use swiftlink::errors::StoreError;
use swiftlink::store::{normalize_db_error, MemStore};

#[test]
fn insert_then_point_lookups() {
    let mut store = MemStore::new();
    store.insert("Ab12Cd", "https://example.com/a", 1000).unwrap();
    assert_eq!(store.find_code_by_url("https://example.com/a").unwrap(), "Ab12Cd");
    let (url, created_at) = store.find_url_by_code("Ab12Cd").unwrap();
    assert_eq!(url, "https://example.com/a");
    assert_eq!(created_at, 1000);
}

#[test]
fn absence_is_not_an_error() {
    let store = MemStore::new();
    assert!(store.find_code_by_url("https://example.com/a").is_none());
    assert!(store.find_url_by_code("Ab12Cd").is_none());
}

#[test]
fn duplicate_code_is_the_normalized_uniqueness_signal() {
    let mut store = MemStore::new();
    store.insert("Ab12Cd", "https://example.com/a", 1000).unwrap();
    let r = store.insert("Ab12Cd", "https://example.com/b", 2000);
    assert_eq!(r.unwrap_err(), StoreError::UniqueViolation);
    assert_eq!(store.len(), 1);
}

#[test]
fn lookup_by_url_returns_the_first_row() {
    // URL uniqueness is not a storage constraint: two rows may hold the
    // same URL, and the point lookup answers with the earliest one.
    let mut store = MemStore::new();
    store.insert("first0", "https://example.com/a", 1000).unwrap();
    store.insert("second", "https://example.com/a", 2000).unwrap();
    assert_eq!(store.find_code_by_url("https://example.com/a").unwrap(), "first0");
}

#[test]
fn delete_reports_rows_affected() {
    let mut store = MemStore::new();
    store.insert("Ab12Cd", "https://example.com/a", 1000).unwrap();
    assert_eq!(store.delete_by_code("Ab12Cd"), 1);
    assert_eq!(store.delete_by_code("Ab12Cd"), 0);
    assert_eq!(store.delete_by_code("neverwas"), 0);
    assert_eq!(store.len(), 0);
}

#[test]
fn delete_leaves_other_rows_alone() {
    let mut store = MemStore::new();
    store.insert("Ab12Cd", "https://example.com/a", 1000).unwrap();
    store.insert("Ef34Gh", "https://example.com/b", 2000).unwrap();
    assert_eq!(store.delete_by_code("Ab12Cd"), 1);
    assert_eq!(store.find_code_by_url("https://example.com/b").unwrap(), "Ef34Gh");
    assert!(store.find_url_by_code("Ab12Cd").is_none());
}

#[test]
fn postgres_unique_violation_is_23505() {
    assert_eq!(
        normalize_db_error(DatabaseType::Postgres, Some("23505")),
        StoreError::UniqueViolation
    );
    assert_eq!(normalize_db_error(DatabaseType::Postgres, Some("2067")), StoreError::Other);
    assert_eq!(normalize_db_error(DatabaseType::Postgres, Some("42601")), StoreError::Other);
    assert_eq!(normalize_db_error(DatabaseType::Postgres, None), StoreError::Other);
}

#[test]
fn sqlite_unique_violation_is_2067() {
    assert_eq!(
        normalize_db_error(DatabaseType::Sqlite, Some("2067")),
        StoreError::UniqueViolation
    );
    assert_eq!(normalize_db_error(DatabaseType::Sqlite, Some("23505")), StoreError::Other);
    assert_eq!(normalize_db_error(DatabaseType::Sqlite, None), StoreError::Other);
}
