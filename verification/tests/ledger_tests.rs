use db_schema_ver::ledger::{BootstrapError, DbSchemaVer, LedgerError};
use db_schema_ver::codec::DecodeError;
use db_schema_ver::memdb::MemDb;
use db_schema_ver::rows::RawRow;

fn row(id: i64, updated: &str, version: i64) -> RawRow {
    RawRow {
        id: Some(id),
        updated: Some(updated.to_string()),
        version: Some(version),
        migration_hash: Some(format!("hash-{}", id)),
        status: Some("Success".to_string()),
        lib_ver: Some(1),
    }
}

#[test]
fn bootstrap_creates_schema_objects() {
    let db = MemDb::new();
    assert!(!db.status_type_exists());
    assert!(!db.table_exists());
    let ledger = DbSchemaVer::bootstrap(db).unwrap();
    assert!(ledger.store.status_type_exists());
    assert!(ledger.store.table_exists());
}

#[test]
fn bootstrap_twice_is_idempotent() {
    let db = MemDb::new();
    let first = DbSchemaVer::bootstrap(db).unwrap();
    assert_eq!(first.store.row_count(), 0);
    let second = DbSchemaVer::bootstrap(first.store).unwrap();
    assert!(second.store.status_type_exists());
    assert!(second.store.table_exists());
    assert_eq!(second.store.row_count(), 0);
}

#[test]
fn bootstrap_db_name_failure() {
    let mut db = MemDb::new();
    db.inject_db_name_failure();
    match DbSchemaVer::bootstrap(db) {
        Err((BootstrapError::GetDbNameFailed, s)) => {
            assert!(!s.status_type_exists());
            assert!(!s.table_exists());
        },
        _ => panic!("expected GetDbNameFailed"),
    }
}

#[test]
fn bootstrap_type_create_failure() {
    let mut db = MemDb::new();
    db.inject_create_status_type_failure();
    match DbSchemaVer::bootstrap(db) {
        Err((BootstrapError::TypeCreateFailed, s)) => {
            assert!(!s.status_type_exists());
            assert!(!s.table_exists());
        },
        _ => panic!("expected TypeCreateFailed"),
    }
}

#[test]
fn bootstrap_table_create_failure() {
    let mut db = MemDb::new();
    db.inject_create_table_failure();
    match DbSchemaVer::bootstrap(db) {
        Err((BootstrapError::TableCreateFailed, s)) => {
            assert!(s.status_type_exists());
            assert!(!s.table_exists());
        },
        _ => panic!("expected TableCreateFailed"),
    }
}

#[test]
fn append_entry_then_query() {
    let db = MemDb::new();
    let mut ledger = DbSchemaVer::bootstrap(db).unwrap();
    ledger.append_entry(&row(1, "2020-01-01T00:00:00Z", 1)).unwrap();
    ledger.append_entry(&row(2, "2021-06-15T12:00:00Z", 2)).unwrap();
    assert_eq!(ledger.store.row_count(), 2);
    let entry = ledger.current_version().unwrap();
    assert_eq!(entry.id, 2);
}

#[test]
fn append_entry_refreshes_in_place() {
    let db = MemDb::new();
    let mut ledger = DbSchemaVer::bootstrap(db).unwrap();
    ledger.append_entry(&row(1, "2020-01-01T00:00:00Z", 1)).unwrap();
    let mut refreshed = row(1, "2022-01-01T00:00:00Z", 1);
    refreshed.status = Some("Ongoing".to_string());
    ledger.append_entry(&refreshed).unwrap();
    assert_eq!(ledger.store.row_count(), 1);
    let entry = ledger.by_version_num(1).unwrap();
    assert_eq!(entry.updated, 1640995200000000);
}

#[test]
fn current_version_picks_latest() {
    let mut db = MemDb::new();
    db.push_row(row(1, "2020-01-01T00:00:00Z", 1));
    db.push_row(row(2, "2021-06-15T12:00:00Z", 2));
    let mut ledger = DbSchemaVer::bootstrap(db).unwrap();
    let entry = ledger.current_version().unwrap();
    assert_eq!(entry.version, 2);
    assert_eq!(entry.id, 2);
}

#[test]
fn current_version_over_no_rows_is_incorrect_row_count() {
    let db = MemDb::new();
    let mut ledger = DbSchemaVer::bootstrap(db).unwrap();
    assert_eq!(ledger.current_version(), Err(LedgerError::IncorrectRowCount));
}

#[test]
fn current_version_tie_is_incorrect_row_count() {
    let mut db = MemDb::new();
    db.push_row(row(1, "2021-06-15T12:00:00Z", 1));
    db.push_row(row(2, "2021-06-15T12:00:00Z", 2));
    let mut ledger = DbSchemaVer::bootstrap(db).unwrap();
    assert_eq!(ledger.current_version(), Err(LedgerError::IncorrectRowCount));
}

#[test]
fn current_version_unparsable_date_is_row_decode() {
    let mut db = MemDb::new();
    db.push_row(row(1, "2021-06-15T12:00:00Z", 1));
    db.push_row(row(2, "three days ago", 2));
    let mut ledger = DbSchemaVer::bootstrap(db).unwrap();
    assert_eq!(
        ledger.current_version(),
        Err(LedgerError::RowDecode(DecodeError::DateParseFailure))
    );
}

#[test]
fn current_version_query_failure() {
    let mut db = MemDb::new();
    db.push_row(row(1, "2021-06-15T12:00:00Z", 1));
    let mut ledger = DbSchemaVer::bootstrap(db).unwrap();
    ledger.store.inject_fetch_failure();
    assert_eq!(ledger.current_version(), Err(LedgerError::QueryError));
}

#[test]
fn by_version_num_not_found() {
    let mut db = MemDb::new();
    db.push_row(row(1, "2021-06-15T12:00:00Z", 1));
    let mut ledger = DbSchemaVer::bootstrap(db).unwrap();
    assert_eq!(ledger.by_version_num(9), Err(LedgerError::NotFound));
}

#[test]
fn by_version_num_single_row() {
    let mut db = MemDb::new();
    db.push_row(row(1, "2021-06-15T12:00:00Z", 1));
    db.push_row(row(2, "2021-07-15T12:00:00Z", 2));
    let mut ledger = DbSchemaVer::bootstrap(db).unwrap();
    let entry = ledger.by_version_num(1).unwrap();
    assert_eq!(entry.id, 1);
    assert_eq!(entry.version, 1);
    assert_eq!(ledger.store.row_count(), 2);
}

#[test]
fn by_version_num_single_row_decode_failure() {
    let mut db = MemDb::new();
    let mut bad = row(1, "2021-06-15T12:00:00Z", 1);
    bad.status = Some("pending".to_string());
    db.push_row(bad);
    let mut ledger = DbSchemaVer::bootstrap(db).unwrap();
    assert_eq!(
        ledger.by_version_num(1),
        Err(LedgerError::RowDecode(DecodeError::UnknownStatus))
    );
}

#[test]
fn by_version_num_query_failure() {
    let mut db = MemDb::new();
    db.push_row(row(1, "2021-06-15T12:00:00Z", 1));
    let mut ledger = DbSchemaVer::bootstrap(db).unwrap();
    ledger.store.inject_fetch_failure();
    assert_eq!(ledger.by_version_num(1), Err(LedgerError::QueryError));
}
