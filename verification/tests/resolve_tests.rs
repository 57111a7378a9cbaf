use db_schema_ver::ledger::{DbSchemaVer, LedgerError, ResolutionError};
use db_schema_ver::memdb::MemDb;
use db_schema_ver::rows::RawRow;

fn row(id: i64, updated: &str, version: i64) -> RawRow {
    RawRow {
        id: Some(id),
        updated: Some(updated.to_string()),
        version: Some(version),
        migration_hash: Some(format!("hash-{}", id)),
        status: Some("Success".to_string()),
        lib_ver: Some(1),
    }
}

fn three_duplicates() -> MemDb {
    let mut db = MemDb::new();
    db.push_row(row(10, "2021-01-01T00:00:10Z", 3));
    db.push_row(row(11, "2021-01-01T00:00:11Z", 3));
    db.push_row(row(12, "2021-01-01T00:00:12Z", 3));
    db
}

#[test]
fn resolution_keeps_latest_and_deletes_the_rest() {
    let mut ledger = DbSchemaVer::bootstrap(three_duplicates()).unwrap();
    let entry = ledger.by_version_num(3).unwrap();
    assert_eq!(entry.id, 12);
    assert!(!ledger.store.has_row(10));
    assert!(!ledger.store.has_row(11));
    assert!(ledger.store.has_row(12));
    assert_eq!(ledger.store.row_count(), 1);
}

#[test]
fn resolution_reports_an_audit_summary() {
    let mut ledger = DbSchemaVer::bootstrap(three_duplicates()).unwrap();
    assert_eq!(ledger.last_report, None);
    ledger.by_version_num(3).unwrap();
    assert_eq!(
        ledger.last_report,
        Some(
            "resolution succeeded: deletes=2, failedDeletes=0, restores=0, failedRestores=0"
                .to_string()
        )
    );
}

#[test]
fn failed_resolution_reports_an_audit_summary() {
    let mut db = three_duplicates();
    db.inject_delete_corruption(10, 12);
    let mut ledger = DbSchemaVer::bootstrap(db).unwrap();
    assert!(ledger.by_version_num(3).is_err());
    assert_eq!(
        ledger.last_report,
        Some(
            "resolution failed: deletes=1, failedDeletes=1, restores=3, failedRestores=0"
                .to_string()
        )
    );
}

#[test]
fn resolution_then_query_returns_exactly_one_record() {
    let mut ledger = DbSchemaVer::bootstrap(three_duplicates()).unwrap();
    let first = ledger.by_version_num(3).unwrap();
    assert_eq!(first.id, 12);
    let second = ledger.by_version_num(3).unwrap();
    assert_eq!(second.id, 12);
    assert_eq!(ledger.store.row_count(), 1);
}

#[test]
fn resolution_is_idempotent_with_zero_further_deletions() {
    let mut ledger = DbSchemaVer::bootstrap(three_duplicates()).unwrap();
    let (first, counters) = ledger.resolve_dup_ver_rows(3).unwrap();
    assert_eq!(first.id, Some(12));
    assert_eq!(counters.deletes, 2);
    let (again, counters) = ledger.resolve_dup_ver_rows(3).unwrap();
    assert_eq!(again.id, Some(12));
    assert_eq!(counters.deletes, 0);
    assert_eq!(counters.failed_deletes, 0);
    assert_eq!(counters.restores, 0);
    assert_eq!(counters.failed_restores, 0);
}

#[test]
fn resolution_counts_successful_deletes() {
    let mut ledger = DbSchemaVer::bootstrap(three_duplicates()).unwrap();
    let (entry, counters) = ledger.resolve_dup_ver_rows(3).unwrap();
    assert_eq!(entry.id, Some(12));
    assert_eq!(counters.deletes, 2);
    assert_eq!(counters.failed_deletes, 0);
    assert_eq!(counters.restores, 0);
    assert_eq!(counters.failed_restores, 0);
}

#[test]
fn resolution_tie_on_updated_prefers_highest_id() {
    let mut db = MemDb::new();
    db.push_row(row(21, "2021-01-01T00:00:10Z", 4));
    db.push_row(row(23, "2021-01-01T00:00:10Z", 4));
    db.push_row(row(22, "2021-01-01T00:00:10Z", 4));
    let mut ledger = DbSchemaVer::bootstrap(db).unwrap();
    let entry = ledger.by_version_num(4).unwrap();
    assert_eq!(entry.id, 23);
    assert!(ledger.store.has_row(23));
    assert!(!ledger.store.has_row(21));
    assert!(!ledger.store.has_row(22));
}

#[test]
fn resolution_tolerates_one_failed_delete() {
    let mut db = three_duplicates();
    db.inject_delete_failure(10);
    let mut ledger = DbSchemaVer::bootstrap(db).unwrap();
    let (entry, counters) = ledger.resolve_dup_ver_rows(3).unwrap();
    assert_eq!(entry.id, Some(12));
    assert_eq!(counters.deletes, 1);
    assert_eq!(counters.failed_deletes, 1);
    assert!(ledger.store.has_row(10));
    assert!(!ledger.store.has_row(11));
    assert!(ledger.store.has_row(12));
}

#[test]
fn resolution_restores_when_canonical_row_is_lost() {
    let mut db = three_duplicates();
    db.inject_delete_corruption(10, 12);
    let mut ledger = DbSchemaVer::bootstrap(db).unwrap();
    match ledger.resolve_dup_ver_rows(3) {
        Err((ResolutionError::DisappearingVersionRow, counters)) => {
            assert_eq!(counters.restores, 3);
            assert_eq!(counters.failed_restores, 0);
        },
        other => panic!("expected DisappearingVersionRow, got {:?}", other),
    }
    assert!(ledger.store.has_row(10));
    assert!(ledger.store.has_row(11));
    assert!(ledger.store.has_row(12));
}

#[test]
fn resolution_fails_regardless_of_restore_outcome() {
    let mut db = three_duplicates();
    db.inject_delete_corruption(10, 12);
    db.inject_upsert_failure(11);
    let mut ledger = DbSchemaVer::bootstrap(db).unwrap();
    match ledger.resolve_dup_ver_rows(3) {
        Err((ResolutionError::DisappearingVersionRow, counters)) => {
            assert_eq!(counters.restores, 2);
            assert_eq!(counters.failed_restores, 1);
        },
        other => panic!("expected DisappearingVersionRow, got {:?}", other),
    }
}

#[test]
fn resolution_without_rows_reports_no_duplicates() {
    let db = MemDb::new();
    let mut ledger = DbSchemaVer::bootstrap(db).unwrap();
    match ledger.resolve_dup_ver_rows(3) {
        Err((ResolutionError::NoDuplicateRows, counters)) => {
            assert_eq!(counters.deletes, 0);
        },
        other => panic!("expected NoDuplicateRows, got {:?}", other),
    }
}

#[test]
fn resolution_with_single_row_returns_it_untouched() {
    let mut db = MemDb::new();
    db.push_row(row(5, "2021-01-01T00:00:05Z", 7));
    let mut ledger = DbSchemaVer::bootstrap(db).unwrap();
    let (entry, counters) = ledger.resolve_dup_ver_rows(7).unwrap();
    assert_eq!(entry.id, Some(5));
    assert_eq!(counters.deletes, 0);
    assert_eq!(ledger.store.row_count(), 1);
}

#[test]
fn resolution_scan_failure() {
    let mut db = three_duplicates();
    db.inject_fetch_failure();
    let mut ledger = DbSchemaVer::bootstrap(db).unwrap();
    match ledger.resolve_dup_ver_rows(3) {
        Err((ResolutionError::QueryFailed, counters)) => {
            assert_eq!(counters.deletes, 0);
        },
        other => panic!("expected QueryFailed, got {:?}", other),
    }
}

#[test]
fn resolution_aborts_before_deleting_on_bad_timestamp() {
    let mut db = MemDb::new();
    db.push_row(row(10, "2021-01-01T00:00:10Z", 3));
    db.push_row(row(11, "not a timestamp", 3));
    db.push_row(row(12, "2021-01-01T00:00:12Z", 3));
    let mut ledger = DbSchemaVer::bootstrap(db).unwrap();
    match ledger.by_version_num(3) {
        Err(LedgerError::DuplicateResolutionFailed(ResolutionError::DateParseFailure)) => {},
        other => panic!("expected DateParseFailure, got {:?}", other),
    }
    assert!(ledger.store.has_row(10));
    assert!(ledger.store.has_row(11));
    assert!(ledger.store.has_row(12));
}

#[test]
fn resolution_leaves_other_versions_alone() {
    let mut db = three_duplicates();
    db.push_row(row(30, "2021-02-01T00:00:00Z", 8));
    let mut ledger = DbSchemaVer::bootstrap(db).unwrap();
    let entry = ledger.by_version_num(3).unwrap();
    assert_eq!(entry.id, 12);
    assert!(ledger.store.has_row(30));
    assert_eq!(ledger.store.row_count(), 2);
}
