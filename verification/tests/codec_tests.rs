use db_schema_ver::codec::{construct_row, DecodeError};
use db_schema_ver::rows::RawRow;
use db_schema_ver::status::VerStatus;

fn full_row() -> RawRow {
    RawRow {
        id: Some(7),
        updated: Some("1970-01-01T00:00:01Z".to_string()),
        version: Some(3),
        migration_hash: Some("abc123".to_string()),
        status: Some("Success".to_string()),
        lib_ver: Some(1),
    }
}

#[test]
fn decode_full_row() {
    let entry = construct_row(&full_row()).unwrap();
    assert_eq!(entry.id, 7);
    assert_eq!(entry.updated, 1_000_000);
    assert_eq!(entry.version, 3);
    assert_eq!(entry.migration_hash, "abc123".to_string());
    assert_eq!(entry.status, VerStatus::Success);
    assert_eq!(entry.lib_ver, 1);
}

#[test]
fn decode_orders_distinct_timestamps() {
    let mut early = full_row();
    let mut late = full_row();
    early.updated = Some("2020-01-01T00:00:00Z".to_string());
    late.updated = Some("2021-01-01T00:00:00Z".to_string());
    let e = construct_row(&early).unwrap();
    let l = construct_row(&late).unwrap();
    assert!(e.updated < l.updated);
}

#[test]
fn decode_honors_timezone_offset() {
    let mut row = full_row();
    row.updated = Some("1970-01-01T01:00:00+01:00".to_string());
    let entry = construct_row(&row).unwrap();
    assert_eq!(entry.updated, 0);
}

#[test]
fn decode_missing_one_column() {
    let mut row = full_row();
    row.migration_hash = None;
    match construct_row(&row) {
        Err(DecodeError::MissingColumns(names)) => {
            assert_eq!(names, vec!["migration_hash".to_string()]);
        },
        other => panic!("expected MissingColumns, got {:?}", other),
    }
}

#[test]
fn decode_missing_several_columns_named_in_order() {
    let row = RawRow {
        id: None,
        updated: Some("1970-01-01T00:00:01Z".to_string()),
        version: None,
        migration_hash: Some("abc123".to_string()),
        status: Some("Success".to_string()),
        lib_ver: None,
    };
    match construct_row(&row) {
        Err(DecodeError::MissingColumns(names)) => {
            assert_eq!(
                names,
                vec!["id".to_string(), "version".to_string(), "lib_ver".to_string()]
            );
        },
        other => panic!("expected MissingColumns, got {:?}", other),
    }
}

#[test]
fn decode_all_columns_missing() {
    let row = RawRow {
        id: None,
        updated: None,
        version: None,
        migration_hash: None,
        status: None,
        lib_ver: None,
    };
    match construct_row(&row) {
        Err(DecodeError::MissingColumns(names)) => {
            assert_eq!(names.len(), 6);
            assert_eq!(names[0], "id".to_string());
            assert_eq!(names[5], "lib_ver".to_string());
        },
        other => panic!("expected MissingColumns, got {:?}", other),
    }
}

#[test]
fn decode_unparsable_date() {
    let mut row = full_row();
    row.updated = Some("yesterday at noon".to_string());
    assert_eq!(construct_row(&row), Err(DecodeError::DateParseFailure));
}

#[test]
fn decode_missing_columns_reported_before_bad_date() {
    let mut row = full_row();
    row.updated = Some("not a date".to_string());
    row.id = None;
    match construct_row(&row) {
        Err(DecodeError::MissingColumns(names)) => {
            assert_eq!(names, vec!["id".to_string()]);
        },
        other => panic!("expected MissingColumns, got {:?}", other),
    }
}

#[test]
fn decode_unknown_status() {
    let mut row = full_row();
    row.status = Some("pending".to_string());
    assert_eq!(construct_row(&row), Err(DecodeError::UnknownStatus));
}
