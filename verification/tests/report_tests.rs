use db_schema_ver::report::{u64_to_string, Counters};

#[test]
fn render_zero() {
    assert_eq!(u64_to_string(0), "0".to_string());
}

#[test]
fn render_small_number() {
    assert_eq!(u64_to_string(42), "42".to_string());
}

#[test]
fn render_large_number() {
    assert_eq!(u64_to_string(1234567890), "1234567890".to_string());
}

#[test]
fn render_max_u64() {
    assert_eq!(u64_to_string(u64::MAX), "18446744073709551615".to_string());
}

#[test]
fn summary_of_success() {
    let c = Counters { deletes: 2, failed_deletes: 0, restores: 0, failed_restores: 0 };
    assert_eq!(
        c.summary(true),
        "resolution succeeded: deletes=2, failedDeletes=0, restores=0, failedRestores=0"
            .to_string()
    );
}

#[test]
fn summary_of_failure() {
    let c = Counters { deletes: 1, failed_deletes: 1, restores: 3, failed_restores: 10 };
    assert_eq!(
        c.summary(false),
        "resolution failed: deletes=1, failedDeletes=1, restores=3, failedRestores=10".to_string()
    );
}
