use db_schema_ver::status::VerStatus;

#[test]
fn status_ongoing_mixed_case() {
    assert_eq!(VerStatus::from_string("Ongoing".to_string()), Some(VerStatus::Ongoing));
}

#[test]
fn status_ongoing_upper_case() {
    assert_eq!(VerStatus::from_string("ONGOING".to_string()), Some(VerStatus::Ongoing));
}

#[test]
fn status_fail_lower_case() {
    assert_eq!(VerStatus::from_string("fail".to_string()), Some(VerStatus::Fail));
}

#[test]
fn status_success_title_case() {
    assert_eq!(VerStatus::from_string("Success".to_string()), Some(VerStatus::Success));
}

#[test]
fn status_unknown_text_is_rejected() {
    assert_eq!(VerStatus::from_string("pending".to_string()), None);
}

#[test]
fn status_empty_text_is_rejected() {
    assert_eq!(VerStatus::from_string(String::new()), None);
}
