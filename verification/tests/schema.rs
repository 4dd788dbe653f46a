use explorer_harness::schema::compare_schema;

#[test]
fn identical_files_are_left_untouched() {
    let actual = b"type Query { tip: Block }".to_vec();
    let expected = actual.clone();
    let check = compare_schema(&actual, &expected);
    assert!(check.in_sync);
    assert_eq!(check.expected_after, expected);
}

#[test]
fn one_byte_of_drift_replaces_the_expected_copy() {
    let actual = b"type Query { tip: Block }".to_vec();
    let mut expected = actual.clone();
    expected[5] = b'q';
    let check = compare_schema(&actual, &expected);
    assert!(!check.in_sync);
    assert_eq!(check.expected_after, actual);

    // A second run over the replaced copy finds no discrepancy.
    let second = compare_schema(&actual, &check.expected_after);
    assert!(second.in_sync);
    assert_eq!(second.expected_after, actual);
}

#[test]
fn length_drift_is_drift() {
    let actual = b"schema".to_vec();
    let expected = b"schema ".to_vec();
    let check = compare_schema(&actual, &expected);
    assert!(!check.in_sync);
    assert_eq!(check.expected_after, actual);
}
