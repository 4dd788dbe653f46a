use explorer_harness::supervisor::{diagnostic_file, HandleGroup};

fn count_teardowns(results: &[Option<explorer_harness::supervisor::Teardown>]) -> usize {
    results.iter().filter(|r| r.is_some()).count()
}

#[test]
fn teardown_exactly_once_releases_in_launch_order() {
    let mut group = HandleGroup::launch(None);
    group.clone_handle();
    group.clone_handle();
    group.clone_handle();
    assert_eq!(group.handles, 4);
    let mut results = Vec::new();
    for _ in 0..4 {
        results.push(group.release_handle(false));
    }
    assert_eq!(count_teardowns(&results), 1);
    assert!(results[0].is_none());
    assert!(results[3].is_some());
    assert!(group.torn_down);
    assert_eq!(group.handles, 0);
}

#[test]
fn teardown_exactly_once_interleaved_clones_and_releases() {
    let mut group = HandleGroup::launch(Some("logs".to_string()));
    let mut results = Vec::new();
    group.clone_handle();
    results.push(group.release_handle(false));
    group.clone_handle();
    group.clone_handle();
    results.push(group.release_handle(false));
    results.push(group.release_handle(false));
    results.push(group.release_handle(false));
    assert_eq!(count_teardowns(&results), 1);
    assert!(results[3].is_some());
    assert!(group.torn_down);
}

#[test]
fn no_teardown_while_a_handle_is_alive() {
    let mut group = HandleGroup::launch(None);
    group.clone_handle();
    let first = group.release_handle(true);
    assert!(first.is_none());
    assert!(!group.torn_down);
    assert_eq!(group.handles, 1);
}

#[test]
fn diagnostics_written_iff_failing_with_directory() {
    // Failing release of the last handle, directory configured: persist there.
    let mut group = HandleGroup::launch(Some("diag".to_string()));
    let teardown = group.release_handle(true).expect("last release tears down");
    assert_eq!(teardown.persist_dir, Some("diag".to_string()));
    assert_eq!(
        diagnostic_file(teardown.persist_dir.as_ref().unwrap()),
        "diag/explorer.log"
    );

    // Failing release, no directory configured: nothing persisted.
    let mut group = HandleGroup::launch(None);
    let teardown = group.release_handle(true).expect("last release tears down");
    assert_eq!(teardown.persist_dir, None);

    // Calm release, directory configured: nothing persisted.
    let mut group = HandleGroup::launch(Some("diag".to_string()));
    let teardown = group.release_handle(false).expect("last release tears down");
    assert_eq!(teardown.persist_dir, None);
}

#[test]
fn failing_scope_without_directory_writes_nothing() {
    // Launch with no diagnostics directory, simulate a failure during the
    // scope, release every clone: the process is torn down exactly once and
    // no diagnostic file is requested.
    let mut group = HandleGroup::launch(None);
    group.clone_handle();
    group.clone_handle();
    let mut results = Vec::new();
    results.push(group.release_handle(true));
    results.push(group.release_handle(true));
    results.push(group.release_handle(true));
    assert_eq!(count_teardowns(&results), 1);
    let teardown = results[2].as_ref().expect("last release tears down");
    assert_eq!(teardown.persist_dir, None);
    assert!(group.torn_down);
    assert_eq!(group.handles, 0);
}
