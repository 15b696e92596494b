use rldyour_cleaner::clean::{
    is_busy_error, is_pending_dir, pending_name, reap_step, removal_failed, rename_refused, ExecuteError, ReapStep,
};

#[test]
fn pending_names_round_trip() {
    let n = pending_name(4242, 7, Some("target"));
    assert_eq!(n, ".rldyour-cleaner-pending-4242-target-7");
    assert!(is_pending_dir(Some(&n)));
    assert_eq!(pending_name(1, 0, None), ".rldyour-cleaner-pending-1-dir-0");
    assert!(!is_pending_dir(Some("target")));
    assert!(!is_pending_dir(None));
}

#[test]
fn reaper_decisions() {
    assert_eq!(reap_step(0, true, ".rldyour-cleaner-pending-1-x-0", true), ReapStep::Continue);
    assert_eq!(reap_step(2, true, ".rldyour-cleaner-pending-1-x-0", true), ReapStep::Reap);
    assert_eq!(reap_step(2, true, "node_modules", true), ReapStep::Prune);
    assert_eq!(reap_step(2, true, "target", true), ReapStep::Continue);
    assert_eq!(reap_step(2, true, ".dart_tool", true), ReapStep::Continue);
    assert_eq!(reap_step(2, false, "node_modules", true), ReapStep::Continue);
    // Another filesystem below the root is never entered, pending or not.
    assert_eq!(reap_step(1, true, "mnt", false), ReapStep::Prune);
    assert_eq!(reap_step(3, true, ".rldyour-cleaner-pending-1-x-0", false), ReapStep::Prune);
    assert_eq!(reap_step(0, true, "root", false), ReapStep::Continue);
}

#[test]
fn busy_errors_only_on_windows() {
    assert!(is_busy_error(true, Some(32)));
    assert!(is_busy_error(true, Some(5)));
    assert!(is_busy_error(true, Some(33)));
    assert!(!is_busy_error(true, Some(2)));
    assert!(!is_busy_error(false, Some(32)));
    match rename_refused(true, Some(32), "sharing violation") {
        ExecuteError::Busy(m) => assert_eq!(m, "the OS refuses the rename: sharing violation"),
        ExecuteError::Failed(_) => panic!("expected busy"),
    }
    match rename_refused(false, Some(32), "x") {
        ExecuteError::Failed(m) => assert_eq!(m, "rename failed: x"),
        ExecuteError::Busy(_) => panic!("expected failure"),
    }
    match removal_failed("io") {
        ExecuteError::Failed(m) => assert_eq!(m, "partially removed (io); pending dir left for next run"),
        ExecuteError::Busy(_) => panic!("expected failure"),
    }
}
