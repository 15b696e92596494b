use rldyour_cleaner::config::Ages;
use rldyour_cleaner::homecache::specs;
use rldyour_cleaner::kinds::Kind;
use rldyour_cleaner::os::Platform;
use rldyour_cleaner::safety::skip;
use rldyour_cleaner::scan::Candidate;
use rldyour_cleaner::{after_guard, run_mutates, CandidateStep, RunMode, age_bound, age_days, cache_gate, entry_for, path_allowed, reports_skips, under_pressure, CacheGate, RunOutcome};

fn cand(kind: Kind) -> Candidate {
    Candidate { path: "/r/p/target".to_string(), kind, size_bytes: 4096, newest: None, project_root: None }
}

#[test]
fn pressure_mode_threshold() {
    assert!(under_pressure(Some(75), 75));
    assert!(!under_pressure(Some(74), 75));
    assert!(!under_pressure(None, 0));
    assert!(!under_pressure(Some(100), 101));
}

#[test]
fn bounds_per_kind() {
    let a = Ages { stale: 14, dep_stale: 30, incremental: 7, cache_entry: 30 };
    assert_eq!(age_bound(Kind::RustIncremental, a), 7);
    assert_eq!(age_bound(Kind::RustTarget, a), 14);
    assert_eq!(age_bound(Kind::NodeModules, a), 30);
}

#[test]
fn entries_describe_outcomes() {
    let c = cand(Kind::RustTarget);
    let e = entry_for(&c, RunOutcome::WouldDelete { bound: 14 }, 30);
    assert_eq!((e.action, e.reason.as_str(), e.bytes, e.kind.as_str()), ("would-delete", "stale 14d+", 4096, "rust-target"));
    let e = entry_for(&c, RunOutcome::Deleted { freed: 4000 }, 30);
    assert_eq!((e.action, e.reason.as_str(), e.bytes), ("deleted", "", 4000));
    let e = entry_for(&c, RunOutcome::Busy("the OS refuses the rename: x".to_string()), 30);
    assert_eq!((e.action, e.reason.as_str(), e.bytes), ("skipped", "in-use: the OS refuses the rename: x", 0));
    let e = entry_for(&c, RunOutcome::Failed("rename failed: x".to_string()), 30);
    assert_eq!((e.action, e.reason.as_str(), e.bytes), ("failed", "rename failed: x", 0));
    let e = entry_for(&c, RunOutcome::Skipped(skip("locked", ".cargo-lock is held by a cargo build".to_string())), 1);
    assert_eq!((e.action, e.reason.as_str(), e.age_days), ("skipped", "locked: .cargo-lock is held by a cargo build", 1));
    assert_eq!(e.path, "/r/p/target");
    assert_eq!(age_days(&c), 0);
}

#[test]
fn skips_reported_unless_quiet_scan() {
    assert!(reports_skips(false, false));
    assert!(reports_skips(true, true));
    assert!(!reports_skips(false, true));
}

#[test]
fn protect_patterns_guard_caches_too() {
    let protect = vec!["".to_string(), "keep".to_string()];
    assert!(!path_allowed("/home/u/keep/x", &protect));
    assert!(path_allowed("/home/u/other", &protect));
}

#[test]
fn cache_gates() {
    let v = specs(30, 21, &vec![], Platform::Unix, "/home/u");
    let go = v.iter().find(|c| c.id == "go-modcache").unwrap();
    let npm = v.iter().find(|c| c.id == "npm").unwrap();
    assert!(matches!(cache_gate(npm, false, false, true), CacheGate::Absent));
    match cache_gate(go, true, false, true) {
        CacheGate::Held(r) => assert_eq!(r.detail, "reserved for disk-pressure runs"),
        _ => panic!("go-modcache waits for pressure"),
    }
    assert!(matches!(cache_gate(go, true, true, true), CacheGate::Proceed));
    match cache_gate(npm, true, false, false) {
        CacheGate::Held(r) => assert_eq!((r.id.as_str(), r.detail.as_str()), ("npm", "protected")),
        _ => panic!("protected caches are held"),
    }
}

#[test]
fn only_a_real_run_deletes_reaps_or_saves() {
    let ages = Ages { stale: 14, dep_stale: 30, incremental: 7, cache_entry: 30 };
    for mode in [RunMode::Scan, RunMode::DryRun] {
        assert!(!run_mutates(mode));
        match after_guard(mode, Kind::NodeModules, ages) {
            CandidateStep::Report(RunOutcome::WouldDelete { bound }) => assert_eq!(bound, 30),
            _ => panic!("a scan or dry run must not delete"),
        }
        match after_guard(mode, Kind::RustIncremental, ages) {
            CandidateStep::Report(RunOutcome::WouldDelete { bound }) => assert_eq!(bound, 7),
            _ => panic!("a scan or dry run must not delete"),
        }
    }
    assert!(run_mutates(RunMode::Run));
    assert!(matches!(after_guard(RunMode::Run, Kind::RustTarget, ages), CandidateStep::Execute));
}
