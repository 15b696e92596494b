use rldyour_cleaner::config::Policy;
use rldyour_cleaner::os::Platform;
use rldyour_cleaner::kinds::Kind;
use rldyour_cleaner::safety::{
    cargo_lock_names, guard_step, guard_window_secs, lock_dir, lock_held, lock_open_failed, path_guard, proc_scope, GuardEvent,
    GuardStep, PathFacts, PathMeta, Skip,
};
use rldyour_cleaner::scan::Candidate;

fn policy() -> Policy {
    let mut p = Policy::defaults(Platform::Unix, "/home/u");
    p.guard_fresh_minutes = 0;
    p
}

fn facts(name: &str, canon: &str, kind: Option<Kind>) -> PathFacts {
    PathFacts {
        metadata: Ok(PathMeta { is_symlink: false, is_dir: true }),
        name: name.to_string(),
        component_count: 5,
        canonical: Ok(canon.to_string()),
        canonical_parent_name: None,
        canonical_grandparent_name: None,
        rematch: kind,
    }
}

fn refusal(r: Result<(), Skip>) -> &'static str {
    match r {
        Ok(()) => "ok",
        Err(s) => s.reason,
    }
}

#[test]
fn protected_substring_blocks_deletion() {
    let mut p = policy();
    let f = facts("target", "/tmp/rldc/keepme-app/target", Some(Kind::RustTarget));
    assert_eq!(refusal(path_guard(Kind::RustTarget, &p, &f)), "ok");
    p.protect = vec!["keepme-app".to_string()];
    match path_guard(Kind::RustTarget, &p, &f) {
        Err(s) => {
            assert_eq!(s.reason, "protected");
            assert_eq!(s.detail, "matches protect pattern 'keepme-app'");
        }
        Ok(()) => panic!("expected protected skip"),
    }
}

#[test]
fn path_shape_problems_are_refused_in_order() {
    let p = policy();
    let mut f = facts("target", "/a/b/c/target", Some(Kind::RustTarget));
    f.metadata = Err("No such file or directory".to_string());
    assert_eq!(refusal(path_guard(Kind::RustTarget, &p, &f)), "gone");
    let mut f = facts("target", "/a/b/c/target", Some(Kind::RustTarget));
    f.metadata = Ok(PathMeta { is_symlink: true, is_dir: false });
    assert_eq!(refusal(path_guard(Kind::RustTarget, &p, &f)), "symlink");
    let mut f = facts("target", "/a/b/c/target", Some(Kind::RustTarget));
    f.metadata = Ok(PathMeta { is_symlink: false, is_dir: false });
    assert_eq!(refusal(path_guard(Kind::RustTarget, &p, &f)), "not-dir");
    let mut f = facts("target", "/a/target", Some(Kind::RustTarget));
    f.component_count = 3;
    assert_eq!(refusal(path_guard(Kind::RustTarget, &p, &f)), "shallow");
    let mut f = facts("target", "/a/b/c/target", Some(Kind::RustTarget));
    f.canonical = Err("loop".to_string());
    assert_eq!(refusal(path_guard(Kind::RustTarget, &p, &f)), "canonicalize");
    let f = facts("target", "/a/b/c/target", None);
    assert_eq!(refusal(path_guard(Kind::RustTarget, &p, &f)), "shape");
}

#[test]
fn nested_kinds_have_their_shape_spelled_out() {
    let p = policy();
    let mut f = facts("incremental", "/a/b/target/debug/incremental", None);
    f.canonical_grandparent_name = Some("target".to_string());
    assert_eq!(refusal(path_guard(Kind::RustIncremental, &p, &f)), "ok");
    f.canonical_grandparent_name = Some("other".to_string());
    assert_eq!(refusal(path_guard(Kind::RustIncremental, &p, &f)), "shape");
    let mut g = facts("flutter_build", "/a/b/app/.dart_tool/flutter_build", None);
    g.canonical_parent_name = Some(".dart_tool".to_string());
    assert_eq!(refusal(path_guard(Kind::DartToolBuild, &p, &g)), "ok");
}

#[test]
fn every_guard_runs_in_order_until_allowed() {
    let p = policy();
    let f = facts("target", "/a/b/c/target", Some(Kind::RustTarget));
    let k = Kind::RustTarget;
    assert_eq!(guard_step(k, &p, GuardEvent::PathChecked(f)).unwrap(), GuardStep::CheckDirMtime);
    assert_eq!(guard_step(k, &p, GuardEvent::DirMtimeWarm(false)).unwrap(), GuardStep::CheckTree);
    assert_eq!(guard_step(k, &p, GuardEvent::TreeWarm(false)).unwrap(), GuardStep::CheckProcesses);
    assert_eq!(guard_step(k, &p, GuardEvent::Users(Some(vec![]))).unwrap(), GuardStep::TakeLocks);
    assert_eq!(guard_step(k, &p, GuardEvent::LocksTaken(Ok(()))).unwrap(), GuardStep::Allowed);
}

#[test]
fn warm_trees_and_live_processes_are_refused() {
    let mut p = policy();
    p.guard_fresh_minutes = 15;
    let k = Kind::NodeModules;
    let s = guard_step(k, &p, GuardEvent::DirMtimeWarm(true)).unwrap_err();
    assert_eq!((s.reason, s.detail.as_str()), ("warm", "directory changed within the last 15 min"));
    let s = guard_step(k, &p, GuardEvent::TreeWarm(true)).unwrap_err();
    assert_eq!((s.reason, s.detail.as_str()), ("warm", "written within the guard window"));
    let s = guard_step(k, &p, GuardEvent::Users(Some(vec![42, 7]))).unwrap_err();
    assert_eq!((s.reason, s.detail.as_str()), ("in-use", "held by process(es) 42,7"));
    let s = guard_step(k, &p, GuardEvent::Users(None)).unwrap_err();
    assert_eq!(s.reason, "proc-unknown");
}

#[test]
fn held_cargo_lock_blocks_target_deletion() {
    let p = policy();
    let s = guard_step(Kind::RustTarget, &p, GuardEvent::LocksTaken(Err(lock_held(".cargo-lock")))).unwrap_err();
    assert_eq!(s.reason, "locked");
    assert_eq!(s.detail, ".cargo-lock is held by a cargo build");
    let o = lock_open_failed("/t/.cargo-lock", "denied");
    assert_eq!((o.reason, o.detail.as_str()), ("lock", "cannot open /t/.cargo-lock: denied"));
}

#[test]
fn scopes_follow_the_kind() {
    let nm = Candidate {
        path: "/r/app/node_modules".to_string(),
        kind: Kind::NodeModules,
        size_bytes: 1,
        newest: None,
        project_root: Some("/r/app".to_string()),
    };
    assert_eq!(proc_scope(&nm), "/r/app");
    assert_eq!(lock_dir(&nm), None);
    let inc = Candidate {
        path: "/r/c/target/debug/incremental".to_string(),
        kind: Kind::RustIncremental,
        size_bytes: 1,
        newest: None,
        project_root: Some("/r/c/target".to_string()),
    };
    assert_eq!(proc_scope(&inc), "/r/c/target/debug/incremental");
    assert_eq!(lock_dir(&inc), Some("/r/c/target".to_string()));
    let t = Candidate { path: "/r/c/target".to_string(), kind: Kind::RustTarget, size_bytes: 1, newest: None, project_root: None };
    assert_eq!(lock_dir(&t), Some("/r/c/target".to_string()));
    assert_eq!(guard_window_secs(15), 900);
    assert_eq!(guard_window_secs(u64::MAX), u64::MAX);
}

#[test]
fn cargo_locks_in_order() {
    assert_eq!(cargo_lock_names(), vec![".cargo-lock", ".cargo-build-lock"]);
}
