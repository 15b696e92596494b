//! The scan, age gate and guard decisions run end to end on probe results,
//! one scenario per fixture of the filesystem-level suite.

use rldyour_cleaner::config::{Ages, Policy};
use rldyour_cleaner::os::Platform;
use rldyour_cleaner::kinds::{is_cargo_target, match_dir, Kind};
use rldyour_cleaner::safety::{guard_step, lock_dir, lock_held, proc_scope, GuardEvent, GuardStep, PathFacts, PathMeta};
use rldyour_cleaner::scan::{
    after_fresh, gate_next, gate_start, walk_classified, walk_entry, Candidate, FreshFollowup, GateStep, ScanOutcome,
    WalkStep,
};
use rldyour_cleaner::clean::{is_pending_dir, pending_name};

const AGES: Ages = Ages { stale: 14, dep_stale: 30, incremental: 7, cache_entry: 30 };

fn policy() -> Policy {
    let mut p = Policy::defaults(Platform::Unix, "/home/u");
    p.guard_fresh_minutes = 0;
    p
}

/// Run the age gate, answering its probes: was the artifact written within
/// its window, was the project active within its window?
fn gate(kind: Kind, has_root: bool, artifact_newer: bool, project_active: bool) -> GateStep {
    let mut step = gate_start(kind, AGES, has_root);
    loop {
        step = match step {
            GateStep::ArtifactNewerWithin(_) => gate_next(step, artifact_newer),
            GateStep::ProjectActiveWithin(_) => gate_next(step, project_active),
            done => return done,
        };
    }
}

fn claim(name: &str, present: &[&str], cargo_target: bool) -> Option<Kind> {
    let present: Vec<String> = present.iter().map(|s| s.to_string()).collect();
    match walk_classified(name, match_dir(name, &present, cargo_target)) {
        WalkStep::Claim(k) => Some(k),
        _ => None,
    }
}

/// Drive every guard with passing probes except those given.
fn guard(c: &Candidate, users: Option<Vec<u32>>, locks: Result<(), rldyour_cleaner::safety::Skip>) -> Result<(), String> {
    let p = policy();
    let name = c.path.rsplit('/').next().unwrap().to_string();
    let facts = PathFacts {
        metadata: Ok(PathMeta { is_symlink: false, is_dir: true }),
        name: name.clone(),
        component_count: c.path.split('/').count(),
        canonical: Ok(c.path.clone()),
        canonical_parent_name: None,
        canonical_grandparent_name: Some("target".to_string()),
        rematch: Some(c.kind),
    };
    let mut events = vec![
        GuardEvent::PathChecked(facts),
        GuardEvent::DirMtimeWarm(false),
        GuardEvent::TreeWarm(false),
        GuardEvent::Users(users),
        GuardEvent::LocksTaken(locks),
    ]
    .into_iter();
    let mut step = GuardStep::CheckPath;
    while step != GuardStep::Allowed {
        step = guard_step(c.kind, &p, events.next().unwrap()).map_err(|s| s.reason.to_string())?;
    }
    Ok(())
}

#[test]
fn stale_rust_target_is_a_candidate_and_deletes() {
    assert_eq!(walk_entry(2, true, "target", true), WalkStep::Classify);
    let kind = claim("target", &["Cargo.toml"], is_cargo_target(true, true, false)).unwrap();
    assert_eq!(kind, Kind::RustTarget);
    assert_eq!(gate(kind, true, false, false), GateStep::Stale);
    let mut out = ScanOutcome::new();
    let c = Candidate {
        path: "/tmp/rldc/crate/target".to_string(),
        kind,
        size_bytes: 4096,
        newest: None,
        project_root: Some("/tmp/rldc/crate".to_string()),
    };
    assert!(out.offer(c, 0));
    assert_eq!(out.stale.len(), 1);
    assert!(out.stale[0].size_bytes >= 4096);
    assert_eq!(guard(&out.stale[0], Some(vec![]), Ok(())), Ok(()));
    assert_eq!(lock_dir(&out.stale[0]), Some("/tmp/rldc/crate/target".to_string()));
    let pending = pending_name(7, 0, Some("target"));
    assert!(is_pending_dir(Some(&pending)));
}

#[test]
fn fresh_rust_target_is_left_alone() {
    let kind = claim("target", &["Cargo.toml"], is_cargo_target(true, false, false)).unwrap();
    assert_eq!(gate(kind, true, true, true), GateStep::Fresh);
}

#[test]
fn node_modules_follows_project_activity_not_its_own_age() {
    let kind = claim("node_modules", &["package.json"], false).unwrap();
    assert_eq!(kind, Kind::NodeModules);
    // Old project, old deps: stale.
    assert_eq!(gate(kind, true, false, false), GateStep::Stale);
    // Deps old, project touched an hour ago: it survives.
    assert_eq!(gate(kind, true, false, true), GateStep::Fresh);
}

#[test]
fn process_holding_project_blocks_node_modules() {
    let c = Candidate {
        path: "/tmp/rldc/app/node_modules".to_string(),
        kind: Kind::NodeModules,
        size_bytes: 1,
        newest: None,
        project_root: Some("/tmp/rldc/app".to_string()),
    };
    // The probe looks at the whole project, where the process sits.
    assert_eq!(proc_scope(&c), "/tmp/rldc/app");
    assert_eq!(guard(&c, Some(vec![4242]), Ok(())), Err("in-use".to_string()));
    assert_eq!(guard(&c, None, Ok(())), Err("proc-unknown".to_string()));
    assert_eq!(guard(&c, Some(vec![]), Ok(())), Ok(()));
    assert_eq!(guard(&c, Some(vec![]), Err(lock_held(".cargo-lock"))), Err("locked".to_string()));
}

#[test]
fn incremental_inside_warm_target_gets_shorter_leash() {
    let kind = claim("target", &["Cargo.toml"], is_cargo_target(true, false, false)).unwrap();
    // The rest of target was written today: the target survives...
    assert_eq!(gate(kind, true, true, true), GateStep::Fresh);
    // ...and its incremental caches are judged on their own 7-day leash.
    assert_eq!(after_fresh(kind, policy().categories, AGES), FreshFollowup::Incrementals(7));
}
