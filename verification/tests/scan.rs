use rldyour_cleaner::config::{Ages, Categories};
use rldyour_cleaner::kinds::Kind;
use rldyour_cleaner::os::Platform;
use rldyour_cleaner::scan::{
    activity_prunes, after_fresh, gate_next, gate_start, git_activity_paths, ignored_from_status, walk_classified,
    walk_entry,
    walk_git_verdict, window_secs, nested_offered, scan_roots, Claims, Candidate, FreshFollowup, GateStep, ScanOutcome, WalkStep,
};

const AGES: Ages = Ages { stale: 14, dep_stale: 30, incremental: 7, cache_entry: 30 };

fn cand(size: u64) -> Candidate {
    Candidate { path: "/r/p/target".to_string(), kind: Kind::RustTarget, size_bytes: size, newest: None, project_root: None }
}

#[test]
fn walk_prunes_pending_and_foreign_dirs() {
    assert_eq!(walk_entry(0, true, "root", true), WalkStep::Continue);
    assert_eq!(walk_entry(3, false, "file.rs", true), WalkStep::Continue);
    assert_eq!(walk_entry(2, true, ".rldyour-cleaner-pending-1-target-0", true), WalkStep::Prune);
    assert_eq!(walk_entry(2, true, "mnt", false), WalkStep::Prune);
    assert_eq!(walk_entry(2, true, "src", true), WalkStep::Classify);
}

#[test]
fn classified_dirs_are_claimed_or_walked() {
    assert_eq!(walk_classified("target", Some(Kind::RustTarget)), WalkStep::Claim(Kind::RustTarget));
    assert_eq!(walk_classified("build", Some(Kind::GenericBuild)), WalkStep::AskGit(Kind::GenericBuild));
    assert_eq!(walk_classified(".git", None), WalkStep::Prune);
    assert_eq!(walk_classified("target", None), WalkStep::Prune);
    assert_eq!(walk_classified("src", None), WalkStep::Continue);
}

#[test]
fn only_git_proof_claims_generic_names() {
    assert_eq!(walk_git_verdict(Kind::GenericBuild, Some(true)), WalkStep::Claim(Kind::GenericBuild));
    assert_eq!(walk_git_verdict(Kind::GenericBuild, Some(false)), WalkStep::Continue);
    assert_eq!(walk_git_verdict(Kind::JsOutputDir, None), WalkStep::Continue);
    assert_eq!(ignored_from_status(Some(0)), Some(true));
    assert_eq!(ignored_from_status(Some(1)), Some(false));
    assert_eq!(ignored_from_status(Some(128)), None);
    assert_eq!(ignored_from_status(None), None);
}

#[test]
fn artifacts_gate_on_their_own_age() {
    let s = gate_start(Kind::RustTarget, AGES, true);
    assert_eq!(s, GateStep::ArtifactNewerWithin(14));
    assert_eq!(gate_next(s, true), GateStep::Fresh);
    assert_eq!(gate_next(s, false), GateStep::Stale);
}

#[test]
fn dependency_trees_gate_on_project_activity() {
    let s = gate_start(Kind::NodeModules, AGES, true);
    assert_eq!(s, GateStep::ProjectActiveWithin(30));
    assert_eq!(gate_next(s, true), GateStep::Fresh);
    let t = gate_next(s, false);
    assert_eq!(t, GateStep::ArtifactNewerWithin(30));
    assert_eq!(gate_next(t, true), GateStep::Fresh);
    assert_eq!(gate_next(t, false), GateStep::Stale);
    assert_eq!(gate_start(Kind::PyVenv, AGES, false), GateStep::Fresh);
}

#[test]
fn fresh_targets_offer_their_incrementals() {
    let cats = Categories {
        projects: true,
        incremental: true,
        home_caches: true,
        devin_versions: true,
        cargo_registry: false,
        trash: false,
    };
    assert_eq!(after_fresh(Kind::RustTarget, cats, AGES), FreshFollowup::Incrementals(7));
    assert_eq!(after_fresh(Kind::DartToolDeps, cats, AGES), FreshFollowup::FlutterBuild(14));
    assert_eq!(after_fresh(Kind::NodeModules, cats, AGES), FreshFollowup::Nothing);
    let off = Categories { incremental: false, ..cats };
    assert_eq!(after_fresh(Kind::RustTarget, off, AGES), FreshFollowup::Nothing);
}

#[test]
fn outcome_keeps_only_candidates_above_min_size() {
    let mut o = ScanOutcome::new();
    assert!(o.offer(cand(4096), 1000));
    assert!(!o.offer(cand(10), 1000));
    o.record_fresh();
    assert_eq!(o.stale.len(), 1);
    assert_eq!(o.bytes_seen, 4096);
    assert_eq!(o.fresh_count, 1);
}

#[test]
fn activity_walk_skips_artifacts_below_the_root() {
    assert!(activity_prunes(true, 1, Some("node_modules")));
    assert!(activity_prunes(true, 2, Some(".serena")));
    assert!(!activity_prunes(true, 0, Some("target")));
    assert!(!activity_prunes(false, 1, Some("build")));
    assert!(!activity_prunes(true, 1, Some("src")));
    assert!(!activity_prunes(true, 1, None));
}

#[test]
fn windows_saturate() {
    assert_eq!(window_secs(1), 86_400);
    assert_eq!(window_secs(14), 1_209_600);
    assert_eq!(window_secs(u64::MAX), u64::MAX);
}

#[test]
fn git_probes_cover_work_between_commits() {
    assert_eq!(
        git_activity_paths(Platform::Unix, "/r/p/.git"),
        vec!["/r/p/.git", "/r/p/.git/index", "/r/p/.git/HEAD", "/r/p/.git/packed-refs", "/r/p/.git/logs/HEAD"]
    );
}

#[test]
fn nested_caches_stay_on_the_root_filesystem() {
    assert!(nested_offered(Some("debug"), true, true, false));
    assert!(nested_offered(None, true, true, false));
    assert!(!nested_offered(Some("debug"), true, false, false));
    assert!(!nested_offered(Some("debug"), false, true, false));
    assert!(!nested_offered(Some("debug"), true, true, true));
    assert!(!nested_offered(Some(".rldyour-cleaner-pending-7-debug-0"), true, true, false));
}

#[test]
fn projects_off_walks_nothing() {
    let roots = vec!["/r/a".to_string(), "/r/b".to_string()];
    let mut on = Categories { projects: true, incremental: true, home_caches: true, devin_versions: true, cargo_registry: false, trash: false };
    assert_eq!(scan_roots(on, &roots), roots);
    on.projects = false;
    assert!(scan_roots(on, &roots).is_empty());
}

#[test]
fn claimed_dirs_never_nest() {
    let mut c = Claims::new();
    assert!(c.claim("/r/app/node_modules"));
    assert!(c.claim("/r/crate/target"));
    assert!(!c.claim("/r/crate/target"));
    assert!(!c.claim("/r/crate/target/debug/build"));
    assert!(!c.claim("/r/app"));
    assert!(c.claim("/r/app/node_modules2"));
}
