use rldyour_cleaner::config::Ages;
use rldyour_cleaner::homecache::cache_set;
use rldyour_cleaner::homecache::{
    VersionFate, VersionTally, clears_staging, evictable, keep_current_dooms, tool_exit_failed, tool_ran_ok, tool_spawn_failed,
    cargo_registry_spec, in_use, preview, process, specs, trash_spec, CacheAction, CacheEvent, HomeCandidate,
    Strategy,
};
use rldyour_cleaner::os::Platform;

const HOME: &str = "/home/u";

fn by_id<'a>(v: &'a [HomeCandidate], id: &str) -> &'a HomeCandidate {
    v.iter().find(|c| c.id == id).unwrap()
}

fn finished(a: CacheAction) -> (String, u64, String) {
    match a {
        CacheAction::Finish(r) => (r.id, r.freed_bytes, r.detail),
        other => panic!("expected a result, got {other:?}"),
    }
}

#[test]
fn fixed_cache_set() {
    let v = specs(30, 21, &vec!["/opt/cache".to_string()], Platform::Unix, HOME);
    assert_eq!(v.len(), 15);
    assert_eq!(v[0].id, "uv");
    assert_eq!(v[0].path, "/home/u/.cache/uv");
    let go = by_id(&v, "go-modcache");
    assert!(go.pressure_only);
    assert_eq!(go.path, "/home/u/go/pkg/mod");
    match go.strategy {
        Strategy::Command { argv, fallback_days } => {
            assert_eq!(argv, &["go", "clean", "-modcache"]);
            assert_eq!(fallback_days, 0);
        }
        _ => panic!("go-modcache delegates to go"),
    }
    assert_eq!(v.iter().filter(|c| c.pressure_only).count(), 1);
    let devin = by_id(&v, "devin-versions");
    assert!(matches!(devin.strategy, Strategy::KeepCurrent { keep_days: 21 }));
    assert!(matches!(by_id(&v, "npm").strategy, Strategy::AgeEvict { days: 30 }));
    assert_eq!(v[14].id, "extra-cache");
    assert_eq!(v[14].path, "/opt/cache");
}

#[test]
fn opt_in_caches() {
    let t = trash_spec(21, Platform::MacOs, "/home/u/Library/Application Support", HOME).unwrap();
    assert_eq!(t.path, "/home/u/.Trash");
    let t = trash_spec(21, Platform::Unix, "/home/u/.local/share", HOME).unwrap();
    assert_eq!(t.path, "/home/u/.local/share/Trash/files");
    assert!(matches!(t.strategy, Strategy::AgeEvict { days: 21 }));
    assert!(trash_spec(21, Platform::Windows, "C:/x", HOME).is_none());
    let c = cargo_registry_spec(30, Platform::Unix, HOME);
    assert_eq!(c.id, "cargo-registry");
    assert_eq!(c.path, "/home/u/.cargo/registry");
}

#[test]
fn age_evict_cache_runs() {
    let v = specs(30, 21, &vec![], Platform::Unix, HOME);
    let npm = by_id(&v, "npm");
    assert!(matches!(process(npm, CacheEvent::Started { is_dir: true }), CacheAction::CheckUsers));
    assert!(matches!(process(npm, CacheEvent::Users(Some(vec![]))), CacheAction::Evict(30)));
    assert!(matches!(preview(npm, CacheEvent::Users(Some(vec![]))), CacheAction::CountEvictable(30)));
    let (id, freed, detail) = finished(process(npm, CacheEvent::Evicted { freed: 2048, count: 3 }));
    assert_eq!((id.as_str(), freed, detail.as_str()), ("npm", 2048, "evicted 3 entries"));
    let (_, _, detail) = finished(preview(npm, CacheEvent::Evicted { freed: 2048, count: 3 }));
    assert_eq!(detail, "would evict 3 entries");
    let (_, freed, detail) = finished(process(npm, CacheEvent::Started { is_dir: false }));
    assert_eq!((freed, detail.as_str()), (0, ""));
}

#[test]
fn busy_caches_are_skipped() {
    let v = specs(30, 21, &vec![], Platform::Unix, HOME);
    let npm = by_id(&v, "npm");
    let (_, freed, detail) = finished(process(npm, CacheEvent::Users(Some(vec![11, 12]))));
    assert_eq!((freed, detail.as_str()), (0, "in use by pid(s) 11,12"));
    let (_, _, detail) = finished(process(npm, CacheEvent::Users(None)));
    assert_eq!(detail, "process liveness unavailable on this platform run");
    assert_eq!(in_use(Some(vec![])), None);
}

#[test]
fn command_caches_delegate_or_fall_back() {
    let v = specs(30, 21, &vec![], Platform::Unix, HOME);
    let uv = by_id(&v, "uv");
    assert!(matches!(process(uv, CacheEvent::Users(Some(vec![]))), CacheAction::CheckTool("uv")));
    match process(uv, CacheEvent::ToolOnPath(true)) {
        CacheAction::RunTool(argv) => assert_eq!(argv, &["uv", "cache", "prune"]),
        other => panic!("expected the tool to run, got {other:?}"),
    }
    let (_, _, detail) = finished(preview(uv, CacheEvent::ToolOnPath(true)));
    assert_eq!(detail, "would run `uv cache prune`");
    assert!(matches!(process(uv, CacheEvent::ToolOnPath(false)), CacheAction::Evict(30)));
    let (_, _, detail) = finished(process(uv, CacheEvent::Evicted { freed: 1, count: 1 }));
    assert_eq!(detail, "evicted 1 entries (no uv on PATH)");
    let (_, _, detail) = finished(process(uv, CacheEvent::ToolRan(Ok("Removed 3 files".to_string()))));
    assert_eq!(detail, "Removed 3 files");
    let (_, _, detail) = finished(process(uv, CacheEvent::ToolRan(Err("uv exited 2".to_string()))));
    assert_eq!(detail, "tool failed: uv exited 2");
    let go = by_id(&v, "go-modcache");
    let (_, _, detail) = finished(process(go, CacheEvent::ToolOnPath(false)));
    assert_eq!(detail, "go not on PATH; skipped");
}

#[test]
fn keep_current_prunes_versions_only() {
    let v = specs(30, 21, &vec![], Platform::Unix, HOME);
    let devin = by_id(&v, "devin-versions");
    assert!(matches!(process(devin, CacheEvent::Started { is_dir: true }), CacheAction::KeepCurrent(21)));
    assert!(matches!(preview(devin, CacheEvent::Started { is_dir: true }), CacheAction::PreviewKeepCurrent(21)));
    let ev = CacheEvent::KeptCurrent { freed: 100, staged: 20, removed: 2, notes: vec!["/v/1: busy".to_string()] };
    let (_, freed, detail) = finished(process(devin, ev));
    assert_eq!((freed, detail.as_str()), (120, "removed 2 old versions; /v/1: busy"));
    let ev = CacheEvent::PreviewedKeepCurrent { freed: 50, doomed: 3, held: 1 };
    let (_, freed, detail) = finished(preview(devin, ev));
    assert_eq!((freed, detail.as_str()), (50, "would remove 2 old versions; 1 held by running processes"));
    let ev = CacheEvent::PreviewedKeepCurrent { freed: 0, doomed: 0, held: 0 };
    let (_, _, detail) = finished(preview(devin, ev));
    assert_eq!(detail, "would remove 0 old versions");
}

#[test]
fn age_eviction_takes_old_files_only() {
    assert!(evictable(false, true, true));
    assert!(evictable(true, false, true));
    assert!(!evictable(false, false, true));
    assert!(!evictable(false, true, false));
}

#[test]
fn keep_current_spares_live_versions() {
    assert!(keep_current_dooms("1.2.3", true, false, true, true));
    assert!(!keep_current_dooms("current", true, false, true, true));
    assert!(!keep_current_dooms("_update.lock", true, false, true, true));
    // The staging dir is cleared on its own terms, never as a version.
    assert!(!keep_current_dooms("_download", true, false, true, true));
    assert!(!keep_current_dooms("1.2.3", true, true, true, true));
    assert!(!keep_current_dooms("1.2.3", true, false, false, true));
    assert!(!keep_current_dooms("1.2.3", true, false, true, false));
    // A missing or dangling `current` fails closed.
    assert!(!keep_current_dooms("1.2.3", false, false, true, true));
}

#[test]
fn staging_waits_for_pulls_in_flight() {
    assert!(clears_staging(true, Some(vec![])));
    assert!(!clears_staging(true, Some(vec![12])));
    assert!(!clears_staging(true, None));
    assert!(!clears_staging(false, Some(vec![])));
}

#[test]
fn tool_outcomes_read_as_details() {
    assert_eq!(tool_ran_ok("  Removed 12 files\n\n"), "Removed 12 files");
    assert_eq!(tool_ran_ok(""), "");
    assert_eq!(
        tool_exit_failed("uv", "exit status: 2", "error: lock held\nmore\n"),
        "uv exited exit status: 2: error: lock held"
    );
    assert_eq!(tool_exit_failed("go", "exit status: 1", ""), "go exited exit status: 1: ");
    assert_eq!(tool_spawn_failed("pnpm", "No such file or directory"), "pnpm: No such file or directory");
}

fn cats(home_caches: bool, trash: bool, cargo_registry: bool) -> rldyour_cleaner::config::Categories {
    rldyour_cleaner::config::Categories {
        projects: true,
        incremental: true,
        home_caches,
        devin_versions: true,
        cargo_registry,
        trash,
    }
}

#[test]
fn run_cache_list() {
    let ages = Ages { stale: 14, dep_stale: 21, incremental: 3, cache_entry: 30 };
    let extra = vec!["/opt/cache".to_string()];
    assert!(cache_set(cats(false, true, true), ages, &extra, Platform::Unix, "/d", HOME).is_empty());
    let v = cache_set(cats(true, false, false), ages, &extra, Platform::Unix, "/d", HOME);
    assert_eq!(v.len(), 15);
    let v = cache_set(cats(true, true, true), ages, &extra, Platform::Unix, "/d", HOME);
    assert_eq!(v.len(), 17);
    assert_eq!(v[15].id, "trash");
    assert_eq!(v[15].path, "/d/Trash/files");
    assert!(matches!(v[15].strategy, Strategy::AgeEvict { days: 21 }));
    assert_eq!(v[16].id, "cargo-registry");
    assert!(matches!(v[16].strategy, Strategy::AgeEvict { days: 30 }));
    let v = cache_set(cats(true, true, true), ages, &extra, Platform::Windows, "/d", HOME);
    assert_eq!(v.len(), 16);
    assert_eq!(v[15].id, "cargo-registry");
    let v = cache_set(cats(true, true, false), ages, &vec![], Platform::MacOs, "/d", HOME);
    assert_eq!(v.len(), 15);
    assert_eq!(v[14].path, "/home/u/.Trash");
}

#[test]
fn version_tally_is_shared_by_run_and_preview() {
    let fates = || vec![
        ("/v/1.0", VersionFate::Removed(100)),
        ("/v/1.1", VersionFate::Held("in use by pid(s) 7".to_string())),
        ("/v/1.2", VersionFate::Removed(50)),
    ];
    let mut run = VersionTally::new();
    for (p, f) in fates() {
        run.record(p, f);
    }
    assert_eq!((run.freed, run.doomed, run.held, run.removed, run.failed), (150, 3, 1, 2, 0));
    assert_eq!(run.notes, vec!["/v/1.1: in use by pid(s) 7".to_string()]);
    let mut pre = VersionTally::new();
    for (p, f) in fates() {
        pre.record(p, f);
    }
    match pre.previewed(10) {
        CacheEvent::PreviewedKeepCurrent { freed, doomed, held } => {
            assert_eq!((freed, doomed - held), (160, run.removed));
        }
        _ => panic!("expected a preview event"),
    }
    let mut t = VersionTally::new();
    t.record("/v/2.0", VersionFate::Failed("denied".to_string()));
    assert_eq!((t.failed, t.doomed), (1, 1));
    assert_eq!(t.notes, vec!["/v/2.0: denied".to_string()]);
    match t.kept(5) {
        CacheEvent::KeptCurrent { freed, staged, removed, .. } => assert_eq!((freed, staged, removed), (0, 5, 0)),
        _ => panic!("expected a run event"),
    }
}
