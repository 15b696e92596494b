use rldyour_cleaner::config::{
    config_path, expand_home, policy_from, policy_from_file, refuse_filesystem_root, Ages, ConfigFile, FilePolicy,
    Gate, Policy,
};
use rldyour_cleaner::os::Platform;

const HOME: &str = "/home/tester";

#[test]
fn defaults_are_the_balanced_profile() {
    // No file at the path: the balanced defaults apply.
    let p = policy_from_file("/nonexistent-rldc-dir/config.toml", ConfigFile::Missing, Platform::Unix, HOME).unwrap();
    assert_eq!(p.stale_days, 14);
    assert_eq!(p.dep_stale_days, 30);
    assert_eq!(p.incremental_days, 7);
    assert_eq!(p.cache_entry_days, 30);
    assert_eq!(p.pressure_pct, 75);
    assert!(p.categories.projects);
    assert!(!p.categories.trash);
    assert!(!p.categories.cargo_registry);
    let routine = p.ages(false);
    let press = p.ages(true);
    assert!(press.stale < routine.stale);
    assert!(press.dep_stale < routine.dep_stale);
}

#[test]
fn protect_patterns_expand_tilde() {
    let f = FilePolicy {
        protect: vec!["~/keep-this".to_string(), "literal-sub".to_string()],
        ..FilePolicy::default()
    };
    let p = policy_from(f, Platform::Unix, HOME);
    assert_eq!(p.protect[0], "/home/tester/keep-this");
    assert_eq!(p.protect[1], "literal-sub");
}

#[test]
fn broken_file_is_an_error_not_defaults() {
    let r = policy_from_file("/tmp/x/config.toml", ConfigFile::Unparsable("invalid type".to_string()), Platform::Unix, HOME);
    assert_eq!(r.unwrap_err(), "cannot parse /tmp/x/config.toml: invalid type");
    let r = policy_from_file("/tmp/x/config.toml", ConfigFile::Unreadable("denied".to_string()), Platform::Unix, HOME);
    assert_eq!(r.unwrap_err(), "cannot read /tmp/x/config.toml: denied");
}

#[test]
fn default_roots_expand_against_home() {
    let p = Policy::defaults(Platform::Unix, HOME);
    assert_eq!(p.roots, vec!["/home/tester/Developer".to_string()]);
    assert_eq!(p.guard_fresh_minutes, 15);
    assert_eq!(p.pressure.stale_days, 7);
    assert_eq!(p.pressure.dep_stale_days, 21);
    assert_eq!(p.pressure.incremental_days, 3);
    assert_eq!(p.pressure.cache_entry_days, 14);
    assert!(p.protect.is_empty());
    assert!(p.extra_cache_paths.is_empty());
}

#[test]
fn parsed_values_are_taken_as_written() {
    let f = FilePolicy {
        stale_days: 3,
        pressure_pct: 150,
        roots: vec!["~/src".to_string(), "/data".to_string()],
        extra_cache_paths: vec!["~".to_string()],
        ..FilePolicy::default()
    };
    let p = policy_from_file("c.toml", ConfigFile::Parsed(f), Platform::Unix, HOME).unwrap();
    assert_eq!(p.stale_days, 3);
    assert_eq!(p.dep_stale_days, 30);
    assert_eq!(p.pressure_pct, 150);
    assert_eq!(p.roots, vec!["/home/tester/src".to_string(), "/data".to_string()]);
    assert_eq!(p.extra_cache_paths, vec!["/home/tester".to_string()]);
}

#[test]
fn filesystem_root_is_refused() {
    let p = Policy::defaults(Platform::Unix, HOME);
    let r = refuse_filesystem_root("cfg.toml", p, &vec![Some("/".to_string())]);
    assert_eq!(r.unwrap_err(), "cfg.toml: '/' is not an allowed scan root");
    let p = Policy::defaults(Platform::Unix, HOME);
    let r = refuse_filesystem_root("cfg.toml", p, &vec![None]);
    assert!(r.is_ok());
    let p = Policy::defaults(Platform::Unix, HOME);
    let r = refuse_filesystem_root("cfg.toml", p, &vec![Some("/home".to_string())]);
    assert!(r.is_ok());
}

#[test]
fn ages_follow_the_pressure_state() {
    let p = Policy::defaults(Platform::Unix, HOME);
    let a = p.ages(false);
    assert_eq!((a.stale, a.dep_stale, a.incremental, a.cache_entry), (14, 30, 7, 30));
    let b = p.ages(true);
    assert_eq!((b.stale, b.dep_stale, b.incremental, b.cache_entry), (7, 21, 3, 14));
}

#[test]
fn gate_picks_its_bound() {
    let a = Ages { stale: 14, dep_stale: 30, incremental: 7, cache_entry: 30 };
    assert_eq!(a.for_gate(Gate::ArtifactStale), 14);
    assert_eq!(a.for_gate(Gate::ProjectStale), 30);
}

#[test]
fn tilde_expansion_rules() {
    assert_eq!(expand_home(Platform::Unix, "~", HOME), "/home/tester");
    assert_eq!(expand_home(Platform::Unix, "~/", HOME), "/home/tester/");
    assert_eq!(expand_home(Platform::Unix, "~\\x", HOME), "/home/tester/x");
    assert_eq!(expand_home(Platform::Unix, "~x", HOME), "~x");
    assert_eq!(expand_home(Platform::Unix, "/abs/~/y", HOME), "/abs/~/y");
    assert_eq!(expand_home(Platform::Unix, "~//abs", HOME), "/abs");
}

#[test]
fn config_file_lives_in_the_config_dir() {
    assert_eq!(config_path(Platform::Unix, "/home/tester/.config/rldyour-cleaner"), "/home/tester/.config/rldyour-cleaner/config.toml");
}

#[test]
fn windows_protect_patterns_expand_with_backslashes() {
    let home = "C:\\Users\\u";
    assert_eq!(expand_home(Platform::Windows, "~/keep-this", home), "C:\\Users\\u\\keep-this");
    assert_eq!(expand_home(Platform::Windows, "~\\x", home), "C:\\Users\\u\\x");
    let mut f = FilePolicy::default();
    f.protect = vec!["~/keep-this".to_string()];
    let p = policy_from(f, Platform::Windows, home);
    assert_eq!(p.protect, vec!["C:\\Users\\u\\keep-this".to_string()]);
    assert!(!rldyour_cleaner::path_allowed("\\\\?\\C:\\Users\\u\\keep-this\\target", &p.protect));
    assert_eq!(config_path(Platform::Windows, "C:\\Users\\u\\AppData\\Local\\rldyour-cleaner"),
        "C:\\Users\\u\\AppData\\Local\\rldyour-cleaner\\config.toml");
}

#[test]
fn partial_file_keeps_defaults_elsewhere() {
    // The file's keys as toml reads them; every key it lacks keeps the
    // balanced default.
    let table: toml::Table = toml::from_str("stale_days = 3\nroots = [\"~/src\"]").unwrap();
    let mut f = FilePolicy::default();
    if let Some(v) = table.get("stale_days") {
        f.stale_days = v.as_integer().unwrap() as u64;
    }
    if let Some(v) = table.get("roots") {
        f.roots = v.as_array().unwrap().iter().map(|r| r.as_str().unwrap().to_string()).collect();
    }
    assert_eq!(f.stale_days, 3);
    assert_eq!(f.dep_stale_days, 30);
    assert_eq!(f.roots, vec!["~/src".to_string()]);
    let p = policy_from(f, Platform::Unix, HOME);
    assert_eq!(p.roots, vec!["/home/tester/src".to_string()]);
    assert_eq!(p.dep_stale_days, 30);
}
