use rldyour_cleaner::config::Gate;
use rldyour_cleaner::kinds::{in_skip_dirs, is_cargo_target, markers_to_probe, match_dir, rules, Kind};

fn present(names: &[&str]) -> Vec<String> {
    names.iter().map(|s| s.to_string()).collect()
}

#[test]
fn target_needs_a_cargo_marker() {
    // A Cargo.toml beside `target`.
    let cargo = is_cargo_target(true, false, false);
    assert_eq!(match_dir("target", &present(&[]), cargo), Some(Kind::RustTarget));

    // A bare `target` with no marker is not cargo's: leave it alone.
    let bare = is_cargo_target(false, false, false);
    assert_eq!(match_dir("target", &present(&[]), bare), None);

    // ... unless cargo itself tagged it.
    let tagged = is_cargo_target(false, true, false);
    assert_eq!(match_dir("target", &present(&[]), tagged), Some(Kind::RustTarget));
}

#[test]
fn node_modules_needs_package_json() {
    assert_eq!(match_dir("node_modules", &present(&["package.json"]), false), Some(Kind::NodeModules));
    assert_eq!(match_dir("node_modules", &present(&[]), false), None);
}

#[test]
fn build_only_under_known_markers() {
    assert_eq!(match_dir("build", &present(&["pubspec.yaml"]), false), Some(Kind::GenericBuild));
    assert_eq!(match_dir("build", &present(&["settings.gradle.kts"]), false), Some(Kind::GenericBuild));
    // README.md is not a marker of any rule, so nothing reports it present.
    assert_eq!(match_dir("build", &present(&[]), false), None);
}

#[test]
fn pycache_matches_anywhere() {
    assert_eq!(match_dir("__pycache__", &present(&[]), false), Some(Kind::PyCache));
}

#[test]
fn rustc_info_alone_marks_a_target() {
    assert!(is_cargo_target(false, false, true));
    assert!(!is_cargo_target(false, false, false));
}

#[test]
fn unrelated_names_match_nothing() {
    assert_eq!(match_dir("src", &present(&["package.json", "Cargo.toml"]), true), None);
}

#[test]
fn venv_accepts_any_python_marker() {
    for m in ["pyproject.toml", "requirements.txt", "setup.py", "setup.cfg", "Pipfile", "uv.lock"] {
        assert_eq!(match_dir(".venv", &present(&[m]), false), Some(Kind::PyVenv));
    }
    assert_eq!(match_dir("venv", &present(&["package.json"]), false), None);
}

#[test]
fn js_outputs_and_caches_need_package_json() {
    assert_eq!(match_dir("dist", &present(&["package.json"]), false), Some(Kind::JsOutputDir));
    assert_eq!(match_dir(".next", &present(&["package.json"]), false), Some(Kind::JsFrameworkCache));
    assert_eq!(match_dir(".next", &present(&["pubspec.yaml"]), false), None);
}

#[test]
fn probe_lists_only_markers_of_matching_rules() {
    let p = markers_to_probe("build");
    assert_eq!(
        p.markers,
        vec![
            "pubspec.yaml",
            "settings.gradle",
            "settings.gradle.kts",
            "build.gradle",
            "build.gradle.kts",
            "package.json"
        ]
    );
    assert!(!p.cargo_facts);
    let t = markers_to_probe("target");
    assert!(t.markers.is_empty());
    assert!(t.cargo_facts);
    let none = markers_to_probe("docs");
    assert!(none.markers.is_empty());
    assert!(!none.cargo_facts);
}

#[test]
fn kind_properties() {
    assert_eq!(Kind::RustTarget.label(), "rust-target");
    assert_eq!(Kind::DartToolBuild.label(), "dart-tool-build");
    assert_eq!(Kind::PyCache.label(), "python-cache");
    assert!(Kind::NodeModules.guards_project_root());
    assert!(!Kind::RustTarget.guards_project_root());
    assert!(Kind::GenericBuild.needs_gitignore());
    assert!(Kind::JsOutputDir.needs_gitignore());
    assert!(!Kind::JsFrameworkCache.needs_gitignore());
    assert_eq!(Kind::PyVenv.gate(), Gate::ProjectStale);
    assert_eq!(Kind::RustIncremental.gate(), Gate::ArtifactStale);
}

#[test]
fn rule_table_order() {
    let r = rules();
    assert_eq!(r.len(), 9);
    assert_eq!(r[0].kind, Kind::RustTarget);
    assert_eq!(r[8].kind, Kind::PyCache);
    assert!(r[8].markers.is_empty());
}

#[test]
fn skip_dirs_membership() {
    assert!(in_skip_dirs(".git"));
    assert!(in_skip_dirs(".rldyour-cleaner-pending"));
    assert!(!in_skip_dirs("build"));
    assert!(!in_skip_dirs("src"));
}
