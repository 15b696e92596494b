//! What counts as a cleanable artifact, and which marker must sit next to it.
//!
//! A directory name alone is never enough: every kind either requires a
//! sibling project marker file or, for cargo's `target`, a stamp cargo writes
//! inside the directory itself. The probing of the filesystem is done by the
//! caller; this module decides from what the probes found.

use crate::config::Gate;
use crate::text::{slice_has, str_views, string_views, vec_has};
use vstd::prelude::*;

verus! {

/// The artifact kinds the cleaner knows.
#[derive(Debug, Clone, Copy, PartialEq, Eq, Structural)]
pub enum Kind {
    RustTarget,
    RustIncremental,
    NodeModules,
    JsFrameworkCache,
    JsOutputDir,
    GenericBuild,
    DartToolDeps,
    DartToolBuild,
    GradleLocal,
    PyVenv,
    PyCache,
}

/// The stable label of each kind, as shown in reports.
pub open spec fn kind_label(k: Kind) -> Seq<char> {
    match k {
        Kind::RustTarget => "rust-target"@,
        Kind::RustIncremental => "rust-incremental"@,
        Kind::NodeModules => "node-modules"@,
        Kind::JsFrameworkCache => "js-framework-cache"@,
        Kind::JsOutputDir => "js-output"@,
        Kind::GenericBuild => "build-dir"@,
        Kind::DartToolDeps => "dart-tool-deps"@,
        Kind::DartToolBuild => "dart-tool-build"@,
        Kind::GradleLocal => "gradle-local"@,
        Kind::PyVenv => "python-venv"@,
        Kind::PyCache => "python-cache"@,
    }
}

/// Dependency trees: rewritten only on reinstall, so their age says nothing
/// about use. They are gated on project activity and guarded at project scope.
pub open spec fn is_dependency_kind(k: Kind) -> bool {
    k == Kind::NodeModules || k == Kind::PyVenv || k == Kind::DartToolDeps
}

/// Names so generic they may be checked-in content.
pub open spec fn is_generic_kind(k: Kind) -> bool {
    k == Kind::GenericBuild || k == Kind::JsOutputDir
}

/// Which staleness gate decides a kind.
pub open spec fn kind_gate(k: Kind) -> Gate {
    if is_dependency_kind(k) {
        Gate::ProjectStale
    } else {
        Gate::ArtifactStale
    }
}

impl Kind {
    pub fn label(self) -> (s: &'static str)
        ensures
            s@ == kind_label(self),
    {
        match self {
            Kind::RustTarget => "rust-target",
            Kind::RustIncremental => "rust-incremental",
            Kind::NodeModules => "node-modules",
            Kind::JsFrameworkCache => "js-framework-cache",
            Kind::JsOutputDir => "js-output",
            Kind::GenericBuild => "build-dir",
            Kind::DartToolDeps => "dart-tool-deps",
            Kind::DartToolBuild => "dart-tool-build",
            Kind::GradleLocal => "gradle-local",
            Kind::PyVenv => "python-venv",
            Kind::PyCache => "python-cache",
        }
    }

    /// Deleting a dependency tree under a running app breaks its next start,
    /// so for these kinds the process guard checks the whole project root.
    pub fn guards_project_root(self) -> (r: bool)
        ensures
            r == is_dependency_kind(self),
    {
        match self {
            Kind::NodeModules | Kind::PyVenv | Kind::DartToolDeps => true,
            _ => false,
        }
    }

    /// Generic names are only cleanable when git proves them ignored.
    pub fn needs_gitignore(self) -> (r: bool)
        ensures
            r == is_generic_kind(self),
    {
        match self {
            Kind::GenericBuild | Kind::JsOutputDir => true,
            _ => false,
        }
    }

    pub fn gate(self) -> (g: Gate)
        ensures
            g == kind_gate(self),
    {
        match self {
            Kind::NodeModules | Kind::PyVenv | Kind::DartToolDeps => Gate::ProjectStale,
            _ => Gate::ArtifactStale,
        }
    }
}

/// One matching rule: a kind, the exact directory names that can match, and
/// the sibling marker files of which one must exist (none listed: any place).
pub struct Rule {
    pub kind: Kind,
    pub names: &'static [&'static str],
    pub markers: &'static [&'static str],
}

/// The number of rules.
pub open spec fn rule_count() -> int {
    9
}

/// The kind of rule `i`, in rule order (the first rule that fires wins).
pub open spec fn rule_kind(i: int) -> Kind {
    if i == 0 { Kind::RustTarget }
    else if i == 1 { Kind::NodeModules }
    else if i == 2 { Kind::DartToolDeps }
    else if i == 3 { Kind::PyVenv }
    else if i == 4 { Kind::GradleLocal }
    else if i == 5 { Kind::JsFrameworkCache }
    else if i == 6 { Kind::JsOutputDir }
    else if i == 7 { Kind::GenericBuild }
    else { Kind::PyCache }
}

/// The directory names of rule `i`.
pub open spec fn rule_names(i: int) -> Seq<Seq<char>> {
    if i == 0 { seq!["target"@] }
    else if i == 1 { seq!["node_modules"@] }
    else if i == 2 { seq![".dart_tool"@] }
    else if i == 3 { seq![".venv"@, "venv"@, ".tox"@, ".nox"@] }
    else if i == 4 { seq![".gradle"@] }
    else if i == 5 {
        seq![".next"@, ".nuxt"@, ".output"@, ".svelte-kit"@, ".turbo"@, ".parcel-cache"@,
            ".vite"@, ".astro"@, "coverage"@]
    }
    else if i == 6 { seq!["dist"@, "out"@] }
    else if i == 7 { seq!["build"@] }
    else {
        seq!["__pycache__"@, ".pytest_cache"@, ".mypy_cache"@, ".ruff_cache"@, ".hypothesis"@,
            ".ipynb_checkpoints"@]
    }
}

/// The sibling marker files of rule `i`.
pub open spec fn rule_markers(i: int) -> Seq<Seq<char>> {
    if i == 0 { seq!["Cargo.toml"@] }
    else if i == 1 { seq!["package.json"@] }
    else if i == 2 { seq!["pubspec.yaml"@] }
    else if i == 3 {
        seq!["pyproject.toml"@, "requirements.txt"@, "setup.py"@, "setup.cfg"@, "Pipfile"@,
            "uv.lock"@]
    }
    else if i == 4 {
        seq!["settings.gradle"@, "settings.gradle.kts"@, "build.gradle"@, "build.gradle.kts"@,
            "gradlew"@]
    }
    else if i == 5 { seq!["package.json"@] }
    else if i == 6 { seq!["package.json"@] }
    else if i == 7 {
        seq!["pubspec.yaml"@, "settings.gradle"@, "settings.gradle.kts"@, "build.gradle"@,
            "build.gradle.kts"@, "package.json"@]
    }
    else { seq![] }
}

/// The rule table, in matching order.
pub fn rules() -> (r: Vec<Rule>)
    ensures
        r@.len() == rule_count(),
        forall|i: int| #![trigger r@[i]] 0 <= i < rule_count() ==> {
            &&& r@[i].kind == rule_kind(i)
            &&& str_views(r@[i].names@) == rule_names(i)
            &&& str_views(r@[i].markers@) == rule_markers(i)
        },
{
    let r = vec![
        Rule { kind: Kind::RustTarget, names: &["target"], markers: &["Cargo.toml"] },
        Rule { kind: Kind::NodeModules, names: &["node_modules"], markers: &["package.json"] },
        Rule { kind: Kind::DartToolDeps, names: &[".dart_tool"], markers: &["pubspec.yaml"] },
        Rule {
            kind: Kind::PyVenv,
            names: &[".venv", "venv", ".tox", ".nox"],
            markers: &[
                "pyproject.toml",
                "requirements.txt",
                "setup.py",
                "setup.cfg",
                "Pipfile",
                "uv.lock",
            ],
        },
        Rule {
            kind: Kind::GradleLocal,
            names: &[".gradle"],
            markers: &[
                "settings.gradle",
                "settings.gradle.kts",
                "build.gradle",
                "build.gradle.kts",
                "gradlew",
            ],
        },
        Rule {
            kind: Kind::JsFrameworkCache,
            names: &[
                ".next",
                ".nuxt",
                ".output",
                ".svelte-kit",
                ".turbo",
                ".parcel-cache",
                ".vite",
                ".astro",
                "coverage",
            ],
            markers: &["package.json"],
        },
        Rule { kind: Kind::JsOutputDir, names: &["dist", "out"], markers: &["package.json"] },
        Rule {
            kind: Kind::GenericBuild,
            names: &["build"],
            markers: &[
                "pubspec.yaml",
                "settings.gradle",
                "settings.gradle.kts",
                "build.gradle",
                "build.gradle.kts",
                "package.json",
            ],
        },
        Rule {
            kind: Kind::PyCache,
            names: &[
                "__pycache__",
                ".pytest_cache",
                ".mypy_cache",
                ".ruff_cache",
                ".hypothesis",
                ".ipynb_checkpoints",
            ],
            markers: &[],
        },
    ];
    assert(str_views(r@[0].names@) =~= rule_names(0));
    r
}


/// Rule `i`'s marker condition, given the marker files found beside the
/// directory and whether the directory carries cargo's own target stamps.
/// For `target`, cargo's stamps (or a `Cargo.toml` sibling, folded into
/// `cargo_target`) decide instead of the marker list.
pub open spec fn marker_ok(i: int, present: Seq<Seq<char>>, cargo_target: bool) -> bool {
    if rule_kind(i) == Kind::RustTarget {
        cargo_target
    } else {
        rule_markers(i).len() == 0 || exists|j: int|
            0 <= j < rule_markers(i).len() && present.contains(#[trigger] rule_markers(i)[j])
    }
}

/// Rule `i` matches a directory called `name`.
pub open spec fn rule_fires(i: int, name: Seq<char>, present: Seq<Seq<char>>, cargo_target: bool) -> bool {
    rule_names(i).contains(name) && marker_ok(i, present, cargo_target)
}

/// The kind of the first rule at or after `i` that fires.
pub open spec fn first_match_from(i: int, name: Seq<char>, present: Seq<Seq<char>>, cargo_target: bool) -> Option<Kind>
    decreases rule_count() - i,
{
    if i < 0 || i >= rule_count() {
        None
    } else if rule_fires(i, name, present, cargo_target) {
        Some(rule_kind(i))
    } else {
        first_match_from(i + 1, name, present, cargo_target)
    }
}

/// The kind of a directory: the first rule, in table order, whose name and
/// marker conditions both hold.
pub open spec fn classify(name: Seq<char>, present: Seq<Seq<char>>, cargo_target: bool) -> Option<Kind> {
    first_match_from(0, name, present, cargo_target)
}

/// Does a directory look like a cargo target directory? A `Cargo.toml` beside
/// it, or cargo's own `CACHEDIR.TAG` / `.rustc_info.json` inside it (target
/// dirs are relocatable, so the stamps count on their own).
pub fn is_cargo_target(cargo_toml_beside: bool, cachedir_tag_inside: bool, rustc_info_inside: bool) -> (r: bool)
    ensures
        r == (cargo_toml_beside || cachedir_tag_inside || rustc_info_inside),
{
    cargo_toml_beside || cachedir_tag_inside || rustc_info_inside
}

/// Does any of `markers` appear in `present`?
fn any_present(markers: &[&str], present: &Vec<String>) -> (r: bool)
    ensures
        r == exists|j: int|
            0 <= j < str_views(markers@).len() && string_views(present@).contains(
                #[trigger] str_views(markers@)[j],
            ),
{
    let mut j: usize = 0;
    while j < markers.len()
        invariant
            j <= markers@.len(),
            forall|k: int| 0 <= k < j ==> !string_views(present@).contains(#[trigger] str_views(markers@)[k]),
        decreases markers@.len() - j,
    {
        if vec_has(present, markers[j]) {
            assert(str_views(markers@)[j as int] == markers@[j as int]@);
            return true;
        }
        assert(str_views(markers@)[j as int] == markers@[j as int]@);
        j = j + 1;
    }
    false
}

/// The kind of the directory called `name`, given the marker files found beside
/// it (`present`) and whether it is a cargo target (`cargo_target`, see
/// [`is_cargo_target`]). The first rule whose name and marker conditions hold
/// wins; `None` when no rule fires.
pub fn match_dir(name: &str, present: &Vec<String>, cargo_target: bool) -> (k: Option<Kind>)
    ensures
        k == classify(name@, string_views(present@), cargo_target),
{
    let table = rules();
    let mut i: usize = 0;
    while i < table.len()
        invariant
            table@.len() == rule_count(),
            forall|q: int| #![trigger table@[q]] 0 <= q < rule_count() ==> {
                &&& table@[q].kind == rule_kind(q)
                &&& str_views(table@[q].names@) == rule_names(q)
                &&& str_views(table@[q].markers@) == rule_markers(q)
            },
            0 <= i <= rule_count(),
            classify(name@, string_views(present@), cargo_target)
                == first_match_from(i as int, name@, string_views(present@), cargo_target),
        decreases table@.len() - i,
    {
        let rule = &table[i];
        assert(table@[i as int] == *rule);
        if slice_has(rule.names, name) {
            let ok = if rule.kind == Kind::RustTarget {
                cargo_target
            } else {
                rule.markers.len() == 0 || any_present(rule.markers, present)
            };
            if ok {
                return Some(rule.kind);
            }
        }
        i = i + 1;
    }
    None
}

/// The directories beside which markers must be probed for a directory
/// called `name`: the marker lists of every non-`target` rule naming it (in
/// rule order), and whether cargo's target facts are needed.
pub open spec fn probe_markers_from(i: int, name: Seq<char>) -> Seq<Seq<char>>
    decreases rule_count() - i,
{
    if i < 0 || i >= rule_count() {
        seq![]
    } else {
        (if rule_kind(i) != Kind::RustTarget && rule_names(i).contains(name) {
            rule_markers(i)
        } else {
            seq![]
        }) + probe_markers_from(i + 1, name)
    }
}

/// What the caller must probe before [`match_dir`] can decide.
pub struct MarkerProbe {
    /// Marker files whose presence beside the directory matters.
    pub markers: Vec<&'static str>,
    /// Whether the cargo target facts of [`is_cargo_target`] matter.
    pub cargo_facts: bool,
}

/// What to probe for a directory called `name`: only the markers of rules
/// that name it, so a walk costs no stat calls for unrelated directories.
pub fn markers_to_probe(name: &str) -> (p: MarkerProbe)
    ensures
        str_views(p.markers@) == probe_markers_from(0, name@),
        p.cargo_facts == rule_names(0).contains(name@),
{
    let table = rules();
    let mut out: Vec<&'static str> = Vec::new();
    let mut cargo_facts = false;
    let mut i: usize = 0;
    while i < table.len()
        invariant
            table@.len() == rule_count(),
            forall|q: int| #![trigger table@[q]] 0 <= q < rule_count() ==> {
                &&& table@[q].kind == rule_kind(q)
                &&& str_views(table@[q].names@) == rule_names(q)
                &&& str_views(table@[q].markers@) == rule_markers(q)
            },
            0 <= i <= rule_count(),
            str_views(out@) + probe_markers_from(i as int, name@) == probe_markers_from(0, name@),
            cargo_facts == (i > 0 && rule_names(0).contains(name@)),
        decreases table@.len() - i,
    {
        let rule = &table[i];
        assert(table@[i as int] == *rule);
        let named = slice_has(rule.names, name);
        if named && rule.kind == Kind::RustTarget {
            cargo_facts = true;
        }
        if named && rule.kind != Kind::RustTarget {
            let mut j: usize = 0;
            let ghost before = out@;
            while j < rule.markers.len()
                invariant
                    j <= rule.markers@.len(),
                    out@ == before + rule.markers@.subrange(0, j as int),
                decreases rule.markers@.len() - j,
            {
                out.push(rule.markers[j]);
                assert(out@ =~= before + rule.markers@.subrange(0, j + 1));
                j = j + 1;
            }
            assert(rule.markers@.subrange(0, rule.markers@.len() as int) =~= rule.markers@);
            assert(str_views(out@) =~= str_views(before) + str_views(rule.markers@));
        }
        assert(str_views(out@) + probe_markers_from(i + 1, name@) =~= probe_markers_from(0, name@));
        i = i + 1;
    }
    assert(probe_markers_from(rule_count(), name@) =~= seq![]);
    assert(str_views(out@) =~= probe_markers_from(0, name@));
    MarkerProbe { markers: out, cargo_facts }
}

/// Directory names the walker never descends into.
pub open spec fn skip_dir_names() -> Seq<Seq<char>> {
    seq![".git"@, "node_modules"@, "target"@, ".venv"@, "venv"@, ".tox"@, ".nox"@, ".dart_tool"@,
        ".gradle"@, "__pycache__"@, ".svn"@, ".hg"@, "Pods"@, ".rldyour-cleaner-pending"@]
}

/// Is `name` one of the directory names the walker never descends into?
/// Matched artifacts are handled whole, dependency trees are opaque, and
/// version-control state is never an artifact.
pub fn in_skip_dirs(name: &str) -> (r: bool)
    ensures
        r == skip_dir_names().contains(name@),
{
    let list: &[&str] = &[
        ".git",
        "node_modules",
        "target",
        ".venv",
        "venv",
        ".tox",
        ".nox",
        ".dart_tool",
        ".gradle",
        "__pycache__",
        ".svn",
        ".hg",
        "Pods",
        ".rldyour-cleaner-pending",
    ];
    assert(str_views(list@) =~= skip_dir_names());
    slice_has(list, name)
}


proof fn first_match_fires(i: int, name: Seq<char>, present: Seq<Seq<char>>, cargo_target: bool)
    ensures
        first_match_from(i, name, present, cargo_target) matches Some(k) ==> exists|j: int|
            i <= j < rule_count() && rule_kind(j) == k && #[trigger] rule_fires(j, name, present, cargo_target),
    decreases rule_count() - i,
{
    if 0 <= i < rule_count() && !rule_fires(i, name, present, cargo_target) {
        first_match_fires(i + 1, name, present, cargo_target);
    }
}

/// A directory name alone is never enough: a directory classified as some
/// kind has a rule of that kind whose name and marker conditions both hold.
/// With no marker beside it and no cargo stamp, only a python cache (which
/// matches anywhere) can be recognized.
pub proof fn name_alone_is_never_enough(name: Seq<char>, present: Seq<Seq<char>>, cargo_target: bool)
    ensures
        classify(name, present, cargo_target) matches Some(k) ==> exists|i: int|
            0 <= i < rule_count() && rule_kind(i) == k && #[trigger] rule_fires(i, name, present, cargo_target),
        classify(name, seq![], false) matches Some(k) ==> k == Kind::PyCache,
{
    first_match_fires(0, name, present, cargo_target);
    first_match_fires(0, name, seq![], false);
    if classify(name, seq![], false) is Some {
        let k = classify(name, seq![], false).unwrap();
        let i = choose|i: int| 0 <= i < rule_count() && rule_kind(i) == k && #[trigger] rule_fires(i, name, seq![], false);
        if i < rule_count() - 1 {
            assert(rule_markers(i).len() > 0);
            assert(!marker_ok(i, seq![], false));
        }
    }
}

/// A name no rule before the framework-cache rule lists, and that rule
/// lists, is classified as a framework cache beside a `package.json`.
proof fn framework_name_classifies(n: Seq<char>, present: Seq<Seq<char>>, cargo_target: bool)
    requires
        forall|i: int| 0 <= i < 5 ==> !#[trigger] rule_names(i).contains(n),
        rule_names(5).contains(n),
        present.contains("package.json"@),
    ensures
        classify(n, present, cargo_target) == Some(Kind::JsFrameworkCache),
{
    assert(!rule_names(0).contains(n));
    assert(!rule_names(1).contains(n));
    assert(!rule_names(2).contains(n));
    assert(!rule_names(3).contains(n));
    assert(!rule_names(4).contains(n));
    assert(marker_ok(5, present, cargo_target)) by {
        assert(rule_markers(5)[0] == "package.json"@);
    }
    assert(first_match_from(5, n, present, cargo_target) == Some(Kind::JsFrameworkCache));
    assert(first_match_from(4, n, present, cargo_target) == Some(Kind::JsFrameworkCache));
    assert(first_match_from(3, n, present, cargo_target) == Some(Kind::JsFrameworkCache));
    assert(first_match_from(2, n, present, cargo_target) == Some(Kind::JsFrameworkCache));
    assert(first_match_from(1, n, present, cargo_target) == Some(Kind::JsFrameworkCache));
}

/// `n` is none of the names of `names`.
proof fn not_listed(names: Seq<Seq<char>>, n: Seq<char>)
    requires
        forall|j: int| 0 <= j < names.len() ==> names[j] != n,
    ensures
        !names.contains(n),
{
}

/// The JS framework caches and coverage output (`.next`, `.nuxt`, `.output`,
/// `.svelte-kit`, `.turbo`, `.parcel-cache`, `.vite`, `.astro`, `coverage`)
/// are each recognized as a framework cache wherever a `package.json` sits
/// beside them, whatever else is there.
pub proof fn framework_caches_beside_package_json(present: Seq<Seq<char>>, cargo_target: bool)
    requires
        present.contains("package.json"@),
    ensures
        classify(".next"@, present, cargo_target) == Some(Kind::JsFrameworkCache),
        classify(".nuxt"@, present, cargo_target) == Some(Kind::JsFrameworkCache),
        classify(".output"@, present, cargo_target) == Some(Kind::JsFrameworkCache),
        classify(".svelte-kit"@, present, cargo_target) == Some(Kind::JsFrameworkCache),
        classify(".turbo"@, present, cargo_target) == Some(Kind::JsFrameworkCache),
        classify(".parcel-cache"@, present, cargo_target) == Some(Kind::JsFrameworkCache),
        classify(".vite"@, present, cargo_target) == Some(Kind::JsFrameworkCache),
        classify(".astro"@, present, cargo_target) == Some(Kind::JsFrameworkCache),
        classify("coverage"@, present, cargo_target) == Some(Kind::JsFrameworkCache),
{
    reveal_strlit(".next");
    reveal_strlit(".nuxt");
    reveal_strlit(".output");
    reveal_strlit(".svelte-kit");
    reveal_strlit(".turbo");
    reveal_strlit(".parcel-cache");
    reveal_strlit(".vite");
    reveal_strlit(".astro");
    reveal_strlit("coverage");
    reveal_strlit("target");
    reveal_strlit("node_modules");
    reveal_strlit(".dart_tool");
    reveal_strlit(".venv");
    reveal_strlit("venv");
    reveal_strlit(".tox");
    reveal_strlit(".nox");
    reveal_strlit(".gradle");
    let names: Seq<Seq<char>> = seq![".next"@, ".nuxt"@, ".output"@, ".svelte-kit"@, ".turbo"@,
        ".parcel-cache"@, ".vite"@, ".astro"@, "coverage"@];
    assert forall|k: int| 0 <= k < names.len() implies classify(#[trigger] names[k], present, cargo_target)
        == Some(Kind::JsFrameworkCache) by {
        let n = names[k];
        assert(rule_names(5)[k] == n);
        assert forall|i: int| 0 <= i < 5 implies !#[trigger] rule_names(i).contains(n) by {
            let ns = rule_names(i);
            assert forall|j: int| 0 <= j < ns.len() implies ns[j] != n by {
                assert(ns[j].len() != n.len() || ns[j][0] != n[0] || ns[j][1] != n[1] || ns[j][2] != n[2]);
            }
            not_listed(ns, n);
        }
        framework_name_classifies(n, present, cargo_target);
    }
    assert(names[0] == ".next"@);
    assert(names[1] == ".nuxt"@);
    assert(names[2] == ".output"@);
    assert(names[3] == ".svelte-kit"@);
    assert(names[4] == ".turbo"@);
    assert(names[5] == ".parcel-cache"@);
    assert(names[6] == ".vite"@);
    assert(names[7] == ".astro"@);
    assert(names[8] == "coverage"@);
}

} // verus!
