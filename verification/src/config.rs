//! User-editable policy. Parsed from `config.toml` under the platform config
//! dir; every field has a default so a missing file means "balanced
//! defaults". Reading and parsing the file is the caller's part; this module
//! turns the parsed values into the effective policy.

use crate::os::{expand_home_spec, join_spec, path_join, Platform};
use crate::text::{concat, string_views};
use vstd::prelude::*;

verus! {

/// How a candidate earns (or loses) the right to be deleted.
#[derive(Debug, Clone, Copy, PartialEq, Eq, Structural)]
pub enum Gate {
    /// The artifact's own newest mtime must be older than `stale_days`.
    /// Right for outputs that refresh whenever the project is built.
    ArtifactStale,
    /// The project's own activity must be older than `dep_stale_days`.
    /// Right for dependency trees that are not rewritten on use.
    ProjectStale,
}

/// The effective policy.
#[derive(Debug, Clone)]
pub struct Policy {
    pub roots: Vec<String>,
    pub protect: Vec<String>,
    pub stale_days: u64,
    pub dep_stale_days: u64,
    pub incremental_days: u64,
    pub cache_entry_days: u64,
    pub guard_fresh_minutes: u64,
    pub pressure_pct: u64,
    pub pressure: Pressure,
    pub categories: Categories,
    pub min_size_bytes: u64,
    pub extra_cache_paths: Vec<String>,
}

/// The tighter ages that apply under disk pressure.
#[derive(Debug, Clone, Copy)]
pub struct Pressure {
    pub stale_days: u64,
    pub dep_stale_days: u64,
    pub incremental_days: u64,
    pub cache_entry_days: u64,
}

/// Which areas the cleaner touches.
#[derive(Debug, Clone, Copy)]
pub struct Categories {
    /// Build/artifact directories found under `roots`.
    pub projects: bool,
    /// `target/*/incremental` gets its own (shorter) age gate.
    pub incremental: bool,
    /// Tool caches under the user's home.
    pub home_caches: bool,
    /// Old devin CLI versions, except `current`.
    pub devin_versions: bool,
    /// `~/.cargo/registry`: off, cargo's own gc owns it.
    pub cargo_registry: bool,
    /// The platform trash: off, deleted files are user data.
    pub trash: bool,
}

/// The policy file as parsed, before `~` expansion.
#[derive(Debug, Clone)]
pub struct FilePolicy {
    pub roots: Vec<String>,
    pub protect: Vec<String>,
    pub stale_days: u64,
    pub dep_stale_days: u64,
    pub incremental_days: u64,
    pub cache_entry_days: u64,
    pub guard_fresh_minutes: u64,
    pub pressure_pct: u64,
    pub pressure: FilePressure,
    pub categories: FileCategories,
    pub min_size_bytes: u64,
    pub extra_cache_paths: Vec<String>,
}

/// The `[pressure]` table as parsed.
#[derive(Debug, Clone, Copy)]
pub struct FilePressure {
    pub stale_days: u64,
    pub dep_stale_days: u64,
    pub incremental_days: u64,
    pub cache_entry_days: u64,
}

/// The `[categories]` table as parsed.
#[derive(Debug, Clone, Copy)]
pub struct FileCategories {
    pub projects: bool,
    pub incremental: bool,
    pub home_caches: bool,
    pub devin_versions: bool,
    pub cargo_registry: bool,
    pub trash: bool,
}

/// The balanced routine profile of the `[pressure]` table.
pub open spec fn is_balanced_pressure(p: FilePressure) -> bool {
    &&& p.stale_days == 7
    &&& p.dep_stale_days == 21
    &&& p.incremental_days == 3
    &&& p.cache_entry_days == 14
}

/// The default `[categories]`: everything but the cargo registry and trash.
pub open spec fn is_default_categories(c: FileCategories) -> bool {
    &&& c.projects
    &&& c.incremental
    &&& c.home_caches
    &&& c.devin_versions
    &&& !c.cargo_registry
    &&& !c.trash
}

/// The balanced profile: the values the shipped default file documents.
pub open spec fn is_balanced_file(f: FilePolicy) -> bool {
    &&& string_views(f.roots@) == seq!["~/Developer"@]
    &&& f.protect@.len() == 0
    &&& f.stale_days == 14
    &&& f.dep_stale_days == 30
    &&& f.incremental_days == 7
    &&& f.cache_entry_days == 30
    &&& f.guard_fresh_minutes == 15
    &&& f.pressure_pct == 75
    &&& is_balanced_pressure(f.pressure)
    &&& is_default_categories(f.categories)
    &&& f.min_size_bytes == 0
    &&& f.extra_cache_paths@.len() == 0
}

impl Default for FilePressure {
    fn default() -> (p: Self)
        ensures
            is_balanced_pressure(p),
    {
        FilePressure { stale_days: 7, dep_stale_days: 21, incremental_days: 3, cache_entry_days: 14 }
    }
}

impl Default for FileCategories {
    fn default() -> (c: Self)
        ensures
            is_default_categories(c),
    {
        FileCategories {
            projects: true,
            incremental: true,
            home_caches: true,
            devin_versions: true,
            cargo_registry: false,
            trash: false,
        }
    }
}

impl Default for FilePolicy {
    fn default() -> (f: Self)
        ensures
            is_balanced_file(f),
    {
        let mut roots: Vec<String> = Vec::new();
        roots.push(String::from_str("~/Developer"));
        let f = FilePolicy {
            roots,
            protect: Vec::new(),
            stale_days: 14,
            dep_stale_days: 30,
            incremental_days: 7,
            cache_entry_days: 30,
            guard_fresh_minutes: 15,
            pressure_pct: 75,
            pressure: FilePressure::default(),
            categories: FileCategories::default(),
            min_size_bytes: 0,
            extra_cache_paths: Vec::new(),
        };
        assert(string_views(f.roots@) =~= seq!["~/Developer"@]);
        f
    }
}

/// The effective ages for one disk-pressure state.
#[derive(Debug, Clone, Copy)]
pub struct Ages {
    pub stale: u64,
    pub dep_stale: u64,
    pub incremental: u64,
    pub cache_entry: u64,
}

/// The ages a policy yields: the `[pressure]` values under pressure, the
/// routine ones otherwise.
pub open spec fn ages_of(p: Policy, under_pressure: bool) -> Ages {
    if under_pressure {
        Ages {
            stale: p.pressure.stale_days,
            dep_stale: p.pressure.dep_stale_days,
            incremental: p.pressure.incremental_days,
            cache_entry: p.pressure.cache_entry_days,
        }
    } else {
        Ages {
            stale: p.stale_days,
            dep_stale: p.dep_stale_days,
            incremental: p.incremental_days,
            cache_entry: p.cache_entry_days,
        }
    }
}

impl Policy {
    /// Effective ages for the current disk-pressure state.
    pub fn ages(&self, under_pressure: bool) -> (a: Ages)
        ensures
            a == ages_of(*self, under_pressure),
    {
        let p = &self.pressure;
        Ages {
            stale: if under_pressure { p.stale_days } else { self.stale_days },
            dep_stale: if under_pressure { p.dep_stale_days } else { self.dep_stale_days },
            incremental: if under_pressure { p.incremental_days } else { self.incremental_days },
            cache_entry: if under_pressure { p.cache_entry_days } else { self.cache_entry_days },
        }
    }

    /// The balanced profile for a user whose home directory is `home`.
    pub fn defaults(platform: Platform, home: &str) -> (p: Policy)
        ensures
            exists|f: FilePolicy| is_balanced_file(f) && policy_of(f, platform, home@, p),
    {
        let f = FilePolicy::default();
        let p = policy_from(f, platform, home);
        p
    }
}

/// The age bound of a gate.
pub open spec fn bound_for_gate(a: Ages, g: Gate) -> u64 {
    match g {
        Gate::ArtifactStale => a.stale,
        Gate::ProjectStale => a.dep_stale,
    }
}

impl Ages {
    /// The age bound that actually decides a candidate with this gate.
    pub fn for_gate(self, gate: Gate) -> (d: u64)
        ensures
            d == bound_for_gate(self, gate),
    {
        match gate {
            Gate::ArtifactStale => self.stale,
            Gate::ProjectStale => self.dep_stale,
        }
    }
}

/// Expand a leading `~` against `home`; every path string of the policy
/// flows through it.
pub fn expand_home(platform: Platform, raw: &str, home: &str) -> (r: String)
    ensures
        r@ == expand_home_spec(platform, raw@, home@),
{
    crate::os::expand_home(platform, raw, home)
}

/// `config.toml` under the platform config root `config_dir`.
pub fn config_path(platform: Platform, config_dir: &str) -> (r: String)
    ensures
        r@ == join_spec(platform, config_dir@, "config.toml"@),
{
    path_join(platform, config_dir, "config.toml")
}

/// Each entry of `raw` expanded against `home`, in order.
pub open spec fn expanded_all(platform: Platform, raw: Seq<String>, out: Seq<String>, home: Seq<char>) -> bool {
    &&& out.len() == raw.len()
    &&& forall|i: int| 0 <= i < raw.len() ==> #[trigger] out[i]@ == expand_home_spec(platform, raw[i]@, home)
}

/// `p` is the effective policy of the parsed file `f`: every path string has
/// its `~` expanded (protect patterns too, so `~/x` matches), every number and
/// flag is taken as written (no clamp: a `pressure_pct` above 100 means never).
pub open spec fn policy_of(f: FilePolicy, platform: Platform, home: Seq<char>, p: Policy) -> bool {
    &&& expanded_all(platform, f.roots@, p.roots@, home)
    &&& expanded_all(platform, f.protect@, p.protect@, home)
    &&& expanded_all(platform, f.extra_cache_paths@, p.extra_cache_paths@, home)
    &&& p.stale_days == f.stale_days
    &&& p.dep_stale_days == f.dep_stale_days
    &&& p.incremental_days == f.incremental_days
    &&& p.cache_entry_days == f.cache_entry_days
    &&& p.guard_fresh_minutes == f.guard_fresh_minutes
    &&& p.pressure_pct == f.pressure_pct
    &&& p.pressure.stale_days == f.pressure.stale_days
    &&& p.pressure.dep_stale_days == f.pressure.dep_stale_days
    &&& p.pressure.incremental_days == f.pressure.incremental_days
    &&& p.pressure.cache_entry_days == f.pressure.cache_entry_days
    &&& p.categories.projects == f.categories.projects
    &&& p.categories.incremental == f.categories.incremental
    &&& p.categories.home_caches == f.categories.home_caches
    &&& p.categories.devin_versions == f.categories.devin_versions
    &&& p.categories.cargo_registry == f.categories.cargo_registry
    &&& p.categories.trash == f.categories.trash
    &&& p.min_size_bytes == f.min_size_bytes
}

fn expand_all(platform: Platform, raw: &Vec<String>, home: &str) -> (out: Vec<String>)
    ensures
        expanded_all(platform, raw@, out@, home@),
{
    let mut out: Vec<String> = Vec::new();
    let mut i: usize = 0;
    while i < raw.len()
        invariant
            i <= raw@.len(),
            out@.len() == i,
            forall|j: int| 0 <= j < i ==> #[trigger] out@[j]@ == expand_home_spec(platform, raw@[j]@, home@),
        decreases raw@.len() - i,
    {
        out.push(crate::os::expand_home(platform, raw[i].as_str(), home));
        i = i + 1;
    }
    out
}

/// The effective policy of a parsed policy file.
pub fn policy_from(f: FilePolicy, platform: Platform, home: &str) -> (p: Policy)
    ensures
        policy_of(f, platform, home@, p),
{
    Policy {
        roots: expand_all(platform, &f.roots, home),
        protect: expand_all(platform, &f.protect, home),
        stale_days: f.stale_days,
        dep_stale_days: f.dep_stale_days,
        incremental_days: f.incremental_days,
        cache_entry_days: f.cache_entry_days,
        guard_fresh_minutes: f.guard_fresh_minutes,
        pressure_pct: f.pressure_pct,
        pressure: Pressure {
            stale_days: f.pressure.stale_days,
            dep_stale_days: f.pressure.dep_stale_days,
            incremental_days: f.pressure.incremental_days,
            cache_entry_days: f.pressure.cache_entry_days,
        },
        categories: Categories {
            projects: f.categories.projects,
            incremental: f.categories.incremental,
            home_caches: f.categories.home_caches,
            devin_versions: f.categories.devin_versions,
            cargo_registry: f.categories.cargo_registry,
            trash: f.categories.trash,
        },
        min_size_bytes: f.min_size_bytes,
        extra_cache_paths: expand_all(platform, &f.extra_cache_paths, home),
    }
}

/// What reading and parsing the policy file found.
pub enum ConfigFile {
    /// No file at the path: the balanced defaults apply.
    Missing,
    /// The file exists but cannot be read; the reader's message.
    Unreadable(String),
    /// The file was read but does not parse; the parser's message.
    Unparsable(String),
    /// The parsed file.
    Parsed(FilePolicy),
}

/// The effective policy for what was found at `path`. A missing file means
/// the balanced defaults; a present-but-broken file is an error, never
/// defaults: silently applying defaults to a mistyped policy is how
/// deletions surprise people.
pub fn policy_from_file(path: &str, file: ConfigFile, platform: Platform, home: &str) -> (r: Result<Policy, String>)
    ensures
        match file {
            ConfigFile::Missing => r matches Ok(p) && (exists|f: FilePolicy|
                is_balanced_file(f) && policy_of(f, platform, home@, p)),
            ConfigFile::Unreadable(e) => r matches Err(m) && m@ == "cannot read "@ + path@ + ": "@ + e@,
            ConfigFile::Unparsable(e) => r matches Err(m) && m@ == "cannot parse "@ + path@ + ": "@ + e@,
            ConfigFile::Parsed(f) => r matches Ok(p) && policy_of(f, platform, home@, p),
        },
{
    match file {
        ConfigFile::Missing => Ok(Policy::defaults(platform, home)),
        ConfigFile::Unreadable(e) => {
            let mut m = concat("cannot read ", path);
            m.append(": ");
            m.append(e.as_str());
            Err(m)
        },
        ConfigFile::Unparsable(e) => {
            let mut m = concat("cannot parse ", path);
            m.append(": ");
            m.append(e.as_str());
            Err(m)
        },
        ConfigFile::Parsed(f) => Ok(policy_from(f, platform, home)),
    }
}

/// Does any root resolve to the filesystem root?
pub open spec fn any_root_is_fs_root(canonical: Seq<Option<String>>) -> bool {
    exists|i: int| 0 <= i < canonical.len() && (#[trigger] canonical[i] matches Some(c) && c@ == seq!['/'])
}

/// The filesystem root is never a legitimate scan root: refuse a policy one
/// of whose roots resolves to `/`. `canonical[i]` is the resolved form of
/// `policy.roots[i]` (`None` where it does not resolve).
pub fn refuse_filesystem_root(path: &str, policy: Policy, canonical: &Vec<Option<String>>) -> (r: Result<Policy, String>)
    requires
        canonical@.len() == policy.roots@.len(),
    ensures
        any_root_is_fs_root(canonical@) ==> (r matches Err(m) && m@ == path@ + ": '/' is not an allowed scan root"@),
        !any_root_is_fs_root(canonical@) ==> r == Ok::<Policy, String>(policy),
{
    let mut i: usize = 0;
    while i < canonical.len()
        invariant
            i <= canonical@.len(),
            forall|j: int| 0 <= j < i ==> !(#[trigger] canonical@[j] matches Some(c) && c@ == seq!['/']),
        decreases canonical@.len() - i,
    {
        proof {
            reveal_strlit("/");
            assert("/"@ =~= seq!['/']);
        }
        match &canonical[i] {
            Some(c) => {
                if crate::text::str_eq(c.as_str(), "/") {
                    assert(canonical@[i as int] matches Some(c) && c@ == seq!['/']);
                    return Err(concat(path, ": '/' is not an allowed scan root"));
                }
            },
            None => {},
        }
        i = i + 1;
    }
    Ok(policy)
}


/// The default policy file, written by `config --init`, so users see every
/// knob with its meaning next to it.
pub const DEFAULT_CONFIG: &'static str = r#"# rldyour-cleaner policy — every field is optional and defaults to the
# "balanced" profile below. Days are since last write/use; nothing is ever
# deleted while a process holds it open or wrote it recently.

# Directories scanned for project build artifacts (target/, node_modules/, ...).
roots = ["~/Developer"]

# Extra path substrings that must never be deleted (matched against the
# canonical candidate path; a leading ~ expands like in `roots`).
# Example: protect = ["~/Developer/client-abonmarket-frontend"]
protect = []

# --- routine thresholds (days) ---
stale_days = 14          # derived artifacts: target, build/, .next, __pycache__, ...
dep_stale_days = 30      # dependency dirs: node_modules, .venv, .dart_tool, ...
incremental_days = 7     # target/*/incremental inside active projects
cache_entry_days = 30    # entries inside ~/.cache/* tool caches
guard_fresh_minutes = 15 # never touch anything written this recently

# --- disk pressure ---
# When the filesystem holding any root is this full, the [pressure] ages apply
# instead. Set to 101 to disable pressure mode entirely.
pressure_pct = 75

[pressure]
stale_days = 7
dep_stale_days = 21
incremental_days = 3
cache_entry_days = 14

[categories]
projects = true        # artifact dirs under `roots`
incremental = true     # prune stale incremental caches inside live target dirs
home_caches = true     # uv, go, bun, npm, pub, gradle, playwright, ...
devin_versions = true  # old devin CLI versions under ~/.local/share/devin
cargo_registry = false # cargo >=1.88 garbage-collects ~/.cargo itself
trash = false          # ~/.local/share/Trash is user data, opt in deliberately

# Extra directories treated like `home_caches` entries (age-evicted by files).
extra_cache_paths = []
"#;

} // verus!
