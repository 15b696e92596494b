//! Tool caches under `$HOME`: content-addressed stores and download caches
//! that regrow on demand. Three strategies:
//!
//! * `AgeEvict`: delete files older than `cache_entry_days` inside the
//!   cache, then drop emptied dirs; the cache root stays.
//! * `Command`: delegate to the tool's own GC when the binary is on PATH;
//!   it knows its own invariants.
//! * `KeepCurrent`: drop every sibling version dir but the `current` one.
//!
//! Processing a cache alternates probes and mutations (the caller's) with
//! decisions (this module's): [`process`] and [`preview`] map each probe
//! result to the next action. The preview makes the same decisions and never
//! asks for a mutation.

use crate::os::expand_home_spec;
use crate::text::{chars_of, lines_chars, lines_spec, string_of, trim_chars, trim_spec, vec_views, str_eq, concat, decimal, decimal_string, join_decimals, join_strings, join_strs, joined, joined_decimals, str_views, string_views};
use vstd::prelude::*;

verus! {

/// How a cache is cleaned.
#[derive(Debug, Clone, Copy)]
pub enum Strategy {
    /// Evict files older than `days` inside the cache.
    AgeEvict { days: u64 },
    /// Run `argv[0] argv[1..]` when `argv[0]` resolves on PATH; else evict
    /// with `fallback_days` (0: do nothing).
    Command { argv: &'static [&'static str], fallback_days: u64 },
    /// Delete sibling version dirs older than `keep_days`, except the
    /// `current` symlink's target.
    KeepCurrent { keep_days: u64 },
}

/// One tool cache.
#[derive(Debug)]
pub struct HomeCandidate {
    pub id: &'static str,
    pub path: String,
    pub strategy: Strategy,
    /// Only processed under disk pressure: for caches whose own GC wipes
    /// everything.
    pub pressure_only: bool,
}

/// What processing (or previewing) one cache did.
#[derive(Debug)]
pub struct CacheResult {
    pub id: String,
    pub freed_bytes: u64,
    pub detail: String,
}

fn hc(id: &'static str, path: String, strategy: Strategy) -> (c: HomeCandidate)
    ensures
        c.id == id,
        c.path == path,
        c.strategy == strategy,
        !c.pressure_only,
{
    HomeCandidate { id, path, strategy, pressure_only: false }
}

/// The number of built-in caches.
pub open spec fn builtin_count() -> int {
    14
}

/// The id of built-in cache `i`.
pub open spec fn builtin_id(i: int) -> Seq<char> {
    seq!["uv"@, "go-modcache"@, "go-build"@, "bun"@, "npm"@, "pub"@, "gradle"@, "pip"@,
        "pre-commit"@, "playwright"@, "puppeteer"@, "codex-runtimes"@, "pnpm-store"@,
        "devin-versions"@][i]
}

/// The directory of built-in cache `i`, before `~` expansion.
pub open spec fn builtin_dir(i: int) -> Seq<char> {
    seq!["~/.cache/uv"@, "~/go/pkg/mod"@, "~/.cache/go-build"@, "~/.bun/install/cache"@,
        "~/.npm/_cacache"@, "~/.pub-cache"@, "~/.gradle/caches"@, "~/.cache/pip"@,
        "~/.cache/pre-commit"@, "~/.cache/ms-playwright"@, "~/.cache/puppeteer"@,
        "~/.cache/codex-runtimes"@, "~/.local/share/pnpm/store"@,
        "~/.local/share/devin/cli/_versions"@][i]
}

/// The strategy of built-in cache `i`: `uv` delegates to `uv cache prune`
/// (falling back to eviction); the go module cache delegates to
/// `go clean -modcache` with no fallback (a partial removal of its
/// read-only trees fails halfway); devin keeps its current version; the
/// rest evict by age.
pub open spec fn builtin_strategy(i: int, s: Strategy, d: u64, dep: u64) -> bool {
    if i == 0 {
        s matches Strategy::Command { argv, fallback_days }
            && str_views(argv@) == seq!["uv"@, "cache"@, "prune"@] && fallback_days == d
    } else if i == 1 {
        s matches Strategy::Command { argv, fallback_days }
            && str_views(argv@) == seq!["go"@, "clean"@, "-modcache"@] && fallback_days == 0
    } else if i == 13 {
        s == Strategy::KeepCurrent { keep_days: dep }
    } else {
        s == Strategy::AgeEvict { days: d }
    }
}

/// Built-in cache `i` as configured for home `home` with entry age `d` and
/// dependency age `dep`. Only the go module cache is pressure-only: its GC
/// wipes everything and forces a full re-download.
pub open spec fn is_builtin(i: int, c: HomeCandidate, d: u64, dep: u64, platform: crate::os::Platform, home: Seq<char>) -> bool {
    &&& c.id@ == builtin_id(i)
    &&& c.path@ == expand_home_spec(platform, builtin_dir(i), home)
    &&& builtin_strategy(i, c.strategy, d, dep)
    &&& c.pressure_only == (i == 1)
}

/// The fixed cache set, then one age-evicted cache per extra path.
/// Every path exists or is skipped by the caller: machines only ever carry
/// a subset of these tools.
pub fn specs(
    cache_entry_days: u64,
    dep_stale_days: u64,
    extra: &Vec<String>,
    platform: crate::os::Platform,
    home: &str,
) -> (v: Vec<HomeCandidate>)
    ensures
        v@.len() == builtin_count() + extra@.len(),
        forall|i: int| 0 <= i < builtin_count() ==> is_builtin(i, #[trigger] v@[i], cache_entry_days, dep_stale_days, platform, home@),
        forall|j: int| 0 <= j < extra@.len() ==> {
            &&& (#[trigger] v@[builtin_count() + j]).id@ == "extra-cache"@
            &&& v@[builtin_count() + j].path@ == extra@[j]@
            &&& v@[builtin_count() + j].strategy == Strategy::AgeEvict { days: cache_entry_days }
            &&& !v@[builtin_count() + j].pressure_only
        },
{
    let d = cache_entry_days;
    let h = home;
    let mut v: Vec<HomeCandidate> = Vec::new();
    v.push(hc("uv", crate::os::expand_home(platform, "~/.cache/uv", h), Strategy::Command { argv: &["uv", "cache", "prune"], fallback_days: d }));
    v.push(HomeCandidate {
        id: "go-modcache",
        path: crate::os::expand_home(platform, "~/go/pkg/mod", h),
        strategy: Strategy::Command { argv: &["go", "clean", "-modcache"], fallback_days: 0 },
        pressure_only: true,
    });
    v.push(hc("go-build", crate::os::expand_home(platform, "~/.cache/go-build", h), Strategy::AgeEvict { days: d }));
    v.push(hc("bun", crate::os::expand_home(platform, "~/.bun/install/cache", h), Strategy::AgeEvict { days: d }));
    v.push(hc("npm", crate::os::expand_home(platform, "~/.npm/_cacache", h), Strategy::AgeEvict { days: d }));
    v.push(hc("pub", crate::os::expand_home(platform, "~/.pub-cache", h), Strategy::AgeEvict { days: d }));
    v.push(hc("gradle", crate::os::expand_home(platform, "~/.gradle/caches", h), Strategy::AgeEvict { days: d }));
    v.push(hc("pip", crate::os::expand_home(platform, "~/.cache/pip", h), Strategy::AgeEvict { days: d }));
    v.push(hc("pre-commit", crate::os::expand_home(platform, "~/.cache/pre-commit", h), Strategy::AgeEvict { days: d }));
    v.push(hc("playwright", crate::os::expand_home(platform, "~/.cache/ms-playwright", h), Strategy::AgeEvict { days: d }));
    v.push(hc("puppeteer", crate::os::expand_home(platform, "~/.cache/puppeteer", h), Strategy::AgeEvict { days: d }));
    v.push(hc("codex-runtimes", crate::os::expand_home(platform, "~/.cache/codex-runtimes", h), Strategy::AgeEvict { days: d }));
    v.push(hc("pnpm-store", crate::os::expand_home(platform, "~/.local/share/pnpm/store", h), Strategy::AgeEvict { days: d }));
    v.push(hc(
        "devin-versions",
        crate::os::expand_home(platform, "~/.local/share/devin/cli/_versions", h),
        Strategy::KeepCurrent { keep_days: dep_stale_days },
    ));
    assert forall|i: int| 0 <= i < builtin_count() implies is_builtin(i, #[trigger] v@[i], d, dep_stale_days, platform, home@) by {
        if i == 0 {
            match v@[0].strategy {
                Strategy::Command { argv, fallback_days } => {
                    assert(str_views(argv@) =~= seq!["uv"@, "cache"@, "prune"@]);
                },
                _ => {},
            }
        } else if i == 1 {
            match v@[1].strategy {
                Strategy::Command { argv, fallback_days } => {
                    assert(str_views(argv@) =~= seq!["go"@, "clean"@, "-modcache"@]);
                },
                _ => {},
            }
        }
    }
    let mut j: usize = 0;
    while j < extra.len()
        invariant
            j <= extra@.len(),
            v@.len() == builtin_count() + j,
            forall|i: int| 0 <= i < builtin_count() ==> is_builtin(i, #[trigger] v@[i], d, dep_stale_days, platform, home@),
            forall|k: int| 0 <= k < j ==> {
                &&& (#[trigger] v@[builtin_count() + k]).id@ == "extra-cache"@
                &&& v@[builtin_count() + k].path@ == extra@[k]@
                &&& v@[builtin_count() + k].strategy == Strategy::AgeEvict { days: d }
                &&& !v@[builtin_count() + k].pressure_only
            },
        decreases extra@.len() - j,
    {
        v.push(hc("extra-cache", extra[j].clone(), Strategy::AgeEvict { days: d }));
        j = j + 1;
    }
    v
}


/// The platform trash, opt-in: `~/.Trash` on macOS, the freedesktop
/// `Trash/files` under the local data dir elsewhere on Unix; none on Windows
/// (its recycle bin is not a plain directory). Entries older than `days` go.
pub fn trash_spec(days: u64, platform: crate::os::Platform, data_local_dir: &str, home: &str) -> (r: Option<HomeCandidate>)
    ensures
        platform == crate::os::Platform::Windows ==> r is None,
        platform == crate::os::Platform::MacOs ==> (r matches Some(c) && c.id@ == "trash"@
            && c.path@ == crate::os::join_spec(platform, home@, ".Trash"@)
            && c.strategy == Strategy::AgeEvict { days } && !c.pressure_only),
        platform == crate::os::Platform::Unix ==> (r matches Some(c) && c.id@ == "trash"@
            && c.path@ == crate::os::join_spec(platform, data_local_dir@, "Trash/files"@)
            && c.strategy == Strategy::AgeEvict { days } && !c.pressure_only),
{
    match platform {
        crate::os::Platform::Windows => None,
        crate::os::Platform::MacOs => Some(hc("trash", crate::os::path_join(platform, home, ".Trash"), Strategy::AgeEvict { days })),
        crate::os::Platform::Unix => Some(
            hc("trash", crate::os::path_join(platform, data_local_dir, "Trash/files"), Strategy::AgeEvict { days }),
        ),
    }
}

/// `~/.cargo/registry`, opt-in for toolchains whose cargo does not
/// garbage-collect its own home: entries older than `days` go.
pub fn cargo_registry_spec(days: u64, platform: crate::os::Platform, home: &str) -> (c: HomeCandidate)
    ensures
        c.id@ == "cargo-registry"@,
        c.path@ == expand_home_spec(platform, "~/.cargo/registry"@, home@),
        c.strategy == (Strategy::AgeEvict { days }),
        !c.pressure_only,
{
    hc("cargo-registry", crate::os::expand_home(platform, "~/.cargo/registry", home), Strategy::AgeEvict { days })
}

/// The trash cache of [`trash_spec`] for a platform that has one.
pub open spec fn is_trash(c: HomeCandidate, days: u64, platform: crate::os::Platform, data_local_dir: Seq<char>, home: Seq<char>) -> bool {
    &&& c.id@ == "trash"@
    &&& c.path@ == (if platform == crate::os::Platform::MacOs {
        crate::os::join_spec(platform, home, ".Trash"@)
    } else {
        crate::os::join_spec(platform, data_local_dir, "Trash/files"@)
    })
    &&& c.strategy == Strategy::AgeEvict { days }
    &&& !c.pressure_only
}

/// The cache of [`cargo_registry_spec`].
pub open spec fn is_cargo_registry(c: HomeCandidate, days: u64, platform: crate::os::Platform, home: Seq<char>) -> bool {
    &&& c.id@ == "cargo-registry"@
    &&& c.path@ == expand_home_spec(platform, "~/.cargo/registry"@, home)
    &&& c.strategy == Strategy::AgeEvict { days }
    &&& !c.pressure_only
}

/// Does the run's cache list include the trash? When the category is on and
/// the platform has a plain trash directory.
pub open spec fn includes_trash(cats: crate::config::Categories, platform: crate::os::Platform) -> bool {
    cats.trash && platform != crate::os::Platform::Windows
}

/// The caches a run visits, in order: none when the `home_caches` category
/// is off; otherwise the fixed set and the extra paths (see [`specs`]), the
/// trash when its category is on and the platform has one (entries older
/// than the dependency age), then `~/.cargo/registry` when its category is
/// on (entries older than the cache-entry age).
pub fn cache_set(
    cats: crate::config::Categories,
    ages: crate::config::Ages,
    extra: &Vec<String>,
    platform: crate::os::Platform,
    data_local_dir: &str,
    home: &str,
) -> (v: Vec<HomeCandidate>)
    ensures
        !cats.home_caches ==> v@.len() == 0,
        cats.home_caches ==> {
            let n = builtin_count() + extra@.len();
            let t = if includes_trash(cats, platform) { 1int } else { 0 };
            &&& v@.len() == n + t + (if cats.cargo_registry { 1int } else { 0 })
            &&& forall|i: int| 0 <= i < builtin_count() ==> is_builtin(i, #[trigger] v@[i], ages.cache_entry, ages.dep_stale, platform, home@)
            &&& forall|j: int| 0 <= j < extra@.len() ==> {
                &&& (#[trigger] v@[builtin_count() + j]).id@ == "extra-cache"@
                &&& v@[builtin_count() + j].path@ == extra@[j]@
                &&& v@[builtin_count() + j].strategy == Strategy::AgeEvict { days: ages.cache_entry }
                &&& !v@[builtin_count() + j].pressure_only
            }
            &&& includes_trash(cats, platform) ==> is_trash(v@[n], ages.dep_stale, platform, data_local_dir@, home@)
            &&& cats.cargo_registry ==> is_cargo_registry(v@[n + t], ages.cache_entry, platform, home@)
        },
{
    if !cats.home_caches {
        return Vec::new();
    }
    let mut v = specs(ages.cache_entry, ages.dep_stale, extra, platform, home);
    let ghost fixed = v@;
    if cats.trash {
        match trash_spec(ages.dep_stale, platform, data_local_dir, home) {
            Some(t) => v.push(t),
            None => {},
        }
    }
    if cats.cargo_registry {
        v.push(cargo_registry_spec(ages.cache_entry, platform, home));
    }
    assert(forall|i: int| 0 <= i < fixed.len() ==> v@[i] == fixed[i]);
    v
}

/// Age eviction removes files and symlinks (never directories, which are
/// pruned only once emptied) last modified before the cutoff.
pub fn evictable(is_symlink: bool, is_file: bool, older_than_cutoff: bool) -> (r: bool)
    ensures
        r == ((is_symlink || is_file) && older_than_cutoff),
{
    (is_symlink || is_file) && older_than_cutoff
}

/// Does `KeepCurrent` remove the entry called `name` of a versions dir? Only
/// when the `current` link resolves (a missing or dangling `current` fails
/// closed: without it every version would look old), and only a directory
/// that is not the `current` link, not the update lock, not the `_download`
/// staging dir (cleared on its own terms), not the version
/// `current` points to, and older than the cutoff.
pub open spec fn keep_current_dooms_spec(
    name: Seq<char>,
    current_resolves: bool,
    is_current_target: bool,
    is_dir: bool,
    older_than_cutoff: bool,
) -> bool {
    current_resolves && name != "current"@ && name != "_update.lock"@ && name != "_download"@
        && !is_current_target && is_dir
        && older_than_cutoff
}

/// The `KeepCurrent` rule for one entry; see [`keep_current_dooms_spec`].
pub fn keep_current_dooms(
    name: &str,
    current_resolves: bool,
    is_current_target: bool,
    is_dir: bool,
    older_than_cutoff: bool,
) -> (r: bool)
    ensures
        r == keep_current_dooms_spec(name@, current_resolves, is_current_target, is_dir, older_than_cutoff),
{
    current_resolves && !str_eq(name, "current") && !str_eq(name, "_update.lock") && !str_eq(name, "_download")
        && !is_current_target && is_dir
        && older_than_cutoff
}

/// A versions dir whose `current` link is missing or dangling loses nothing:
/// no entry of it is doomed, however old.
pub proof fn keep_current_fails_closed(name: Seq<char>, is_current_target: bool, is_dir: bool, older_than_cutoff: bool)
    ensures
        !keep_current_dooms_spec(name, false, is_current_target, is_dir, older_than_cutoff),
{
}

/// Is the `_download` staging dir cleared? When it is a directory that no
/// running process uses (a probe that cannot tell counts as in use): it
/// only ever holds partial pulls.
pub fn clears_staging(is_dir: bool, users: Option<Vec<u32>>) -> (r: bool)
    ensures
        r == (is_dir && in_use_spec(users) is None),
{
    is_dir && in_use(users).is_none()
}

/// The first line of `t` (empty when `t` has none).
pub open spec fn first_line(t: Seq<char>) -> Seq<char> {
    if lines_spec(t).len() > 0 {
        lines_spec(t)[0]
    } else {
        seq![]
    }
}

/// What a cache tool that succeeded reports: its output, trimmed.
pub fn tool_ran_ok(stdout: &str) -> (r: String)
    ensures
        r@ == trim_spec(stdout@),
{
    string_of(&trim_chars(&chars_of(stdout)))
}

/// What a cache tool that exited unsuccessfully reports: the tool, its exit
/// status, and the first line of its error output.
pub fn tool_exit_failed(tool: &str, status: &str, stderr: &str) -> (r: String)
    ensures
        r@ == tool@ + " exited "@ + status@ + ": "@ + first_line(stderr@),
{
    let lines = lines_chars(&chars_of(stderr));
    let first = if lines.len() > 0 {
        assert(vec_views(lines@)[0] == lines@[0]@);
        string_of(&lines[0])
    } else {
        String::new()
    };
    let mut r = concat(tool, " exited ");
    r.append(status);
    r.append(": ");
    r.append(first.as_str());
    r
}

/// What a cache tool that could not be started reports.
pub fn tool_spawn_failed(tool: &str, msg: &str) -> (r: String)
    ensures
        r@ == tool@ + ": "@ + msg@,
{
    let mut r = concat(tool, ": ");
    r.append(msg);
    r
}

/// The detail for a directory found in use: the process ids, or, when the
/// platform cannot enumerate processes, the fail-closed refusal.
pub open spec fn in_use_spec(users: Option<Vec<u32>>) -> Option<Seq<char>> {
    match users {
        None => Some("process liveness unavailable on this platform run"@),
        Some(v) => if v@.len() == 0 {
            None
        } else {
            Some("in use by pid(s) "@ + joined_decimals(v@, ","@))
        },
    }
}

/// Is a directory busy? Any live process holding a file, map, exe or cwd
/// inside it makes it so (skipping beats racing); a probe that cannot tell
/// counts as busy.
pub fn in_use(users: Option<Vec<u32>>) -> (r: Option<String>)
    ensures
        match r {
            Some(d) => in_use_spec(users) == Some(d@),
            None => in_use_spec(users) is None,
        },
{
    match users {
        None => Some(String::from_str("process liveness unavailable on this platform run")),
        Some(v) => if v.len() == 0 {
            None
        } else {
            Some(concat("in use by pid(s) ", join_decimals(&v, ",").as_str()))
        },
    }
}

/// What became of one old version dir of a `KeepCurrent` cache.
#[derive(Debug)]
pub enum VersionFate {
    /// A running process uses it (or its users cannot be told): it stays;
    /// the detail says why.
    Held(String),
    /// It went (or, in a preview, would go), freeing this many bytes.
    Removed(u64),
    /// Its removal failed with this message.
    Failed(String),
}

/// The tally over the old version dirs of one `KeepCurrent` cache, shared
/// by the real run and the preview.
#[derive(Debug)]
pub struct VersionTally {
    /// Bytes freed by removed versions.
    pub freed: u64,
    /// Versions looked at.
    pub doomed: usize,
    /// Versions held by running processes.
    pub held: usize,
    /// Versions removed.
    pub removed: usize,
    /// Versions whose removal failed.
    pub failed: usize,
    /// One note per version that stayed: its path and why.
    pub notes: Vec<String>,
}

impl VersionTally {
    /// Every version looked at was held, removed or failed.
    pub open spec fn wf(&self) -> bool {
        self.held + self.removed + self.failed == self.doomed
    }

    /// Nothing looked at yet.
    pub fn new() -> (t: Self)
        ensures
            t.wf(),
            t.freed == 0,
            t.doomed == 0,
            t.held == 0,
            t.removed == 0,
            t.failed == 0,
            t.notes@.len() == 0,
    {
        VersionTally { freed: 0, doomed: 0, held: 0, removed: 0, failed: 0, notes: Vec::new() }
    }

    /// Record what became of the version dir at `path`: a held version
    /// frees nothing and is noted with why; a removed one adds its bytes; a
    /// failed one is noted with the error.
    pub fn record(&mut self, path: &str, fate: VersionFate)
        requires
            old(self).wf(),
            old(self).doomed < usize::MAX,
            fate matches VersionFate::Removed(b) ==> old(self).freed + b <= u64::MAX,
        ensures
            final(self).wf(),
            final(self).doomed == old(self).doomed + 1,
            match fate {
                VersionFate::Held(d) => {
                    &&& final(self).held == old(self).held + 1
                    &&& final(self).removed == old(self).removed
                    &&& final(self).failed == old(self).failed
                    &&& final(self).freed == old(self).freed
                    &&& final(self).notes@.len() == old(self).notes@.len() + 1
                    &&& final(self).notes@.drop_last() == old(self).notes@
                    &&& final(self).notes@.last()@ == path@ + ": "@ + d@
                },
                VersionFate::Removed(b) => {
                    &&& final(self).held == old(self).held
                    &&& final(self).removed == old(self).removed + 1
                    &&& final(self).failed == old(self).failed
                    &&& final(self).freed == old(self).freed + b
                    &&& final(self).notes@ == old(self).notes@
                },
                VersionFate::Failed(e) => {
                    &&& final(self).held == old(self).held
                    &&& final(self).removed == old(self).removed
                    &&& final(self).failed == old(self).failed + 1
                    &&& final(self).freed == old(self).freed
                    &&& final(self).notes@.len() == old(self).notes@.len() + 1
                    &&& final(self).notes@.drop_last() == old(self).notes@
                    &&& final(self).notes@.last()@ == path@ + ": "@ + e@
                },
            },
    {
        self.doomed = self.doomed + 1;
        match fate {
            VersionFate::Held(d) => {
                self.held = self.held + 1;
                let mut n = concat(path, ": ");
                n.append(d.as_str());
                self.notes.push(n);
            },
            VersionFate::Removed(b) => {
                self.removed = self.removed + 1;
                self.freed = self.freed + b;
            },
            VersionFate::Failed(e) => {
                self.failed = self.failed + 1;
                let mut n = concat(path, ": ");
                n.append(e.as_str());
                self.notes.push(n);
            },
        }
    }

    /// The real run's report of the tally, with `staged` bytes cleared from
    /// the staging dir.
    pub fn kept(self, staged: u64) -> (ev: CacheEvent)
        requires
            self.freed + staged <= u64::MAX,
        ensures
            ev == (CacheEvent::KeptCurrent { freed: self.freed, staged, removed: self.removed, notes: self.notes }),
    {
        CacheEvent::KeptCurrent { freed: self.freed, staged, removed: self.removed, notes: self.notes }
    }

    /// The preview's report of the tally, with `staged` bytes the staging
    /// dir would free.
    pub fn previewed(self, staged: u64) -> (ev: CacheEvent)
        requires
            self.wf(),
            self.failed == 0,
            self.freed + staged <= u64::MAX,
        ensures
            ev == (CacheEvent::PreviewedKeepCurrent { freed: (self.freed + staged) as u64, doomed: self.doomed, held: self.held }),
    {
        CacheEvent::PreviewedKeepCurrent { freed: self.freed + staged, doomed: self.doomed, held: self.held }
    }
}

/// A preview and a real run that saw the same versions held and free, and
/// whose removals all succeeded, report the same number of versions: the
/// preview's "would remove" count (looked at, less held) is the run's
/// removed count.
pub proof fn preview_count_is_the_run_count(t: VersionTally)
    requires
        t.wf(),
        t.failed == 0,
    ensures
        t.doomed - t.held == t.removed,
{
}

/// What a probe or mutation of a cache found.
#[derive(Debug)]
pub enum CacheEvent {
    /// Processing starts; whether the cache path is a directory.
    Started { is_dir: bool },
    /// The processes using the cache root; `None` when the platform cannot tell.
    Users(Option<Vec<u32>>),
    /// Whether the tool of a `Command` cache resolves on PATH.
    ToolOnPath(bool),
    /// Age eviction (or, in a preview, its count) freed `freed` bytes in
    /// `count` entries.
    Evicted { freed: u64, count: usize },
    /// The tool ran: its trimmed output, or why it failed.
    ToolRan(Result<String, String>),
    /// `KeepCurrent` ran: bytes freed in old versions and in the staging
    /// dir, versions removed, and a note per version that could not go.
    KeptCurrent { freed: u64, staged: u64, removed: usize, notes: Vec<String> },
    /// A `KeepCurrent` preview: bytes it would free, old versions found,
    /// and how many of those running processes hold.
    PreviewedKeepCurrent { freed: u64, doomed: usize, held: usize },
}

/// What to do next with a cache.
#[derive(Debug)]
pub enum CacheAction {
    /// Probe which processes use the cache root.
    CheckUsers,
    /// Probe whether this tool resolves on PATH.
    CheckTool(&'static str),
    /// Delete files older than this many days; prune emptied dirs.
    Evict(u64),
    /// Count what eviction of files older than this many days would free.
    CountEvictable(u64),
    /// Run the tool's own garbage collection.
    RunTool(&'static [&'static str]),
    /// Clear the staging dir and delete old version dirs (older than this
    /// many days) that no process holds.
    KeepCurrent(u64),
    /// Measure what `KeepCurrent` would free.
    PreviewKeepCurrent(u64),
    /// Done: the result.
    Finish(CacheResult),
}

/// A cache action as plain values.
pub enum CacheActionView {
    CheckUsers,
    CheckTool(Seq<char>),
    Evict(u64),
    CountEvictable(u64),
    RunTool(Seq<Seq<char>>),
    KeepCurrent(u64),
    PreviewKeepCurrent(u64),
    Finish(Seq<char>, u64, Seq<char>),
}

/// The view of a cache action.
pub open spec fn action_view(a: CacheAction) -> CacheActionView {
    match a {
        CacheAction::CheckUsers => CacheActionView::CheckUsers,
        CacheAction::CheckTool(t) => CacheActionView::CheckTool(t@),
        CacheAction::Evict(d) => CacheActionView::Evict(d),
        CacheAction::CountEvictable(d) => CacheActionView::CountEvictable(d),
        CacheAction::RunTool(argv) => CacheActionView::RunTool(str_views(argv@)),
        CacheAction::KeepCurrent(d) => CacheActionView::KeepCurrent(d),
        CacheAction::PreviewKeepCurrent(d) => CacheActionView::PreviewKeepCurrent(d),
        CacheAction::Finish(r) => CacheActionView::Finish(r.id@, r.freed_bytes, r.detail@),
    }
}

/// A cache whose `Command` strategy names a tool.
pub open spec fn well_formed(c: HomeCandidate) -> bool {
    c.strategy matches Strategy::Command { argv, .. } ==> argv@.len() > 0
}

/// The events that can occur for a cache with this strategy.
pub open spec fn event_fits(c: HomeCandidate, ev: CacheEvent, dry: bool) -> bool {
    match ev {
        CacheEvent::Started { .. } => true,
        CacheEvent::Users(_) => !(c.strategy is KeepCurrent),
        CacheEvent::ToolOnPath(_) => c.strategy is Command,
        CacheEvent::Evicted { .. } => c.strategy is AgeEvict || c.strategy is Command,
        CacheEvent::ToolRan(_) => !dry && c.strategy is Command,
        CacheEvent::KeptCurrent { freed, staged, .. } => !dry && c.strategy is KeepCurrent
            && freed + staged <= u64::MAX,
        CacheEvent::PreviewedKeepCurrent { doomed, held, .. } => dry && c.strategy is KeepCurrent
            && held <= doomed,
    }
}

/// The decision on a cache, shared by the real run (`dry` false) and the
/// preview (`dry` true): a missing path is skipped; a `KeepCurrent` cache
/// checks liveness per version dir, never on its root (which is in use
/// whenever any of its processes runs); every other cache is skipped while in
/// use; a tool on PATH does the work itself; without it, the fallback
/// eviction (if any) does.
pub open spec fn cache_decision(c: HomeCandidate, ev: CacheEvent, dry: bool) -> CacheActionView {
    let id = c.id@;
    match ev {
        CacheEvent::Started { is_dir } => if !is_dir {
            CacheActionView::Finish(id, 0, seq![])
        } else {
            match c.strategy {
                Strategy::KeepCurrent { keep_days } => if dry {
                    CacheActionView::PreviewKeepCurrent(keep_days)
                } else {
                    CacheActionView::KeepCurrent(keep_days)
                },
                _ => CacheActionView::CheckUsers,
            }
        },
        CacheEvent::Users(u) => match in_use_spec(u) {
            Some(d) => CacheActionView::Finish(id, 0, d),
            None => match c.strategy {
                Strategy::AgeEvict { days } => if dry {
                    CacheActionView::CountEvictable(days)
                } else {
                    CacheActionView::Evict(days)
                },
                Strategy::Command { argv, .. } => CacheActionView::CheckTool(argv@[0]@),
                Strategy::KeepCurrent { keep_days } => if dry {
                    CacheActionView::PreviewKeepCurrent(keep_days)
                } else {
                    CacheActionView::KeepCurrent(keep_days)
                },
            },
        },
        CacheEvent::ToolOnPath(on_path) => match c.strategy {
            Strategy::Command { argv, fallback_days } => if on_path {
                if dry {
                    CacheActionView::Finish(id, 0, "would run `"@ + joined(str_views(argv@), " "@) + "`"@)
                } else {
                    CacheActionView::RunTool(str_views(argv@))
                }
            } else if fallback_days > 0 {
                if dry {
                    CacheActionView::CountEvictable(fallback_days)
                } else {
                    CacheActionView::Evict(fallback_days)
                }
            } else {
                CacheActionView::Finish(id, 0, argv@[0]@ + " not on PATH; skipped"@)
            },
            _ => CacheActionView::Finish(id, 0, seq![]),
        },
        CacheEvent::Evicted { freed, count } => {
            let verb = if dry { "would evict "@ } else { "evicted "@ };
            let base = verb + decimal(count as nat) + " entries"@;
            match c.strategy {
                Strategy::Command { argv, .. } => CacheActionView::Finish(
                    id,
                    freed,
                    base + " (no "@ + argv@[0]@ + " on PATH)"@,
                ),
                _ => CacheActionView::Finish(id, freed, base),
            }
        },
        CacheEvent::ToolRan(r) => match r {
            Ok(out) => CacheActionView::Finish(id, 0, out@),
            Err(e) => CacheActionView::Finish(id, 0, "tool failed: "@ + e@),
        },
        CacheEvent::KeptCurrent { freed, staged, removed, notes } => {
            let base = "removed "@ + decimal(removed as nat) + " old versions"@;
            let detail = if notes@.len() > 0 {
                base + "; "@ + joined(string_views(notes@), "; "@)
            } else {
                base
            };
            CacheActionView::Finish(id, (freed + staged) as u64, detail)
        },
        CacheEvent::PreviewedKeepCurrent { freed, doomed, held } => {
            let base = "would remove "@ + decimal((doomed - held) as nat) + " old versions"@;
            let detail = if held > 0 {
                base + "; "@ + decimal(held as nat) + " held by running processes"@
            } else {
                base
            };
            CacheActionView::Finish(id, freed, detail)
        },
    }
}

fn finish(c: &HomeCandidate, freed: u64, detail: String) -> (a: CacheAction)
    ensures
        action_view(a) == CacheActionView::Finish(c.id@, freed, detail@),
{
    CacheAction::Finish(CacheResult { id: String::from_str(c.id), freed_bytes: freed, detail })
}

fn decide(c: &HomeCandidate, ev: CacheEvent, dry: bool) -> (a: CacheAction)
    requires
        well_formed(*c),
        event_fits(*c, ev, dry),
    ensures
        action_view(a) == cache_decision(*c, ev, dry),
{
    match ev {
        CacheEvent::Started { is_dir } => if !is_dir {
            let a = finish(c, 0, String::new());
            proof { assert(action_view(a) =~~= cache_decision(*c, ev, dry)); }
            a
        } else {
            match c.strategy {
                Strategy::KeepCurrent { keep_days } => if dry {
                    CacheAction::PreviewKeepCurrent(keep_days)
                } else {
                    CacheAction::KeepCurrent(keep_days)
                },
                _ => CacheAction::CheckUsers,
            }
        },
        CacheEvent::Users(u) => match in_use(u) {
            Some(d) => finish(c, 0, d),
            None => match c.strategy {
                Strategy::AgeEvict { days } => if dry {
                    CacheAction::CountEvictable(days)
                } else {
                    CacheAction::Evict(days)
                },
                Strategy::Command { argv, .. } => CacheAction::CheckTool(argv[0]),
                Strategy::KeepCurrent { keep_days } => if dry {
                    CacheAction::PreviewKeepCurrent(keep_days)
                } else {
                    CacheAction::KeepCurrent(keep_days)
                },
            },
        },
        CacheEvent::ToolOnPath(on_path) => match c.strategy {
            Strategy::Command { argv, fallback_days } => if on_path {
                if dry {
                    let mut d = concat("would run `", join_strs(argv, " ").as_str());
                    d.append("`");
                    finish(c, 0, d)
                } else {
                    CacheAction::RunTool(argv)
                }
            } else if fallback_days > 0 {
                if dry {
                    CacheAction::CountEvictable(fallback_days)
                } else {
                    CacheAction::Evict(fallback_days)
                }
            } else {
                finish(c, 0, concat(argv[0], " not on PATH; skipped"))
            },
            _ => {
                let a = finish(c, 0, String::new());
                proof { assert(action_view(a) =~~= cache_decision(*c, ev, dry)); }
                a
            },
        },
        CacheEvent::Evicted { freed, count } => {
            let mut d = if dry { String::from_str("would evict ") } else { String::from_str("evicted ") };
            d.append(decimal_string(count as u64).as_str());
            d.append(" entries");
            match c.strategy {
                Strategy::Command { argv, .. } => {
                    d.append(" (no ");
                    d.append(argv[0]);
                    d.append(" on PATH)");
                    finish(c, freed, d)
                },
                _ => finish(c, freed, d),
            }
        },
        CacheEvent::ToolRan(r) => match r {
            Ok(out) => finish(c, 0, out),
            Err(e) => finish(c, 0, concat("tool failed: ", e.as_str())),
        },
        CacheEvent::KeptCurrent { freed, staged, removed, notes } => {
            let mut d = concat("removed ", decimal_string(removed as u64).as_str());
            d.append(" old versions");
            if notes.len() > 0 {
                d.append("; ");
                d.append(join_strings(&notes, "; ").as_str());
            }
            finish(c, freed + staged, d)
        },
        CacheEvent::PreviewedKeepCurrent { freed, doomed, held } => {
            let mut d = concat("would remove ", decimal_string((doomed - held) as u64).as_str());
            d.append(" old versions");
            if held > 0 {
                d.append("; ");
                d.append(decimal_string(held as u64).as_str());
                d.append(" held by running processes");
            }
            finish(c, freed, d)
        },
    }
}

/// The real run's next action for cache `c` given what the last probe or
/// mutation found; see [`cache_decision`].
pub fn process(c: &HomeCandidate, ev: CacheEvent) -> (a: CacheAction)
    requires
        well_formed(*c),
        event_fits(*c, ev, false),
    ensures
        action_view(a) == cache_decision(*c, ev, false),
{
    decide(c, ev, false)
}

/// The dry-run preview's next action: the same decisions as [`process`],
/// with every mutation replaced by a measurement.
pub fn preview(c: &HomeCandidate, ev: CacheEvent) -> (a: CacheAction)
    requires
        well_formed(*c),
        event_fits(*c, ev, true),
    ensures
        action_view(a) == cache_decision(*c, ev, true),
{
    decide(c, ev, true)
}


/// Actions that change the filesystem.
pub open spec fn is_mutation(a: CacheActionView) -> bool {
    a is Evict || a is RunTool || a is KeepCurrent
}

/// The dry-run counterpart of a real-run action: mutations become
/// measurements (running a tool becomes a note of what would run); probes and
/// results stay as they are.
pub open spec fn dry_twin(c: HomeCandidate, a: CacheActionView) -> CacheActionView {
    match a {
        CacheActionView::Evict(d) => CacheActionView::CountEvictable(d),
        CacheActionView::KeepCurrent(k) => CacheActionView::PreviewKeepCurrent(k),
        CacheActionView::RunTool(argv) => CacheActionView::Finish(c.id@, 0, "would run `"@ + joined(argv, " "@) + "`"@),
        _ => a,
    }
}

/// A preview never asks for a mutation, whatever the probes found.
pub proof fn preview_never_mutates(c: HomeCandidate, ev: CacheEvent)
    ensures
        !is_mutation(cache_decision(c, ev, true)),
{
}

/// A preview makes the same decisions as a real run: on every probe result
/// that decides (the start, the liveness probe, the PATH probe) its action is
/// the dry counterpart of the real run's.
pub proof fn preview_mirrors_process(c: HomeCandidate, ev: CacheEvent)
    requires
        ev is Started || ev is Users || ev is ToolOnPath,
    ensures
        cache_decision(c, ev, true) == dry_twin(c, cache_decision(c, ev, false)),
{
}

/// A `KeepCurrent` cache never probes the liveness of its root: its root is
/// in use whenever any of its processes runs, so liveness is checked per
/// version dir instead.
pub proof fn keep_current_skips_root_liveness(c: HomeCandidate, dry: bool)
    requires
        c.strategy is KeepCurrent,
    ensures
        !(cache_decision(c, CacheEvent::Started { is_dir: true }, dry) is CheckUsers),
{
}

/// A cache that some process uses, or whose users cannot be enumerated, is
/// left untouched: the decision is a result that frees nothing.
pub proof fn busy_cache_is_left_alone(c: HomeCandidate, users: Option<Vec<u32>>, dry: bool)
    requires
        users is None || (users matches Some(v) && v@.len() > 0),
    ensures
        cache_decision(c, CacheEvent::Users(users), dry) matches CacheActionView::Finish(_, freed, _)
            && freed == 0,
{
}

/// Does event `ev` answer action `a` (the probe or mutation it asked for)?
/// A result asks for nothing more.
pub open spec fn answers(a: CacheActionView, ev: CacheEvent) -> bool {
    match a {
        CacheActionView::CheckUsers => ev is Users,
        CacheActionView::CheckTool(_) => ev is ToolOnPath,
        CacheActionView::Evict(_) => ev is Evicted,
        CacheActionView::CountEvictable(_) => ev is Evicted,
        CacheActionView::RunTool(_) => ev is ToolRan,
        CacheActionView::KeepCurrent(_) => ev is KeptCurrent,
        CacheActionView::PreviewKeepCurrent(_) => ev is PreviewedKeepCurrent,
        CacheActionView::Finish(..) => false,
    }
}

/// A liveness probe that could enumerate the cache's users and found none.
pub open spec fn found_no_user(ev: CacheEvent) -> bool {
    ev matches CacheEvent::Users(Some(v)) && v@.len() == 0
}

/// Every cache but a `KeepCurrent` one starts, once its directory is
/// there, by probing who uses its root: before a tool's own GC, an eviction
/// or its count.
pub proof fn caches_probe_liveness_first(c: HomeCandidate, dry: bool)
    requires
        !(c.strategy is KeepCurrent),
    ensures
        cache_decision(c, CacheEvent::Started { is_dir: true }, dry) == CacheActionView::CheckUsers,
{
}

/// The step of the run below: every event from `k` on is the start, a
/// liveness probe, or follows a probe that found no user.
proof fn idle_probe_precedes(c: HomeCandidate, dry: bool, evs: Seq<CacheEvent>, k: int)
    requires
        !(c.strategy is KeepCurrent),
        evs.len() > 0,
        evs[0] is Started,
        forall|i: int| 0 <= i < evs.len() - 1 ==> answers(cache_decision(c, evs[i], dry), #[trigger] evs[i + 1]),
        0 <= k < evs.len(),
    ensures
        k == 0 || evs[k] is Users || exists|j: int| 0 <= j < k && found_no_user(#[trigger] evs[j]),
    decreases k,
{
    if k > 0 {
        idle_probe_precedes(c, dry, evs, k - 1);
        let prev = evs[k - 1];
        assert(answers(cache_decision(c, evs[k - 1], dry), evs[(k - 1) + 1]));
        if prev is Users {
            let u = prev->Users_0;
            if in_use_spec(u) is None {
                assert(found_no_user(evs[k - 1]));
            }
        }
    }
}

/// Nothing is changed in a cache other than a `KeepCurrent` one (no
/// eviction, no tool's GC) unless a liveness probe of its root enumerated
/// its users and found none: in any run of the decision machine from the
/// start, where each event answers the action asked for before it, a
/// mutation is only ever asked for after such a probe.
pub proof fn no_mutation_without_an_idle_probe(c: HomeCandidate, dry: bool, evs: Seq<CacheEvent>)
    requires
        !(c.strategy is KeepCurrent),
        evs.len() > 0,
        evs[0] is Started,
        forall|i: int| 0 <= i < evs.len() - 1 ==> answers(cache_decision(c, evs[i], dry), #[trigger] evs[i + 1]),
    ensures
        forall|k: int| 0 <= k < evs.len() && is_mutation(cache_decision(c, #[trigger] evs[k], dry))
            ==> exists|j: int| 0 <= j <= k && found_no_user(#[trigger] evs[j]),
{
    assert forall|k: int| 0 <= k < evs.len() && is_mutation(cache_decision(c, #[trigger] evs[k], dry))
        implies exists|j: int| 0 <= j <= k && found_no_user(#[trigger] evs[j]) by {
        idle_probe_precedes(c, dry, evs, k);
        if evs[k] is Users {
            assert(found_no_user(evs[k]));
        } else if k > 0 {
            let j = choose|j: int| 0 <= j < k && found_no_user(#[trigger] evs[j]);
            assert(found_no_user(evs[j]));
        }
    }
}

} // verus!
