//! Discovery: the decisions of the walk over the configured roots that turns
//! matching directories into measured candidates. The walk itself, the
//! metadata reads and the measurements are the caller's; this module says,
//! for each entry the walk meets, whether to prune, classify, consult git or
//! claim it, how a claimed directory's age gate is evaluated, and how the
//! outcome is tallied.

use crate::clean::pending_prefix_spec;
use crate::config::{Ages, Categories, Gate};
use crate::kinds::{in_skip_dirs, is_generic_kind, kind_gate, skip_dir_names, Kind};
use crate::os::{components, join_spec, path_join, path_starts_with, Platform};
use crate::text::{has_prefix, seq_starts_with, slice_has, str_views, string_views};
use std::time::SystemTime;
use vstd::prelude::*;

verus! {

/// A directory that passed its age gate (the safety guards still apply).
#[derive(Debug)]
pub struct Candidate {
    pub path: String,
    pub kind: Kind,
    /// du-style allocated size.
    pub size_bytes: u64,
    /// Newest mtime anywhere inside the candidate.
    pub newest: Option<SystemTime>,
    /// For project-gated kinds: the enclosing project dir (its process
    /// scope). For `RustIncremental`: the enclosing `target` dir (its cargo
    /// lock scope).
    pub project_root: Option<String>,
}

/// The result of a scan.
pub struct ScanOutcome {
    /// Candidates that passed their age gate.
    pub stale: Vec<Candidate>,
    /// Matched artifact dirs that were still fresh (kept for reporting).
    pub fresh_count: usize,
    pub bytes_seen: u64,
}

/// The total size of a list of candidates.
pub open spec fn total_size(cs: Seq<Candidate>) -> int
    decreases cs.len(),
{
    if cs.len() == 0 {
        0
    } else {
        total_size(cs.drop_last()) + cs.last().size_bytes
    }
}

impl ScanOutcome {
    /// The outcome's tally is consistent: `bytes_seen` is the total size of
    /// the stale candidates, none of which is smaller than `min_size`.
    pub open spec fn tallied(self, min_size: u64) -> bool {
        &&& self.bytes_seen == total_size(self.stale@)
        &&& forall|i: int| 0 <= i < self.stale@.len() ==> #[trigger] self.stale@[i].size_bytes >= min_size
    }

    /// Nothing found yet.
    pub fn new() -> (o: Self)
        ensures
            o.stale@.len() == 0,
            o.fresh_count == 0,
            o.bytes_seen == 0,
            forall|m: u64| o.tallied(m),
    {
        ScanOutcome { stale: Vec::new(), fresh_count: 0, bytes_seen: 0 }
    }

    /// Count one matched directory that was still fresh.
    pub fn record_fresh(&mut self)
        requires
            old(self).fresh_count < usize::MAX,
        ensures
            final(self).fresh_count == old(self).fresh_count + 1,
            final(self).stale@ == old(self).stale@,
            final(self).bytes_seen == old(self).bytes_seen,
    {
        self.fresh_count = self.fresh_count + 1;
    }

    /// Offer a measured stale candidate: it is kept, and its size counted,
    /// exactly when it is at least `min_size` bytes.
    pub fn offer(&mut self, c: Candidate, min_size: u64) -> (kept: bool)
        requires
            old(self).bytes_seen + c.size_bytes <= u64::MAX,
        ensures
            kept == (c.size_bytes >= min_size),
            kept ==> final(self).stale@ == old(self).stale@.push(c),
            kept ==> final(self).bytes_seen == old(self).bytes_seen + c.size_bytes,
            !kept ==> final(self).stale@ == old(self).stale@,
            !kept ==> final(self).bytes_seen == old(self).bytes_seen,
            final(self).fresh_count == old(self).fresh_count,
            old(self).tallied(min_size) ==> final(self).tallied(min_size),
    {
        if c.size_bytes < min_size {
            return false;
        }
        let ghost before = self.stale@;
        self.bytes_seen = self.bytes_seen + c.size_bytes;
        self.stale.push(c);
        proof {
            assert(self.stale@.drop_last() =~= before);
        }
        true
    }
}

/// What the walk does with the entry it is on.
#[derive(Debug, Clone, Copy, PartialEq, Eq, Structural)]
pub enum WalkStep {
    /// Move on (descending into it, if it is a directory).
    Continue,
    /// Never descend into it.
    Prune,
    /// Find out what kind it is (see `kinds::match_dir`).
    Classify,
    /// A generically named artifact: ask git whether it is ignored.
    AskGit(Kind),
    /// Claim it as an artifact of this kind, without descending.
    Claim(Kind),
}

/// The first decision on a walk entry: the root itself and non-directories
/// are passed over; pending leftovers and anything on another filesystem
/// are pruned; every other directory is classified.
pub open spec fn walk_entry_spec(depth: nat, is_dir: bool, name: Seq<char>, same_device: bool) -> WalkStep {
    if depth == 0 || !is_dir {
        WalkStep::Continue
    } else if seq_starts_with(name, pending_prefix_spec()) || !same_device {
        WalkStep::Prune
    } else {
        WalkStep::Classify
    }
}

/// The first decision on an entry at `depth` called `name` (the empty string
/// for a name that is not UTF-8); `same_device` says whether it lies on the
/// root's filesystem.
pub fn walk_entry(depth: usize, is_dir: bool, name: &str, same_device: bool) -> (s: WalkStep)
    ensures
        s == walk_entry_spec(depth as nat, is_dir, name@, same_device),
{
    if depth == 0 || !is_dir {
        WalkStep::Continue
    } else if has_prefix(name, crate::clean::PENDING_PREFIX) || !same_device {
        WalkStep::Prune
    } else {
        WalkStep::Classify
    }
}

/// The decision once the directory's kind is known: unmatched directories
/// are pruned when they are opaque trees, else walked; generic names must
/// first be proven ignored by git; every other match is claimed.
pub open spec fn walk_classified_spec(name: Seq<char>, kind: Option<Kind>) -> WalkStep {
    match kind {
        None => if skip_dir_names().contains(name) { WalkStep::Prune } else { WalkStep::Continue },
        Some(k) => if is_generic_kind(k) { WalkStep::AskGit(k) } else { WalkStep::Claim(k) },
    }
}

/// The decision on a classified directory; see [`walk_classified_spec`].
pub fn walk_classified(name: &str, kind: Option<Kind>) -> (s: WalkStep)
    ensures
        s == walk_classified_spec(name@, kind),
{
    match kind {
        None => if in_skip_dirs(name) { WalkStep::Prune } else { WalkStep::Continue },
        Some(k) => if k.needs_gitignore() { WalkStep::AskGit(k) } else { WalkStep::Claim(k) },
    }
}

/// A generically named directory is claimed only when git proves it ignored;
/// otherwise the walk goes on into it (a nested project may sit inside).
pub fn walk_git_verdict(kind: Kind, ignored: Option<bool>) -> (s: WalkStep)
    ensures
        s == walk_git_verdict_spec(kind, ignored),
{
    match ignored {
        Some(true) => WalkStep::Claim(kind),
        _ => WalkStep::Continue,
    }
}

/// The walk's step once git has answered for a generically named
/// directory of `kind`: claimed only when git says it is ignored; not
/// ignored, or no answer, leaves it to be walked as ordinary source.
pub open spec fn walk_git_verdict_spec(kind: Kind, ignored: Option<bool>) -> WalkStep {
    if ignored == Some(true) {
        WalkStep::Claim(kind)
    } else {
        WalkStep::Continue
    }
}

/// What `git check-ignore -q` answered; see [`ignored_from_status`].
pub open spec fn ignored_from_status_spec(code: Option<i32>) -> Option<bool> {
    match code {
        Some(0) => Some(true),
        Some(1) => Some(false),
        _ => None,
    }
}

/// What `git check-ignore -q` answered: exit 0 means ignored, 1 means not
/// ignored, anything else (or no exit code) means git cannot tell.
pub fn ignored_from_status(code: Option<i32>) -> (r: Option<bool>)
    ensures
        r == ignored_from_status_spec(code),
{
    match code {
        Some(0) => Some(true),
        Some(1) => Some(false),
        _ => None,
    }
}

/// The state of a claimed directory's age gate.
#[derive(Debug, Clone, Copy, PartialEq, Eq, Structural)]
pub enum GateStep {
    /// Find out whether anything inside the artifact was written within
    /// this many days.
    ArtifactNewerWithin(u64),
    /// Find out whether the project was worked on within this many days.
    ProjectActiveWithin(u64),
    /// Passed: the directory is a stale candidate.
    Stale,
    /// Failed: the directory is still in use.
    Fresh,
}

/// Where a claimed directory's gate starts: an artifact's own age against
/// `stale`; a dependency tree's project activity against `dep_stale` (and a
/// dependency tree without a project root never passes).
pub open spec fn gate_start_spec(kind: Kind, ages: Ages, has_project_root: bool) -> GateStep {
    match kind_gate(kind) {
        Gate::ArtifactStale => GateStep::ArtifactNewerWithin(ages.stale),
        Gate::ProjectStale => if has_project_root {
            GateStep::ProjectActiveWithin(ages.dep_stale)
        } else {
            GateStep::Fresh
        },
    }
}

/// The first step of a claimed directory's age gate.
pub fn gate_start(kind: Kind, ages: Ages, has_project_root: bool) -> (s: GateStep)
    ensures
        s == gate_start_spec(kind, ages, has_project_root),
{
    match kind.gate() {
        Gate::ArtifactStale => GateStep::ArtifactNewerWithin(ages.stale),
        Gate::ProjectStale => if has_project_root {
            GateStep::ProjectActiveWithin(ages.dep_stale)
        } else {
            GateStep::Fresh
        },
    }
}

/// The next step once the probe asked for by `step` has answered `found`:
/// recent writes inside the artifact make it fresh, otherwise stale; an
/// active project makes its dependency tree fresh, otherwise the tree itself
/// must also be cold within the same window (a fresh install inside an
/// untouched project is still activity).
pub open spec fn gate_next_spec(step: GateStep, found: bool) -> GateStep {
    match step {
        GateStep::ArtifactNewerWithin(_) => if found { GateStep::Fresh } else { GateStep::Stale },
        GateStep::ProjectActiveWithin(d) => if found {
            GateStep::Fresh
        } else {
            GateStep::ArtifactNewerWithin(d)
        },
        _ => step,
    }
}

/// The next step of the age gate; see [`gate_next_spec`].
pub fn gate_next(step: GateStep, found: bool) -> (s: GateStep)
    ensures
        s == gate_next_spec(step, found),
{
    match step {
        GateStep::ArtifactNewerWithin(_) => if found { GateStep::Fresh } else { GateStep::Stale },
        GateStep::ProjectActiveWithin(d) => if found {
            GateStep::Fresh
        } else {
            GateStep::ArtifactNewerWithin(d)
        },
        _ => step,
    }
}

/// What to look at inside a directory whose age gate failed.
#[derive(Debug, Clone, Copy, PartialEq, Eq, Structural)]
pub enum FreshFollowup {
    Nothing,
    /// A live `target`: its `<profile>/incremental` caches may still be
    /// stale on their own, shorter leash of this many days.
    Incrementals(u64),
    /// A live `.dart_tool`: its `flutter_build` is pure build output with
    /// its own freshness, judged against this many days.
    FlutterBuild(u64),
}

/// The follow-up for a fresh directory of `kind`.
pub fn after_fresh(kind: Kind, categories: Categories, ages: Ages) -> (f: FreshFollowup)
    ensures
        f == (if kind == Kind::RustTarget && categories.incremental {
            FreshFollowup::Incrementals(ages.incremental)
        } else if kind == Kind::DartToolDeps {
            FreshFollowup::FlutterBuild(ages.stale)
        } else {
            FreshFollowup::Nothing
        }),
{
    if kind == Kind::RustTarget && categories.incremental {
        FreshFollowup::Incrementals(ages.incremental)
    } else if kind == Kind::DartToolDeps {
        FreshFollowup::FlutterBuild(ages.stale)
    } else {
        FreshFollowup::Nothing
    }
}

/// Is a nested build cache inside a fresh claimed directory (a
/// `target/<profile>/incremental`, a `.dart_tool/flutter_build`) offered as a
/// candidate? Only a real directory (no symlink) on the root's filesystem,
/// not reached through a pending dir (`between` names the directory between
/// the claimed one and the cache, `None` when there is none), and with
/// nothing in it written within its own window.
pub open spec fn nested_offered_spec(
    between: Option<Seq<char>>,
    is_real_dir: bool,
    same_device: bool,
    written_within: bool,
) -> bool {
    &&& is_real_dir
    &&& same_device
    &&& !written_within
    &&& !(between matches Some(n) && seq_starts_with(n, pending_prefix_spec()))
}

/// See [`nested_offered_spec`].
pub fn nested_offered(between: Option<&str>, is_real_dir: bool, same_device: bool, written_within: bool) -> (r: bool)
    ensures
        r == nested_offered_spec(
            match between {
                Some(n) => Some(n@),
                None => None,
            },
            is_real_dir,
            same_device,
            written_within,
        ),
{
    let pending = match between {
        Some(n) => has_prefix(n, crate::clean::PENDING_PREFIX),
        None => false,
    };
    is_real_dir && same_device && !written_within && !pending
}

/// A nested cache is offered only when it is cold, a real directory, on
/// the root's filesystem and not reached through a pending dir: one written
/// within its own window is never offered, whatever lies between, and one
/// that meets every condition always is.
pub proof fn nested_caches_offered_only_when_cold(
    between: Option<Seq<char>>,
    is_real_dir: bool,
    same_device: bool,
    written_within: bool,
)
    ensures
        written_within ==> !nested_offered_spec(between, is_real_dir, same_device, written_within),
        !is_real_dir ==> !nested_offered_spec(between, is_real_dir, same_device, written_within),
        !same_device ==> !nested_offered_spec(between, is_real_dir, same_device, written_within),
        (between matches Some(n) && seq_starts_with(n, pending_prefix_spec()))
            ==> !nested_offered_spec(between, is_real_dir, same_device, written_within),
        (is_real_dir && same_device && !written_within && (between matches Some(n) ==> !seq_starts_with(
            n,
            pending_prefix_spec(),
        ))) ==> nested_offered_spec(between, is_real_dir, same_device, written_within),
{
}

/// The roots a scan walks: the configured ones, or none when the projects
/// category is off (the scan then finds nothing).
pub fn scan_roots(categories: Categories, roots: &Vec<String>) -> (r: Vec<String>)
    ensures
        string_views(r@) == (if categories.projects { string_views(roots@) } else { seq![] }),
{
    let mut r: Vec<String> = Vec::new();
    if !categories.projects {
        assert(string_views(r@) =~= seq![]);
        return r;
    }
    let mut i: usize = 0;
    while i < roots.len()
        invariant
            i <= roots@.len(),
            r@.len() == i,
            forall|j: int| 0 <= j < i ==> #[trigger] r@[j]@ == roots@[j]@,
        decreases roots@.len() - i,
    {
        r.push(roots[i].clone());
        i = i + 1;
    }
    assert(string_views(r@) =~= string_views(roots@));
    r
}

/// Neither path lies at or under the other.
pub open spec fn apart(p: Seq<char>, q: Seq<char>) -> bool {
    !path_starts_with(p, q) && !path_starts_with(q, p)
}

/// No path of `s` lies at or under another.
pub open spec fn pairwise_apart(s: Seq<Seq<char>>) -> bool {
    forall|i: int, j: int| 0 <= i < j < s.len() ==> apart(#[trigger] s[i], #[trigger] s[j])
}

/// The directories one root's walk has claimed. A directory is claimed only
/// when it lies neither at nor under, nor above, one claimed before, so the
/// claimed directories never nest.
pub struct Claims {
    paths: Vec<String>,
}

impl Claims {
    /// The claimed directories, in order.
    pub closed spec fn claimed(&self) -> Seq<Seq<char>> {
        string_views(self.paths@)
    }

    /// No two claimed directories nest.
    pub closed spec fn wf(&self) -> bool {
        pairwise_apart(self.claimed())
    }

    /// No directory claimed yet.
    pub fn new() -> (c: Self)
        ensures
            c.wf(),
            c.claimed() == Seq::<Seq<char>>::empty(),
    {
        let c = Claims { paths: Vec::new() };
        assert(c.claimed() =~= Seq::<Seq<char>>::empty());
        c
    }

    /// Claim `path` unless it lies at, under or above a directory claimed
    /// before; says whether it was claimed.
    pub fn claim(&mut self, path: &str) -> (added: bool)
        requires
            old(self).wf(),
        ensures
            final(self).wf(),
            added == (forall|i: int| 0 <= i < old(self).claimed().len() ==> apart(path@, #[trigger] old(self).claimed()[i])),
            added ==> final(self).claimed() == old(self).claimed().push(path@),
            !added ==> final(self).claimed() == old(self).claimed(),
    {
        let ghost cl = self.claimed();
        let mut i: usize = 0;
        while i < self.paths.len()
            invariant
                i <= self.paths@.len(),
                self.paths@ == old(self).paths@,
                old(self).wf(),
                cl == string_views(self.paths@),
                forall|j: int| 0 <= j < i ==> apart(path@, #[trigger] cl[j]),
            decreases self.paths@.len() - i,
        {
            let q = self.paths[i].as_str();
            assert(cl[i as int] == q@);
            if crate::os::linux::link_within(path, q) || crate::os::linux::link_within(q, path) {
                assert(!apart(path@, cl[i as int]));
                return false;
            }
            i = i + 1;
        }
        self.paths.push(String::from_str(path));
        assert(self.claimed() =~= cl.push(path@));
        assert forall|a: int, b: int| 0 <= a < b < self.claimed().len() implies apart(
            #[trigger] self.claimed()[a],
            #[trigger] self.claimed()[b],
        ) by {
            if b == cl.len() {
                assert(apart(path@, cl[a]));
            } else {
                assert(apart(cl[a], cl[b]));
            }
        }
        true
    }
}

/// Two prefixes of one sequence: the shorter is a prefix of the longer.
proof fn prefixes_of_one_sequence(a: Seq<Seq<char>>, b: Seq<Seq<char>>, s: Seq<Seq<char>>)
    requires
        a.len() <= s.len(),
        s.subrange(0, a.len() as int) == a,
        b.len() <= s.len(),
        s.subrange(0, b.len() as int) == b,
        a.len() <= b.len(),
    ensures
        b.subrange(0, a.len() as int) == a,
{
    assert(b.subrange(0, a.len() as int) =~= a) by {
        assert forall|k: int| 0 <= k < a.len() implies b.subrange(0, a.len() as int)[k] == a[k] by {
            assert(b[k] == s.subrange(0, b.len() as int)[k]);
            assert(a[k] == s.subrange(0, a.len() as int)[k]);
        }
    }
}

/// What lies inside two directories that do not nest does not nest either:
/// candidates drawn from different claimed directories (a claimed directory
/// itself, or a cache nested inside one), or from roots that do not nest,
/// never lie at or under one another.
pub proof fn contents_of_apart_dirs_are_apart(a: Seq<char>, b: Seq<char>, p: Seq<char>, q: Seq<char>)
    requires
        apart(a, b),
        path_starts_with(p, a),
        path_starts_with(q, b),
    ensures
        apart(p, q),
{
    let ca = components(a);
    let cb = components(b);
    let cp = components(p);
    let cq = components(q);
    if path_starts_with(p, q) {
        // `a` and `b` would both be prefixes of `p`'s components.
        assert(cp.subrange(0, cq.len() as int).subrange(0, cb.len() as int) =~= cp.subrange(0, cb.len() as int));
        if ca.len() <= cb.len() {
            prefixes_of_one_sequence(ca, cb, cp);
        } else {
            prefixes_of_one_sequence(cb, ca, cp);
        }
    }
    if path_starts_with(q, p) {
        assert(cq.subrange(0, cp.len() as int).subrange(0, ca.len() as int) =~= cq.subrange(0, ca.len() as int));
        if ca.len() <= cb.len() {
            prefixes_of_one_sequence(ca, cb, cq);
        } else {
            prefixes_of_one_sequence(cb, ca, cq);
        }
    }
}

/// Directory names excluded from a project-activity walk: the artifact dirs
/// themselves plus derived state that says nothing about work.
pub open spec fn activity_skip_names() -> Seq<Seq<char>> {
    seq![".git"@, "node_modules"@, "target"@, ".venv"@, "venv"@, ".tox"@, ".nox"@, ".dart_tool"@,
        ".gradle"@, "dist"@, "build"@, "out"@, ".next"@, ".nuxt"@, ".output"@, ".svelte-kit"@,
        ".turbo"@, ".parcel-cache"@, ".vite"@, ".astro"@, "coverage"@, "__pycache__"@,
        ".pytest_cache"@, ".mypy_cache"@, ".ruff_cache"@, ".hypothesis"@, ".ipynb_checkpoints"@,
        "Pods"@, ".serena"@]
}

/// The files whose modification times show work on a git checkout, even
/// between commits: the `.git` dir itself, then its index, `HEAD`,
/// `packed-refs` and `logs/HEAD`, probed in this order before the source
/// tree is walked.
pub fn git_activity_paths(platform: Platform, git_dir: &str) -> (v: Vec<String>)
    ensures
        string_views(v@) == seq![
            git_dir@,
            join_spec(platform, git_dir@, "index"@),
            join_spec(platform, git_dir@, "HEAD"@),
            join_spec(platform, git_dir@, "packed-refs"@),
            join_spec(platform, git_dir@, "logs/HEAD"@),
        ],
{
    let mut v: Vec<String> = Vec::new();
    v.push(String::from_str(git_dir));
    v.push(path_join(platform, git_dir, "index"));
    v.push(path_join(platform, git_dir, "HEAD"));
    v.push(path_join(platform, git_dir, "packed-refs"));
    v.push(path_join(platform, git_dir, "logs/HEAD"));
    assert(string_views(v@) =~= seq![
        git_dir@,
        join_spec(platform, git_dir@, "index"@),
        join_spec(platform, git_dir@, "HEAD"@),
        join_spec(platform, git_dir@, "packed-refs"@),
        join_spec(platform, git_dir@, "logs/HEAD"@),
    ]);
    v
}

/// Does the project-activity walk leave out this entry (and all below it)?
/// Only directories below the project root, named in the skip list, are
/// left out; `name` is `None` for a name that is not UTF-8.
pub fn activity_prunes(is_dir: bool, depth: usize, name: Option<&str>) -> (r: bool)
    ensures
        r == (is_dir && depth > 0 && (name matches Some(n) && activity_skip_names().contains(n@))),
{
    if !is_dir || depth == 0 {
        return false;
    }
    match name {
        None => false,
        Some(n) => {
            let list: &[&str] = &[
                ".git",
                "node_modules",
                "target",
                ".venv",
                "venv",
                ".tox",
                ".nox",
                ".dart_tool",
                ".gradle",
                "dist",
                "build",
                "out",
                ".next",
                ".nuxt",
                ".output",
                ".svelte-kit",
                ".turbo",
                ".parcel-cache",
                ".vite",
                ".astro",
                "coverage",
                "__pycache__",
                ".pytest_cache",
                ".mypy_cache",
                ".ruff_cache",
                ".hypothesis",
                ".ipynb_checkpoints",
                "Pods",
                ".serena",
            ];
            assert(str_views(list@) =~= activity_skip_names());
            slice_has(list, n)
        },
    }
}

/// Seconds in `days` days, saturating: the width of an age window.
pub fn window_secs(days: u64) -> (s: u64)
    ensures
        s == (if days * 86_400 <= u64::MAX { days * 86_400 } else { u64::MAX as int }),
{
    match days.checked_mul(86_400) {
        Some(v) => v,
        None => u64::MAX,
    }
}


/// The outcome of a claimed directory's age gate, given what the probes
/// found: whether the project was active within `dep_stale`, and whether
/// anything in the directory was written within the window its gate uses.
pub open spec fn gate_outcome(kind: Kind, ages: Ages, has_project_root: bool, project_active: bool, artifact_newer: bool) -> GateStep {
    let s0 = gate_start_spec(kind, ages, has_project_root);
    match s0 {
        GateStep::ArtifactNewerWithin(_) => gate_next_spec(s0, artifact_newer),
        GateStep::ProjectActiveWithin(_) => {
            let s1 = gate_next_spec(s0, project_active);
            match s1 {
                GateStep::ArtifactNewerWithin(_) => gate_next_spec(s1, artifact_newer),
                _ => s1,
            }
        },
        _ => s0,
    }
}

/// The age gate: an artifact is stale exactly when nothing inside it was
/// written within `stale` days; a dependency tree exactly when it has a
/// project root, the project was not worked on within `dep_stale` days, and
/// nothing in the tree itself was written within that window. The windows are
/// the ones named: `stale` for artifacts, `dep_stale` for dependency trees.
pub proof fn age_gate_law(kind: Kind, ages: Ages, has_project_root: bool, project_active: bool, artifact_newer: bool)
    ensures
        kind_gate(kind) == Gate::ArtifactStale ==> {
            &&& gate_start_spec(kind, ages, has_project_root) == GateStep::ArtifactNewerWithin(ages.stale)
            &&& (gate_outcome(kind, ages, has_project_root, project_active, artifact_newer) == GateStep::Stale
                <==> !artifact_newer)
        },
        kind_gate(kind) == Gate::ProjectStale ==> {
            &&& (has_project_root ==> gate_start_spec(kind, ages, has_project_root)
                == GateStep::ProjectActiveWithin(ages.dep_stale))
            &&& (has_project_root && !project_active ==> gate_next_spec(
                gate_start_spec(kind, ages, has_project_root), project_active)
                == GateStep::ArtifactNewerWithin(ages.dep_stale))
            &&& (gate_outcome(kind, ages, has_project_root, project_active, artifact_newer) == GateStep::Stale
                <==> (has_project_root && !project_active && !artifact_newer))
        },
        gate_outcome(kind, ages, has_project_root, project_active, artifact_newer) == GateStep::Stale
            || gate_outcome(kind, ages, has_project_root, project_active, artifact_newer) == GateStep::Fresh,
{
}

/// A generically named directory (`build`, `dist`, `out`) is never claimed
/// on its name and markers alone: classification asks git, and only git's
/// answer that it is ignored (`git check-ignore -q` exiting 0) claims it; a
/// tracked directory, or a git that cannot answer, leaves it alone.
pub proof fn generic_names_need_git(name: Seq<char>, kind: Kind, git_status: Option<i32>)
    requires
        is_generic_kind(kind),
    ensures
        walk_classified_spec(name, Some(kind)) == WalkStep::AskGit(kind),
        walk_git_verdict_spec(kind, ignored_from_status_spec(git_status)) == WalkStep::Claim(kind)
            <==> git_status == Some(0i32),
        walk_git_verdict_spec(kind, ignored_from_status_spec(git_status)) != WalkStep::Claim(kind)
            ==> walk_git_verdict_spec(kind, ignored_from_status_spec(git_status)) == WalkStep::Continue,
{
}

} // verus!
