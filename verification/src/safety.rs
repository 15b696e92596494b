//! The guards that make unattended deletion safe. A candidate is removed only
//! when every guard allows it; each denial carries a machine-stable reason
//! and a human-readable detail.
//!
//! Order, as a state machine whose probes the caller performs:
//!   path   - real dir, not a symlink, deep enough, still proving its kind,
//!            not protected
//!   fresh  - dir mtime, then a full tree walk: nothing written within
//!            `guard_fresh_minutes`
//!   proc   - no process has the dir (or its project) as exe/cwd/fd/maps
//!            target; an undecidable probe fails closed
//!   lock   - cargo's lock files must be acquirable, and are held through
//!            the deletion

use crate::config::Policy;
use crate::kinds::{is_dependency_kind, Kind};
use crate::scan::Candidate;
use crate::text::{concat, decimal, decimal_string, has_substring, join_decimals, joined_decimals, seq_contains, str_eq, str_views, string_views};
use vstd::prelude::*;

verus! {

/// Why a candidate was refused.
#[derive(Debug)]
pub struct Skip {
    pub reason: &'static str,
    pub detail: String,
}

/// A refusal with `reason` and `detail`.
pub fn skip(reason: &'static str, detail: String) -> (s: Skip)
    ensures
        s.reason == reason,
        s.detail == detail,
{
    Skip { reason, detail }
}

/// A refusal as plain values: (reason, detail).
pub type Refusal = (Seq<char>, Seq<char>);

/// The view of a refusal.
pub open spec fn refusal_of(s: Skip) -> Refusal {
    (s.reason@, s.detail@)
}

/// The metadata of the candidate path itself (not following symlinks).
#[derive(Debug, Clone, Copy)]
pub struct PathMeta {
    pub is_symlink: bool,
    pub is_dir: bool,
}

/// What the path guard's probes found.
#[derive(Debug)]
pub struct PathFacts {
    /// The path's own metadata, or the reader's message when it is gone.
    pub metadata: Result<PathMeta, String>,
    /// The candidate path's last component (empty when it has none).
    pub name: String,
    /// The number of components of the candidate path.
    pub component_count: usize,
    /// The canonical path, or the resolver's message.
    pub canonical: Result<String, String>,
    /// The last component of the canonical path's parent.
    pub canonical_parent_name: Option<String>,
    /// The last component of the canonical path's grandparent.
    pub canonical_grandparent_name: Option<String>,
    /// The kind the canonical path matches now (see `kinds::match_dir`).
    pub rematch: Option<Kind>,
}

/// Does the path still prove its kind? Nested candidates have their shape
/// spelled out (`target/<profile>/incremental`, `.dart_tool/flutter_build`);
/// every other kind must round-trip through the matching rules.
pub open spec fn shape_ok_spec(kind: Kind, f: PathFacts) -> bool {
    match kind {
        Kind::RustIncremental => f.name@ == "incremental"@
            && (f.canonical_grandparent_name matches Some(g) && g@ == "target"@),
        Kind::DartToolBuild => f.name@ == "flutter_build"@
            && (f.canonical_parent_name matches Some(p) && p@ == ".dart_tool"@),
        _ => f.rematch == Some(kind),
    }
}

/// The first non-empty protect pattern, at or after `i`, that occurs in `canon`.
pub open spec fn protect_hit_from(i: int, canon: Seq<char>, protect: Seq<Seq<char>>) -> Option<Seq<char>>
    decreases protect.len() - i,
{
    if i < 0 || i >= protect.len() {
        None
    } else if protect[i].len() > 0 && seq_contains(canon, protect[i]) {
        Some(protect[i])
    } else {
        protect_hit_from(i + 1, canon, protect)
    }
}

/// The first protect pattern that a canonical path contains.
pub open spec fn protect_hit(canon: Seq<char>, protect: Seq<Seq<char>>) -> Option<Seq<char>> {
    protect_hit_from(0, canon, protect)
}

/// The path guard's refusal, checking in order: gone, symlink, not a
/// directory, too shallow, unresolvable, wrong shape, protected.
pub open spec fn path_refusal(kind: Kind, protect: Seq<Seq<char>>, f: PathFacts) -> Option<Refusal> {
    match f.metadata {
        Err(e) => Some(("gone"@, e@)),
        Ok(m) => if m.is_symlink {
            Some(("symlink"@, "never delete through a symlink"@))
        } else if !m.is_dir {
            Some(("not-dir"@, "expected a directory"@))
        } else if f.name@.len() == 0 || f.component_count < 4 {
            Some(("shallow"@, "refusing a suspiciously shallow path"@))
        } else {
            match f.canonical {
                Err(e) => Some(("canonicalize"@, e@)),
                Ok(cn) => if !shape_ok_spec(kind, f) {
                    Some(("shape"@, "path no longer proves its kind (name/marker mismatch)"@))
                } else {
                    match protect_hit(cn@, protect) {
                        Some(p) => Some(("protected"@, "matches protect pattern '"@ + p + "'"@)),
                        None => None,
                    }
                },
            }
        },
    }
}

/// The search from position `k`: a hit exactly when some non-empty pattern
/// at or after `k` occurs, and a hit is the first such pattern.
proof fn protect_hit_from_finds(k: int, canon: Seq<char>, ps: Seq<Seq<char>>)
    requires
        0 <= k <= ps.len(),
    ensures
        protect_hit_from(k, canon, ps) is None <==> (forall|i: int|
            k <= i < ps.len() ==> (#[trigger] ps[i]).len() == 0 || !seq_contains(canon, ps[i])),
        protect_hit_from(k, canon, ps) matches Some(p) ==> exists|i: int|
            k <= i < ps.len() && ps[i] == p && p.len() > 0 && seq_contains(canon, p) && (forall|j: int|
                k <= j < i ==> (#[trigger] ps[j]).len() == 0 || !seq_contains(canon, ps[j])),
    decreases ps.len() - k,
{
    if k < ps.len() {
        protect_hit_from_finds(k + 1, canon, ps);
        if !(ps[k].len() > 0 && seq_contains(canon, ps[k])) {
            if protect_hit_from(k, canon, ps) is Some {
                let p = protect_hit_from(k, canon, ps).unwrap();
                let i = choose|i: int|
                    k + 1 <= i < ps.len() && ps[i] == p && p.len() > 0 && seq_contains(canon, p) && (forall|j: int|
                        k + 1 <= j < i ==> (#[trigger] ps[j]).len() == 0 || !seq_contains(canon, ps[j]));
                assert(k <= i < ps.len() && ps[i] == p && p.len() > 0 && seq_contains(canon, p) && (forall|j: int|
                    k <= j < i ==> (#[trigger] ps[j]).len() == 0 || !seq_contains(canon, ps[j])));
            }
        }
    }
}

/// A path is protected exactly when some non-empty protect pattern, at any
/// position of the list, occurs in it; the pattern reported is the first
/// such pattern of the list. Empty patterns protect nothing.
pub proof fn protected_exactly_when_some_pattern_occurs(canon: Seq<char>, ps: Seq<Seq<char>>)
    ensures
        protect_hit(canon, ps) is None <==> (forall|i: int|
            0 <= i < ps.len() ==> (#[trigger] ps[i]).len() == 0 || !seq_contains(canon, ps[i])),
        protect_hit(canon, ps) matches Some(p) ==> exists|i: int|
            0 <= i < ps.len() && ps[i] == p && p.len() > 0 && seq_contains(canon, p) && (forall|j: int|
                0 <= j < i ==> (#[trigger] ps[j]).len() == 0 || !seq_contains(canon, ps[j])),
{
    protect_hit_from_finds(0, canon, ps);
}

/// The first protect pattern that `canon` contains, if any.
pub fn protect_match(canon: &str, protect: &Vec<String>) -> (r: Option<String>)
    ensures
        match r {
            Some(p) => protect_hit(canon@, string_views(protect@)) == Some(p@),
            None => protect_hit(canon@, string_views(protect@)) is None,
        },
{
    let ghost pv = string_views(protect@);
    let mut i: usize = 0;
    while i < protect.len()
        invariant
            i <= protect@.len(),
            pv == string_views(protect@),
            protect_hit(canon@, pv) == protect_hit_from(i as int, canon@, pv),
        decreases protect@.len() - i,
    {
        let p = &protect[i];
        assert(pv[i as int] == p@);
        if p.as_str().unicode_len() > 0 && has_substring(canon, p.as_str()) {
            return Some(p.clone());
        }
        i = i + 1;
    }
    None
}

fn shape_ok(kind: Kind, f: &PathFacts) -> (r: bool)
    ensures
        r == shape_ok_spec(kind, *f),
{
    match kind {
        Kind::RustIncremental => str_eq(f.name.as_str(), "incremental") && match &f.canonical_grandparent_name {
            Some(g) => str_eq(g.as_str(), "target"),
            None => false,
        },
        Kind::DartToolBuild => str_eq(f.name.as_str(), "flutter_build") && match &f.canonical_parent_name {
            Some(p) => str_eq(p.as_str(), ".dart_tool"),
            None => false,
        },
        _ => match f.rematch {
            Some(k) => k == kind,
            None => false,
        },
    }
}

/// The path guard: refuse on path-shape problems; see [`path_refusal`].
pub fn path_guard(kind: Kind, policy: &Policy, f: &PathFacts) -> (r: Result<(), Skip>)
    ensures
        match r {
            Ok(()) => path_refusal(kind, string_views(policy.protect@), *f) is None,
            Err(s) => path_refusal(kind, string_views(policy.protect@), *f) == Some(refusal_of(s)),
        },
{
    match &f.metadata {
        Err(e) => return Err(skip("gone", e.clone())),
        Ok(m) => {
            if m.is_symlink {
                return Err(skip("symlink", String::from_str("never delete through a symlink")));
            }
            if !m.is_dir {
                return Err(skip("not-dir", String::from_str("expected a directory")));
            }
        },
    }
    if f.name.as_str().unicode_len() == 0 || f.component_count < 4 {
        return Err(skip("shallow", String::from_str("refusing a suspiciously shallow path")));
    }
    match &f.canonical {
        Err(e) => Err(skip("canonicalize", e.clone())),
        Ok(cn) => {
            if !shape_ok(kind, f) {
                return Err(
                    skip("shape", String::from_str("path no longer proves its kind (name/marker mismatch)")),
                );
            }
            match protect_match(cn.as_str(), &policy.protect) {
                Some(p) => {
                    let mut d = concat("matches protect pattern '", p.as_str());
                    d.append("'");
                    Err(skip("protected", d))
                },
                None => Ok(()),
            }
        },
    }
}

/// The stages of the guard, in the order they run.
#[derive(Debug, Clone, Copy, PartialEq, Eq, Structural)]
pub enum GuardStep {
    /// Probe the path (see [`PathFacts`]).
    CheckPath,
    /// Probe whether the directory's own mtime lies within the guard window.
    CheckDirMtime,
    /// Probe whether anything inside the tree was written within the window.
    CheckTree,
    /// Probe which processes use the process scope (see [`proc_scope`]).
    CheckProcesses,
    /// Take cargo's lock files in the lock scope (see [`lock_dir`]) and keep
    /// them until the deletion is done.
    TakeLocks,
    /// Every guard passed.
    Allowed,
}

/// What the probe of a guard stage found.
#[derive(Debug)]
pub enum GuardEvent {
    PathChecked(PathFacts),
    /// The directory's own mtime lies within the guard window.
    DirMtimeWarm(bool),
    /// Something inside the tree was written within the guard window.
    TreeWarm(bool),
    /// The processes using the scope; `None` when the platform cannot tell.
    Users(Option<Vec<u32>>),
    /// The lock files were taken, or the refusal for why not.
    LocksTaken(Result<(), Skip>),
}

/// The stage an event answers.
pub open spec fn event_stage(ev: GuardEvent) -> GuardStep {
    match ev {
        GuardEvent::PathChecked(_) => GuardStep::CheckPath,
        GuardEvent::DirMtimeWarm(_) => GuardStep::CheckDirMtime,
        GuardEvent::TreeWarm(_) => GuardStep::CheckTree,
        GuardEvent::Users(_) => GuardStep::CheckProcesses,
        GuardEvent::LocksTaken(_) => GuardStep::TakeLocks,
    }
}

/// The guard's answer to one event: the next stage, or the refusal.
/// A process probe that cannot enumerate fails closed.
pub open spec fn guard_next_spec(kind: Kind, policy: Policy, ev: GuardEvent) -> Result<GuardStep, Refusal> {
    match ev {
        GuardEvent::PathChecked(f) => match path_refusal(kind, string_views(policy.protect@), f) {
            Some(r) => Err(r),
            None => Ok(GuardStep::CheckDirMtime),
        },
        GuardEvent::DirMtimeWarm(w) => if w {
            Err(("warm"@, "directory changed within the last "@ + decimal(policy.guard_fresh_minutes as nat) + " min"@))
        } else {
            Ok(GuardStep::CheckTree)
        },
        GuardEvent::TreeWarm(w) => if w {
            Err(("warm"@, "written within the guard window"@))
        } else {
            Ok(GuardStep::CheckProcesses)
        },
        GuardEvent::Users(u) => match u {
            None => Err(("proc-unknown"@, "process liveness unavailable on this platform run"@)),
            Some(v) => if v@.len() > 0 {
                Err(("in-use"@, "held by process(es) "@ + joined_decimals(v@, ","@)))
            } else {
                Ok(GuardStep::TakeLocks)
            },
        },
        GuardEvent::LocksTaken(r) => match r {
            Err(s) => Err(refusal_of(s)),
            Ok(()) => Ok(GuardStep::Allowed),
        },
    }
}

/// Advance the guard of a candidate of `kind` by one probe result.
pub fn guard_step(kind: Kind, policy: &Policy, ev: GuardEvent) -> (r: Result<GuardStep, Skip>)
    ensures
        match r {
            Ok(s) => guard_next_spec(kind, *policy, ev) == Ok::<GuardStep, Refusal>(s),
            Err(s) => guard_next_spec(kind, *policy, ev) == Err::<GuardStep, Refusal>(refusal_of(s)),
        },
{
    match ev {
        GuardEvent::PathChecked(f) => {
            match path_guard(kind, policy, &f) {
                Ok(()) => Ok(GuardStep::CheckDirMtime),
                Err(s) => Err(s),
            }
        },
        GuardEvent::DirMtimeWarm(w) => {
            if w {
                let mut d = concat("directory changed within the last ", decimal_string(policy.guard_fresh_minutes).as_str());
                d.append(" min");
                Err(skip("warm", d))
            } else {
                Ok(GuardStep::CheckTree)
            }
        },
        GuardEvent::TreeWarm(w) => {
            if w {
                Err(skip("warm", String::from_str("written within the guard window")))
            } else {
                Ok(GuardStep::CheckProcesses)
            }
        },
        GuardEvent::Users(u) => match u {
            None => Err(skip("proc-unknown", String::from_str("process liveness unavailable on this platform run"))),
            Some(v) => {
                if v.len() > 0 {
                    let d = concat("held by process(es) ", join_decimals(&v, ",").as_str());
                    Err(skip("in-use", d))
                } else {
                    Ok(GuardStep::TakeLocks)
                }
            },
        },
        GuardEvent::LocksTaken(r) => match r {
            Err(s) => Err(s),
            Ok(()) => Ok(GuardStep::Allowed),
        },
    }
}

/// The guard run on a sequence of probe results, from `step`: each result
/// must answer the stage the guard is at; the first refusal ends the run.
pub open spec fn run_guard(kind: Kind, policy: Policy, step: GuardStep, events: Seq<GuardEvent>) -> Result<GuardStep, Refusal>
    decreases events.len(),
{
    if events.len() == 0 {
        Ok(step)
    } else if step == GuardStep::Allowed || event_stage(events[0]) != step {
        Err(("out-of-order"@, seq![]))
    } else {
        match guard_next_spec(kind, policy, events[0]) {
            Err(r) => Err(r),
            Ok(next) => run_guard(kind, policy, next, events.drop_first()),
        }
    }
}

/// A candidate is allowed only when every guard passed, in order: the path
/// facts raise no refusal, neither the directory nor its tree was written
/// within the guard window, the process probe could enumerate and found no
/// user, and the lock files were taken. Nothing else reaches `Allowed`.
pub proof fn allowed_only_when_every_guard_passed(kind: Kind, policy: Policy, events: Seq<GuardEvent>)
    requires
        run_guard(kind, policy, GuardStep::CheckPath, events) == Ok::<GuardStep, Refusal>(GuardStep::Allowed),
    ensures
        events.len() == 5,
        events[0] matches GuardEvent::PathChecked(f) && path_refusal(kind, string_views(policy.protect@), f) is None,
        events[1] == GuardEvent::DirMtimeWarm(false),
        events[2] == GuardEvent::TreeWarm(false),
        events[3] matches GuardEvent::Users(Some(v)) && v@.len() == 0,
        events[4] matches GuardEvent::LocksTaken(Ok(())),
{
    let ok = Ok::<GuardStep, Refusal>(GuardStep::Allowed);
    assert(events.len() > 0);
    let e1 = events.drop_first();
    assert(run_guard(kind, policy, GuardStep::CheckDirMtime, e1) == ok);
    assert(e1.len() > 0);
    let e2 = e1.drop_first();
    assert(run_guard(kind, policy, GuardStep::CheckTree, e2) == ok);
    assert(e2.len() > 0);
    let e3 = e2.drop_first();
    assert(run_guard(kind, policy, GuardStep::CheckProcesses, e3) == ok);
    assert(e3.len() > 0);
    let e4 = e3.drop_first();
    assert(run_guard(kind, policy, GuardStep::TakeLocks, e4) == ok);
    assert(e4.len() > 0);
    let e5 = e4.drop_first();
    assert(run_guard(kind, policy, GuardStep::Allowed, e5) == ok);
    assert(e5.len() == 0);
    assert(events[1] == e1[0]);
    assert(events[2] == e2[0]);
    assert(events[3] == e3[0]);
    assert(events[4] == e4[0]);
}

/// The directory whose cargo locks coordinate a candidate: `target` itself,
/// or, for `target/<profile>/incremental`, the enclosing target dir.
pub fn lock_dir(c: &Candidate) -> (r: Option<String>)
    ensures
        r == (match c.kind {
            Kind::RustTarget => Some(c.path),
            Kind::RustIncremental => c.project_root,
            _ => None,
        }),
{
    match c.kind {
        Kind::RustTarget => Some(c.path.clone()),
        Kind::RustIncremental => c.project_root.clone(),
        _ => None,
    }
}

/// The subtree a live process must not sit in: the project root for
/// dependency trees (when known), the candidate itself otherwise.
pub fn proc_scope(c: &Candidate) -> (r: String)
    ensures
        r == (if is_dependency_kind(c.kind) && c.project_root is Some {
            c.project_root.unwrap()
        } else {
            c.path
        }),
{
    if c.kind.guards_project_root() {
        match &c.project_root {
            Some(root) => return root.clone(),
            None => {},
        }
    }
    c.path.clone()
}

/// The lock files cargo holds for a whole build, in the order they are
/// taken: `.cargo-lock`, and the newer `.cargo-build-lock`. A missing one is
/// never created (that would bump the directory's mtime); its absence means
/// no build ever ran there.
pub fn cargo_lock_names() -> (v: Vec<&'static str>)
    ensures
        str_views(v@) == seq![".cargo-lock"@, ".cargo-build-lock"@],
{
    let mut v: Vec<&'static str> = Vec::new();
    v.push(".cargo-lock");
    v.push(".cargo-build-lock");
    assert(str_views(v@) =~= seq![".cargo-lock"@, ".cargo-build-lock"@]);
    v
}

/// The refusal for a cargo lock file that exists but cannot be opened.
pub fn lock_open_failed(path: &str, msg: &str) -> (s: Skip)
    ensures
        s.reason@ == "lock"@,
        s.detail@ == "cannot open "@ + path@ + ": "@ + msg@,
{
    let mut d = concat("cannot open ", path);
    d.append(": ");
    d.append(msg);
    skip("lock", d)
}

/// The refusal for a cargo lock file held by a running build.
pub fn lock_held(name: &str) -> (s: Skip)
    ensures
        s.reason@ == "locked"@,
        s.detail@ == name@ + " is held by a cargo build"@,
{
    skip("locked", concat(name, " is held by a cargo build"))
}

/// Seconds in the guard window of `minutes` minutes, saturating.
pub fn guard_window_secs(minutes: u64) -> (s: u64)
    ensures
        s == (if minutes * 60 <= u64::MAX { minutes * 60 } else { u64::MAX as int }),
{
    match minutes.checked_mul(60) {
        Some(v) => v,
        None => u64::MAX,
    }
}

} // verus!
