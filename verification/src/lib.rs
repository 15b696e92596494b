//! rldyour-cleaner: the decision logic of a policy-driven janitor for stale
//! build artifacts and tool caches. It removes what is provably stale, on a
//! schedule, without ever breaking a build or app that is running: every
//! candidate must pass an age gate and every safety guard before removal.
//!
//! The library decides; the caller walks the filesystem, probes, deletes and
//! prints. Each module header explains its piece.

pub mod clean;
pub mod cli;
pub mod clock;
pub mod config;
pub mod homecache;
pub mod kinds;
pub mod os;
pub mod report;
pub mod safety;
pub mod scan;
pub mod text;

use crate::config::{bound_for_gate, Ages};
use crate::homecache::{cache_decision, is_mutation, preview_never_mutates, CacheEvent, CacheResult, HomeCandidate};
use crate::kinds::{kind_gate, kind_label, Kind};
use crate::os::{max_level, use_pct_spec};
use crate::report::Entry;
use crate::safety::{protect_hit, protect_match, Skip};
use crate::scan::Candidate;
use crate::text::{concat, decimal, decimal_string, string_views};
use vstd::prelude::*;

verus! {

/// Disk-pressure mode is on when the worst measured fill level reaches
/// `pressure_pct`.
pub open spec fn under_pressure_spec(use_pct: Option<u64>, pressure_pct: u64) -> bool {
    use_pct matches Some(p) && p >= pressure_pct
}

/// Is disk-pressure mode on for the worst fill level `use_pct`?
pub fn under_pressure(use_pct: Option<u64>, pressure_pct: u64) -> (r: bool)
    ensures
        r == under_pressure_spec(use_pct, pressure_pct),
{
    match use_pct {
        Some(p) => p >= pressure_pct,
        None => false,
    }
}

proof fn max_level_bounded(levels: Seq<Option<u64>>, bound: u64)
    requires
        forall|i: int| 0 <= i < levels.len() ==> (#[trigger] levels[i] matches Some(v) ==> v <= bound),
    ensures
        max_level(levels) matches Some(m) ==> m <= bound,
    decreases levels.len(),
{
    if levels.len() > 0 {
        max_level_bounded(levels.drop_last(), bound);
    }
}

/// A `pressure_pct` above 100 disables pressure mode: fill levels are
/// percentages and never exceed 100, so neither one level nor the worst of
/// several reaches it.
pub proof fn pressure_above_100_never_triggers(totals: Seq<u64>, avails: Seq<u64>, pressure_pct: u64)
    requires
        totals.len() == avails.len(),
        forall|i: int| 0 <= i < totals.len() ==> avails[i] <= totals[i],
        pressure_pct > 100,
    ensures
        !under_pressure_spec(
            max_level(Seq::new(totals.len(), |i: int| use_pct_spec(totals[i], avails[i]))),
            pressure_pct,
        ),
{
    let levels = Seq::new(totals.len(), |i: int| use_pct_spec(totals[i], avails[i]));
    assert forall|i: int| 0 <= i < levels.len() implies (#[trigger] levels[i] matches Some(v) ==> v <= 100) by {
        let t = totals[i];
        let a = avails[i];
        if t > 0 {
            assert((t - a) * 100 <= t * 100) by (nonlinear_arith)
                requires
                    a <= t,
            ;
            assert(((t - a) * 100) / (t as int) <= 100) by (nonlinear_arith)
                requires
                    (t - a) * 100 <= t * 100,
                    t > 0,
                    a <= t,
            ;
        }
    }
    max_level_bounded(levels, 100);
}

/// The age bound that decides a candidate: `target/*/incremental` has its own
/// shorter leash; every other kind goes by its gate.
pub open spec fn age_bound_spec(kind: Kind, ages: Ages) -> u64 {
    if kind == Kind::RustIncremental {
        ages.incremental
    } else {
        bound_for_gate(ages, kind_gate(kind))
    }
}

/// The age bound that decided a candidate of `kind` (shown in reports).
pub fn age_bound(kind: Kind, ages: Ages) -> (d: u64)
    ensures
        d == age_bound_spec(kind, ages),
{
    if kind == Kind::RustIncremental {
        ages.incremental
    } else {
        ages.for_gate(kind.gate())
    }
}

/// Whole days since the newest write inside the candidate; 0 when unknown.
/// For a known write the count rests on the wall clock (see
/// [`crate::clock::days_since`]).
pub fn age_days(c: &Candidate) -> (d: u64)
    ensures
        c.newest.is_none() ==> d == 0,
        d <= u64::MAX / 86_400,
{
    crate::clock::days_since(&c.newest)
}

/// May the canonical path `canon` be touched? Not when it contains any
/// non-empty protect pattern: the same rule the candidate guard applies.
pub fn path_allowed(canon: &str, protect: &Vec<String>) -> (r: bool)
    ensures
        r == (protect_hit(canon@, string_views(protect@)) is None),
{
    protect_match(canon, protect).is_none()
}

/// What became of a candidate in a run.
#[derive(Debug)]
pub enum RunOutcome {
    /// Scan or dry run: every guard passed; it would go (stale past `bound` days).
    WouldDelete { bound: u64 },
    /// Removed, freeing `freed` bytes.
    Deleted { freed: u64 },
    /// The OS refused to rename the held tree: a skip, not a failure.
    Busy(String),
    /// The removal failed.
    Failed(String),
    /// A guard refused it.
    Skipped(Skip),
}

/// The report entry for candidate `c` whose newest write is `age_days` old.
pub fn entry_for(c: &Candidate, outcome: RunOutcome, age_days: u64) -> (e: Entry)
    ensures
        e.path@ == c.path@,
        e.kind@ == kind_label(c.kind),
        e.age_days == age_days,
        match outcome {
            RunOutcome::WouldDelete { bound } => e.bytes == c.size_bytes && e.action@ == "would-delete"@
                && e.reason@ == "stale "@ + decimal(bound as nat) + "d+"@,
            RunOutcome::Deleted { freed } => e.bytes == freed && e.action@ == "deleted"@
                && e.reason@.len() == 0,
            RunOutcome::Busy(m) => e.bytes == 0 && e.action@ == "skipped"@ && e.reason@ == "in-use: "@ + m@,
            RunOutcome::Failed(m) => e.bytes == 0 && e.action@ == "failed"@ && e.reason@ == m@,
            RunOutcome::Skipped(s) => e.bytes == c.size_bytes && e.action@ == "skipped"@
                && e.reason@ == s.reason@ + ": "@ + s.detail@,
        },
{
    let path = c.path.clone();
    let kind = String::from_str(c.kind.label());
    match outcome {
        RunOutcome::WouldDelete { bound } => {
            let mut reason = concat("stale ", decimal_string(bound).as_str());
            reason.append("d+");
            Entry { path, kind, bytes: c.size_bytes, action: "would-delete", reason, age_days }
        },
        RunOutcome::Deleted { freed } => Entry {
            path,
            kind,
            bytes: freed,
            action: "deleted",
            reason: String::new(),
            age_days,
        },
        RunOutcome::Busy(m) => Entry {
            path,
            kind,
            bytes: 0,
            action: "skipped",
            reason: concat("in-use: ", m.as_str()),
            age_days,
        },
        RunOutcome::Failed(m) => Entry { path, kind, bytes: 0, action: "failed", reason: m, age_days },
        RunOutcome::Skipped(s) => {
            let mut reason = concat(s.reason, ": ");
            reason.append(s.detail.as_str());
            Entry { path, kind, bytes: c.size_bytes, action: "skipped", reason, age_days }
        },
    }
}

/// Are refused candidates reported? Always in a run; in a scan only when
/// verbose.
pub fn reports_skips(verbose: bool, scan_only: bool) -> (r: bool)
    ensures
        r == (verbose || !scan_only),
{
    verbose || !scan_only
}

/// The three ways of running the tool: `scan` lists candidates, `run
/// --dry-run` evaluates everything, `run` cleans. Only the last changes
/// anything.
#[derive(Debug, Clone, Copy, PartialEq, Eq, Structural)]
pub enum RunMode {
    Scan,
    DryRun,
    Run,
}

/// Does a run in `mode` change anything: delete candidates, mutate caches,
/// reap pending dirs, save the report for `status`? Only a real run: a scan
/// never deletes and a dry run is a question, not a run.
pub open spec fn run_mutates_spec(mode: RunMode) -> bool {
    mode == RunMode::Run
}

/// See [`run_mutates_spec`].
pub fn run_mutates(mode: RunMode) -> (r: bool)
    ensures
        r == run_mutates_spec(mode),
{
    match mode {
        RunMode::Run => true,
        _ => false,
    }
}

/// What happens to a candidate that passed every guard.
#[derive(Debug)]
pub enum CandidateStep {
    /// Report it with this outcome; nothing is deleted.
    Report(RunOutcome),
    /// Delete it, holding the guard's locks.
    Execute,
}

/// The step for a candidate of `kind` that passed every guard: a scan or a
/// dry run reports that it would go (stale past its age bound); only a real
/// run deletes it.
pub open spec fn after_guard_spec(mode: RunMode, kind: Kind, ages: Ages) -> CandidateStep {
    if mode == RunMode::Run {
        CandidateStep::Execute
    } else {
        CandidateStep::Report(RunOutcome::WouldDelete { bound: age_bound_spec(kind, ages) })
    }
}

/// See [`after_guard_spec`].
pub fn after_guard(mode: RunMode, kind: Kind, ages: Ages) -> (s: CandidateStep)
    ensures
        s == after_guard_spec(mode, kind, ages),
        !(mode is Run) ==> (s matches CandidateStep::Report(RunOutcome::WouldDelete { bound })
            && bound == age_bound_spec(kind, ages)),
        mode is Run ==> s is Execute,
{
    match mode {
        RunMode::Run => CandidateStep::Execute,
        _ => CandidateStep::Report(RunOutcome::WouldDelete { bound: age_bound(kind, ages) }),
    }
}

/// A scan and a dry run change nothing: no candidate is deleted, no pending
/// dir is reaped, no report is saved, and no cache is mutated (caches are
/// previewed, and a preview never asks for a mutation).
pub proof fn scan_and_dry_run_never_mutate(mode: RunMode, kind: Kind, ages: Ages, c: HomeCandidate, ev: CacheEvent)
    requires
        !(mode is Run),
    ensures
        !(after_guard_spec(mode, kind, ages) is Execute),
        !run_mutates_spec(mode),
        !is_mutation(cache_decision(c, ev, !run_mutates_spec(mode))),
{
    preview_never_mutates(c, ev);
}

/// What a run does with a tool cache before processing it.
#[derive(Debug)]
pub enum CacheGate {
    /// The cache is not on this machine: nothing to report.
    Absent,
    /// Not processed; report this result.
    Held(CacheResult),
    /// Process it.
    Proceed,
}

/// Whether a run processes cache `c`: a cache that is not a directory
/// here is passed over; a pressure-only cache waits for a pressure run; a
/// cache under a protected path is never touched.
pub fn cache_gate(c: &HomeCandidate, is_dir: bool, pressure: bool, allowed: bool) -> (g: CacheGate)
    ensures
        !is_dir ==> g is Absent,
        is_dir && c.pressure_only && !pressure ==> (g matches CacheGate::Held(r) && r.id@ == c.id@
            && r.freed_bytes == 0 && r.detail@ == "reserved for disk-pressure runs"@),
        is_dir && !(c.pressure_only && !pressure) && !allowed ==> (g matches CacheGate::Held(r)
            && r.id@ == c.id@ && r.freed_bytes == 0 && r.detail@ == "protected"@),
        is_dir && !(c.pressure_only && !pressure) && allowed ==> g is Proceed,
{
    if !is_dir {
        CacheGate::Absent
    } else if c.pressure_only && !pressure {
        CacheGate::Held(CacheResult {
            id: String::from_str(c.id),
            freed_bytes: 0,
            detail: String::from_str("reserved for disk-pressure runs"),
        })
    } else if !allowed {
        CacheGate::Held(CacheResult { id: String::from_str(c.id), freed_bytes: 0, detail: String::from_str("protected") })
    } else {
        CacheGate::Proceed
    }
}

} // verus!
