//! The run report: what each candidate and cache came to, and the totals.
//! Printed and persisted by the caller.

use crate::homecache::CacheResult;
use crate::text::{concat, decimal, decimal_string, str_eq};
use vstd::prelude::*;

verus! {

/// One candidate's line in the report.
#[derive(Debug)]
pub struct Entry {
    pub path: String,
    pub kind: String,
    pub bytes: u64,
    /// deleted | skipped | would-delete | evicted | failed
    pub action: &'static str,
    pub reason: String,
    /// Days since the newest write inside the candidate.
    pub age_days: u64,
}

/// The report of one run.
#[derive(Debug)]
pub struct Report {
    pub tool: &'static str,
    pub version: &'static str,
    pub started_unix: u64,
    pub duration_ms: u64,
    pub pressure: bool,
    pub dry_run: bool,
    pub fs_use_pct: Option<u64>,
    pub freed_bytes: u64,
    pub deleted: usize,
    pub skipped: usize,
    pub failed: usize,
    pub entries: Vec<Entry>,
    pub caches: Vec<CacheResult>,
    pub fresh_matched: usize,
    pub stale_bytes: u64,
}

/// The tool's name as reported.
pub const TOOL_NAME: &'static str = "rldyour-cleaner";

/// The tool's version as reported.
pub const VERSION: &'static str = "0.1.0";

/// Seconds since the Unix epoch; 0 when the clock reads before it.
pub fn now_unix() -> (s: u64) {
    crate::clock::now_unix()
}

/// Actions that count as removal (done or, in a dry run, intended).
pub open spec fn counts_as_deleted(action: Seq<char>) -> bool {
    action == "deleted"@ || action == "evicted"@ || action == "would-delete"@
}

/// Actions that count as failures.
pub open spec fn counts_as_failed(action: Seq<char>) -> bool {
    !counts_as_deleted(action) && action == "failed"@
}

/// Every other action counts as a skip.
pub open spec fn counts_as_skipped(action: Seq<char>) -> bool {
    !counts_as_deleted(action) && !counts_as_failed(action)
}

/// What one `push` of `e` does to the entries and the tallies of `r0`,
/// giving `r1`.
pub open spec fn push_step(r0: Report, r1: Report, e: Entry) -> bool {
    &&& r1.entries@ == r0.entries@.push(e)
    &&& r1.deleted == r0.deleted + (if counts_as_deleted(e.action@) { 1int } else { 0 })
    &&& r1.failed == r0.failed + (if counts_as_failed(e.action@) { 1int } else { 0 })
    &&& r1.skipped == r0.skipped + (if counts_as_skipped(e.action@) { 1int } else { 0 })
    &&& r1.freed_bytes == r0.freed_bytes + (if counts_as_deleted(e.action@) { e.bytes as int } else { 0 })
}

/// How many of `es` count as removals.
pub open spec fn deleted_count(es: Seq<Entry>) -> nat
    decreases es.len(),
{
    if es.len() == 0 {
        0
    } else {
        deleted_count(es.drop_last()) + (if counts_as_deleted(es.last().action@) { 1nat } else { 0 })
    }
}

/// How many of `es` count as failures.
pub open spec fn failed_count(es: Seq<Entry>) -> nat
    decreases es.len(),
{
    if es.len() == 0 {
        0
    } else {
        failed_count(es.drop_last()) + (if counts_as_failed(es.last().action@) { 1nat } else { 0 })
    }
}

/// The bytes of the entries of `es` that count as removals.
pub open spec fn freed_sum(es: Seq<Entry>) -> nat
    decreases es.len(),
{
    if es.len() == 0 {
        0
    } else {
        freed_sum(es.drop_last()) + (if counts_as_deleted(es.last().action@) { es.last().bytes as nat } else { 0 })
    }
}

/// A report started empty and given the entries `es` by one push each, in
/// order (`rs[i + 1]` is `rs[i]` after pushing `es[i]`), holds exactly those
/// entries in that order; it counts as deleted the removals (done or
/// intended), as failed the failures, as skipped all the others, and its
/// freed total is the sum of the removals' bytes.
pub proof fn pushes_tally(rs: Seq<Report>, es: Seq<Entry>)
    requires
        rs.len() == es.len() + 1,
        rs[0].entries@.len() == 0,
        rs[0].deleted == 0,
        rs[0].failed == 0,
        rs[0].skipped == 0,
        rs[0].freed_bytes == 0,
        forall|i: int| 0 <= i < es.len() ==> #[trigger] push_step(rs[i], rs[i + 1], es[i]),
    ensures
        rs.last().entries@ == es,
        rs.last().deleted == deleted_count(es),
        rs.last().failed == failed_count(es),
        rs.last().skipped == es.len() - deleted_count(es) - failed_count(es),
        rs.last().freed_bytes == freed_sum(es),
    decreases es.len(),
{
    if es.len() > 0 {
        let n = es.len() - 1;
        let rs0 = rs.subrange(0, n + 1);
        let es0 = es.drop_last();
        assert forall|i: int| 0 <= i < es0.len() implies #[trigger] push_step(rs0[i], rs0[i + 1], es0[i]) by {
            assert(push_step(rs[i], rs[i + 1], es[i]));
        }
        pushes_tally(rs0, es0);
        assert(push_step(rs[n], rs[n + 1], es[n]));
        assert(rs0.last() == rs[n]);
        assert(es0.push(es[n]) =~= es);
    } else {
        assert(rs[0].entries@ =~= es);
    }
}

impl Report {
    /// An empty report for a run started now.
    pub fn new(pressure: bool, dry_run: bool, fs_use_pct: Option<u64>) -> (r: Self)
        ensures
            r.tool@ == TOOL_NAME@,
            r.version@ == VERSION@,
            r.duration_ms == 0,
            r.pressure == pressure,
            r.dry_run == dry_run,
            r.fs_use_pct == fs_use_pct,
            r.freed_bytes == 0,
            r.deleted == 0,
            r.skipped == 0,
            r.failed == 0,
            r.entries@.len() == 0,
            r.caches@.len() == 0,
            r.fresh_matched == 0,
            r.stale_bytes == 0,
    {
        Report {
            tool: TOOL_NAME,
            version: VERSION,
            started_unix: now_unix(),
            duration_ms: 0,
            pressure,
            dry_run,
            fs_use_pct,
            freed_bytes: 0,
            deleted: 0,
            skipped: 0,
            failed: 0,
            entries: Vec::new(),
            caches: Vec::new(),
            fresh_matched: 0,
            stale_bytes: 0,
        }
    }

    /// Record one entry: removals (done or intended) count as deleted and
    /// add their bytes to the freed total, `failed` counts as a failure,
    /// anything else as a skip. Exactly one counter moves per entry.
    pub fn push(&mut self, e: Entry)
        requires
            old(self).deleted < usize::MAX,
            old(self).skipped < usize::MAX,
            old(self).failed < usize::MAX,
            counts_as_deleted(e.action@) ==> old(self).freed_bytes + e.bytes <= u64::MAX,
        ensures
            final(self).entries@ == old(self).entries@.push(e),
            counts_as_deleted(e.action@) ==> {
                &&& final(self).deleted == old(self).deleted + 1
                &&& final(self).freed_bytes == old(self).freed_bytes + e.bytes
                &&& final(self).failed == old(self).failed
                &&& final(self).skipped == old(self).skipped
            },
            counts_as_failed(e.action@) ==> {
                &&& final(self).failed == old(self).failed + 1
                &&& final(self).deleted == old(self).deleted
                &&& final(self).skipped == old(self).skipped
                &&& final(self).freed_bytes == old(self).freed_bytes
            },
            counts_as_skipped(e.action@) ==> {
                &&& final(self).skipped == old(self).skipped + 1
                &&& final(self).deleted == old(self).deleted
                &&& final(self).failed == old(self).failed
                &&& final(self).freed_bytes == old(self).freed_bytes
            },
            final(self).deleted + final(self).skipped + final(self).failed
                == old(self).deleted + old(self).skipped + old(self).failed + 1,
            final(self).tool == old(self).tool,
            final(self).version == old(self).version,
            final(self).started_unix == old(self).started_unix,
            final(self).duration_ms == old(self).duration_ms,
            final(self).pressure == old(self).pressure,
            final(self).dry_run == old(self).dry_run,
            final(self).fs_use_pct == old(self).fs_use_pct,
            final(self).caches@ == old(self).caches@,
            final(self).fresh_matched == old(self).fresh_matched,
            final(self).stale_bytes == old(self).stale_bytes,
            push_step(*old(self), *final(self), e),
    {
        let a = e.action;
        if str_eq(a, "deleted") || str_eq(a, "evicted") || str_eq(a, "would-delete") {
            self.deleted = self.deleted + 1;
            self.freed_bytes = self.freed_bytes + e.bytes;
        } else if str_eq(a, "failed") {
            self.failed = self.failed + 1;
        } else {
            self.skipped = self.skipped + 1;
        }
        self.entries.push(e);
    }
}


impl Report {
    /// Record what one cache came to: its freed bytes join the total, and a
    /// cache that freed anything counts as one deleted item.
    pub fn push_cache(&mut self, r: CacheResult)
        requires
            old(self).freed_bytes + r.freed_bytes <= u64::MAX,
            old(self).deleted < usize::MAX,
        ensures
            final(self).caches@ == old(self).caches@.push(r),
            final(self).freed_bytes == old(self).freed_bytes + r.freed_bytes,
            final(self).deleted == old(self).deleted + (if r.freed_bytes > 0 { 1int } else { 0 }),
            final(self).skipped == old(self).skipped,
            final(self).failed == old(self).failed,
            final(self).entries@ == old(self).entries@,
    {
        self.freed_bytes = self.freed_bytes + r.freed_bytes;
        if r.freed_bytes > 0 {
            self.deleted = self.deleted + 1;
        }
        self.caches.push(r);
    }

    /// A run fails (exit status 1) exactly when some deletion failed.
    pub fn exit_code(&self) -> (code: i32)
        ensures
            code == (if self.failed > 0 { 1i32 } else { 0i32 }),
    {
        if self.failed > 0 { 1 } else { 0 }
    }
}

/// The run's one-line summary, with `freed` the caller's rendering of the
/// freed byte total. A dry run reports what it would free and the skips; a
/// real run adds the failures, the whole seconds taken and whether it ran
/// under disk pressure.
pub open spec fn summary_spec(r: Report, freed: Seq<char>) -> Seq<char> {
    if r.dry_run {
        "rldyour-cleaner "@ + r.version@ + " (dry-run): would free "@ + freed + " across "@
            + decimal(r.deleted as nat) + " item(s), "@ + decimal(r.skipped as nat) + " skipped"@
    } else {
        "rldyour-cleaner "@ + r.version@ + ": freed "@ + freed + " across "@ + decimal(r.deleted as nat)
            + " item(s), "@ + decimal(r.skipped as nat) + " skipped, "@ + decimal(r.failed as nat)
            + " failed ("@ + decimal((r.duration_ms / 1000) as nat) + "s, pressure="@
            + (if r.pressure { "true"@ } else { "false"@ }) + ")"@
    }
}

impl Report {
    /// The summary line of this report; see [`summary_spec`].
    pub fn summary(&self, freed: &str) -> (s: String)
        ensures
            s@ == summary_spec(*self, freed@),
    {
        let mut s = concat("rldyour-cleaner ", self.version);
        if self.dry_run {
            s.append(" (dry-run): would free ");
            s.append(freed);
            s.append(" across ");
            s.append(decimal_string(self.deleted as u64).as_str());
            s.append(" item(s), ");
            s.append(decimal_string(self.skipped as u64).as_str());
            s.append(" skipped");
        } else {
            s.append(": freed ");
            s.append(freed);
            s.append(" across ");
            s.append(decimal_string(self.deleted as u64).as_str());
            s.append(" item(s), ");
            s.append(decimal_string(self.skipped as u64).as_str());
            s.append(" skipped, ");
            s.append(decimal_string(self.failed as u64).as_str());
            s.append(" failed (");
            s.append(decimal_string(self.duration_ms / 1000).as_str());
            s.append("s, pressure=");
            s.append(if self.pressure { "true" } else { "false" });
            s.append(")");
        }
        s
    }
}

} // verus!
