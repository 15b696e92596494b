//! The deletion itself renames the candidate to a pending sibling, then
//! removes the tree; pending dirs whose removal crashed are reaped by a later
//! run. This module names pending dirs, recognizes them, and decides what the
//! reaper does with each walk entry.

use crate::kinds::{in_skip_dirs, skip_dir_names};
use crate::scan::{walk_entry_spec, WalkStep};
use crate::text::{concat, decimal, decimal_string, has_prefix, seq_starts_with, str_eq};
use vstd::prelude::*;

verus! {

/// The name prefix that marks a directory renamed aside for deletion.
pub const PENDING_PREFIX: &'static str = ".rldyour-cleaner-pending";

/// The pending prefix as characters.
pub open spec fn pending_prefix_spec() -> Seq<char> {
    PENDING_PREFIX@
}


/// The name a candidate is renamed to before removal: the pending prefix,
/// the process id, the candidate's own name (`dir` when it has none) and a
/// per-process sequence number, joined by `-`.
pub open spec fn pending_name_spec(pid: u32, seq_no: u64, file_name: Option<Seq<char>>) -> Seq<char> {
    let base = match file_name {
        Some(n) => n,
        None => "dir"@,
    };
    pending_prefix_spec() + "-"@ + decimal(pid as nat) + "-"@ + base + "-"@ + decimal(seq_no as nat)
}

/// The pending name for a candidate called `file_name` (`None` when its name
/// is missing or not UTF-8), renamed by process `pid` as its `seq_no`-th.
pub fn pending_name(pid: u32, seq_no: u64, file_name: Option<&str>) -> (r: String)
    ensures
        r@ == pending_name_spec(pid, seq_no, match file_name {
            Some(n) => Some(n@),
            None => None,
        }),
{
    let mut r = concat(PENDING_PREFIX, "-");
    let p = decimal_string(pid as u64);
    r.append(p.as_str());
    r.append("-");
    match file_name {
        Some(n) => r.append(n),
        None => r.append("dir"),
    }
    r.append("-");
    let n = decimal_string(seq_no);
    r.append(n.as_str());
    r
}

/// Why `execute` did not free anything.
#[derive(Debug)]
pub enum ExecuteError {
    /// Refused because the tree is in use: a skip, not a failure.
    Busy(String),
    /// A real failure worth reporting as such.
    Failed(String),
}

/// Is a rename refusal the OS saying the tree is held open? On Windows
/// ERROR_ACCESS_DENIED (5), ERROR_SHARING_VIOLATION (32) and
/// ERROR_LOCK_VIOLATION (33) are; a Unix rename has no such meaning, so
/// every failure there is a genuine error.
pub fn is_busy_error(windows: bool, raw_os_error: Option<i32>) -> (r: bool)
    ensures
        r == (windows && (raw_os_error == Some(5i32) || raw_os_error == Some(32i32)
            || raw_os_error == Some(33i32))),
{
    windows && match raw_os_error {
        Some(5) | Some(32) | Some(33) => true,
        _ => false,
    }
}

/// The error for a failed rename: a busy tree is reported as a skip, any
/// other failure as a failure, each with the OS message `msg`.
pub fn rename_refused(windows: bool, raw_os_error: Option<i32>, msg: &str) -> (e: ExecuteError)
    ensures
        is_busy_error_spec(windows, raw_os_error) ==> (e matches ExecuteError::Busy(m)
            && m@ == "the OS refuses the rename: "@ + msg@),
        !is_busy_error_spec(windows, raw_os_error) ==> (e matches ExecuteError::Failed(m)
            && m@ == "rename failed: "@ + msg@),
{
    if is_busy_error(windows, raw_os_error) {
        ExecuteError::Busy(concat("the OS refuses the rename: ", msg))
    } else {
        ExecuteError::Failed(concat("rename failed: ", msg))
    }
}

/// The busy-error rule of [`is_busy_error`].
pub open spec fn is_busy_error_spec(windows: bool, raw_os_error: Option<i32>) -> bool {
    windows && (raw_os_error == Some(5i32) || raw_os_error == Some(32i32) || raw_os_error == Some(33i32))
}

/// The error for a tree that was renamed aside but not fully removed: the
/// pending dir is left for the next run's reaper.
pub fn removal_failed(msg: &str) -> (e: ExecuteError)
    ensures
        e matches ExecuteError::Failed(m) && m@ == "partially removed ("@ + msg@
            + "); pending dir left for next run"@,
{
    let mut m = concat("partially removed (", msg);
    m.append("); pending dir left for next run");
    ExecuteError::Failed(m)
}

/// Is a directory called `file_name` (`None`: missing or not UTF-8) a
/// pending dir left by a crashed run?
pub fn is_pending_dir(file_name: Option<&str>) -> (r: bool)
    ensures
        r == (file_name matches Some(n) && seq_starts_with(n@, pending_prefix_spec())),
{
    match file_name {
        Some(n) => has_prefix(n, PENDING_PREFIX),
        None => false,
    }
}

/// What the reaper does with a walk entry.
#[derive(Debug, Clone, Copy, PartialEq, Eq, Structural)]
pub enum ReapStep {
    /// Move on (descending into it, if it is a directory).
    Continue,
    /// A pending dir: never descend; remove it once old enough.
    Reap,
    /// Never descend: no candidate, hence no pending sibling, can be inside.
    Prune,
}

/// The reaper prunes exactly the directories the scanner never descends
/// into, except `target` and `.dart_tool`, which do get nested candidates
/// (`incremental`, `flutter_build`) whose pending dirs sit inside.
pub open spec fn reaper_prunes(name: Seq<char>) -> bool {
    skip_dir_names().contains(name) && name != "target"@ && name != ".dart_tool"@
}

/// The reaper's decision on an entry at `depth` called `name` (the empty
/// string for a name that is not UTF-8); `same_device` says whether it lies
/// on the root's filesystem. Like the scanner, the reaper never crosses a
/// filesystem boundary.
pub open spec fn reap_step_spec(depth: nat, is_dir: bool, name: Seq<char>, same_device: bool) -> ReapStep {
    if depth == 0 || !is_dir {
        ReapStep::Continue
    } else if !same_device {
        ReapStep::Prune
    } else if seq_starts_with(name, pending_prefix_spec()) {
        ReapStep::Reap
    } else if reaper_prunes(name) {
        ReapStep::Prune
    } else {
        ReapStep::Continue
    }
}

/// The reaper's decision on a walk entry; see [`reap_step_spec`].
pub fn reap_step(depth: usize, is_dir: bool, name: &str, same_device: bool) -> (s: ReapStep)
    ensures
        s == reap_step_spec(depth as nat, is_dir, name@, same_device),
{
    if depth == 0 || !is_dir {
        ReapStep::Continue
    } else if !same_device {
        ReapStep::Prune
    } else if has_prefix(name, PENDING_PREFIX) {
        ReapStep::Reap
    } else if in_skip_dirs(name) && !str_eq(name, "target") && !str_eq(name, ".dart_tool") {
        ReapStep::Prune
    } else {
        ReapStep::Continue
    }
}


/// A pending name is recognized as one by every part of the tool: it is a
/// pending dir, the scanner never descends into it, and the reaper takes it.
pub proof fn pending_names_are_recognized(pid: u32, seq_no: u64, file_name: Option<Seq<char>>)
    ensures
        seq_starts_with(pending_name_spec(pid, seq_no, file_name), pending_prefix_spec()),
        forall|depth: nat, same_device: bool|
            depth > 0 ==> walk_entry_spec(depth, true, pending_name_spec(pid, seq_no, file_name), same_device)
                == WalkStep::Prune,
        forall|depth: nat|
            depth > 0 ==> reap_step_spec(depth, true, pending_name_spec(pid, seq_no, file_name), true)
                == ReapStep::Reap,
{
    let n = pending_name_spec(pid, seq_no, file_name);
    let p = pending_prefix_spec();
    let base = match file_name {
        Some(x) => x,
        None => "dir"@,
    };
    let rest = "-"@ + decimal(pid as nat) + "-"@ + base + "-"@ + decimal(seq_no as nat);
    assert(n =~= p + rest);
    assert(n.subrange(0, p.len() as int) =~= p);
}


/// The reaper prunes only directories the scanner never descends into, and
/// keeps `target` and `.dart_tool` reachable: the scanner emits nested
/// candidates inside them, so their pending dirs sit there.
pub proof fn reaper_prunes_only_what_the_scanner_skips(depth: nat, name: Seq<char>, same_device: bool)
    ensures
        reap_step_spec(depth, true, name, same_device) == ReapStep::Prune
            ==> walk_entry_spec(depth, true, name, same_device) == WalkStep::Prune
                || skip_dir_names().contains(name),
        same_device ==> reap_step_spec(depth, true, "target"@, same_device) != ReapStep::Prune,
        same_device ==> reap_step_spec(depth, true, ".dart_tool"@, same_device) != ReapStep::Prune,
{
}

/// Neither the scanner nor the reaper crosses a filesystem boundary: a
/// directory below the root on another filesystem is pruned by both.
pub proof fn walks_stay_on_the_root_filesystem(depth: nat, name: Seq<char>)
    requires
        depth > 0,
    ensures
        walk_entry_spec(depth, true, name, false) == WalkStep::Prune,
        reap_step_spec(depth, true, name, false) == ReapStep::Prune,
{
}

/// How long a pending dir must sit untouched before the reaper removes it,
/// so a slow removal in flight is never pulled from under its run.
pub const REAP_MIN_AGE_SECS: u64 = 3600;

} // verus!
