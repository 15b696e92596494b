//! Process liveness on macOS and the BSDs, which have no `/proc`: `lsof`
//! (which ships with the OS) lists every open file. Running `lsof -nP -F pn`
//! is the caller's; this module parses its field output and decides which
//! processes use a directory.
//!
//! The output is a sequence of field lines: `p<pid>` starts a process, and
//! each `n<name>` that follows names a file, cwd or mapped executable of it.
//! Names that are not paths (sockets, pipes) never start with `/` and are
//! dropped.

use crate::os::{components, components_prefix, path_components, path_starts_with};
use crate::text::{chars_of, lines_chars, lines_spec, vec_views};
use vstd::prelude::*;

verus! {

/// Every character of `s` is an ASCII digit.
pub open spec fn all_digits(s: Seq<char>) -> bool {
    forall|i: int| 0 <= i < s.len() ==> '0' <= #[trigger] s[i] <= '9'
}

/// The value of a run of decimal digits.
pub open spec fn digits_value(s: Seq<char>) -> nat
    decreases s.len(),
{
    if s.len() == 0 {
        0
    } else {
        digits_value(s.drop_last()) * 10 + ((s.last() as nat) - ('0' as nat)) as nat
    }
}

/// What `str::parse::<u32>` gives: an optional `+`, then at least one
/// decimal digit and nothing else, with a value that fits.
pub open spec fn parse_u32_spec(s: Seq<char>) -> Option<u32> {
    let d = if s.len() > 0 && s[0] == '+' { s.drop_first() } else { s };
    if d.len() == 0 || !all_digits(d) || digits_value(d) > u32::MAX {
        None
    } else {
        Some(digits_value(d) as u32)
    }
}

proof fn digits_value_grows(d: Seq<char>, j: int)
    requires
        0 <= j <= d.len(),
        all_digits(d),
    ensures
        digits_value(d) >= digits_value(d.subrange(0, j)),
    decreases d.len() - j,
{
    if j < d.len() {
        digits_value_grows(d, j + 1);
        assert(d.subrange(0, j + 1).drop_last() =~= d.subrange(0, j));
    } else {
        assert(d.subrange(0, j) =~= d);
    }
}

/// `parse::<u32>` of the characters of `v` from `start` on.
pub fn parse_u32_chars(v: &Vec<char>, start: usize) -> (r: Option<u32>)
    requires
        start <= v@.len(),
    ensures
        r == parse_u32_spec(v@.subrange(start as int, v@.len() as int)),
{
    let ghost s = v@.subrange(start as int, v@.len() as int);
    let mut k = start;
    if k < v.len() && v[k] == '+' {
        k = k + 1;
    }
    let ghost d = v@.subrange(k as int, v@.len() as int);
    assert(d == (if s.len() > 0 && s[0] == '+' { s.drop_first() } else { s }));
    if k == v.len() {
        return None;
    }
    let mut acc: u64 = 0;
    let mut i = k;
    while i < v.len()
        invariant
            k < v@.len(),
            k <= i <= v@.len(),
            d == v@.subrange(k as int, v@.len() as int),
            s == v@.subrange(start as int, v@.len() as int),
            d == (if s.len() > 0 && s[0] == '+' { s.drop_first() } else { s }),
            all_digits(v@.subrange(k as int, i as int)),
            acc == digits_value(v@.subrange(k as int, i as int)),
            acc <= u32::MAX,
        decreases v@.len() - i,
    {
        let c = v[i];
        if !('0' <= c && c <= '9') {
            assert(!all_digits(d)) by {
                assert(d[i - k] == c);
            }
            return None;
        }
        let digit = (c as u32 - '0' as u32) as u64;
        assert(v@.subrange(k as int, i + 1).drop_last() =~= v@.subrange(k as int, i as int));
        acc = acc * 10 + digit;
        assert(all_digits(v@.subrange(k as int, i + 1)));
        if acc > u32::MAX as u64 {
            proof {
                if all_digits(d) {
                    assert(d.subrange(0, i + 1 - k) =~= v@.subrange(k as int, i + 1));
                    digits_value_grows(d, i + 1 - k);
                }
            }
            return None;
        }
        i = i + 1;
    }
    assert(v@.subrange(k as int, i as int) =~= d);
    Some(acc as u32)
}

/// The (pid, name) records of the field lines, from the current pid on. A
/// `p` line sets the current pid (0 when it does not parse); an `n` line
/// whose name is a path records it for a current, non-zero pid; every other
/// line is ignored.
pub open spec fn records_from(lines: Seq<Seq<char>>, pid: u32) -> Seq<(u32, Seq<char>)>
    decreases lines.len(),
{
    if lines.len() == 0 {
        seq![]
    } else {
        let l = lines[0];
        let rest = lines.drop_first();
        if l.len() > 0 && l[0] == 'p' {
            records_from(rest, match parse_u32_spec(l.drop_first()) {
                Some(v) => v,
                None => 0,
            })
        } else if l.len() > 1 && l[0] == 'n' && pid != 0 && l[1] == '/' {
            seq![(pid, l.drop_first())] + records_from(rest, pid)
        } else {
            records_from(rest, pid)
        }
    }
}

/// The records of an `lsof -F pn` listing.
pub open spec fn lsof_records(text: Seq<char>) -> Seq<(u32, Seq<char>)> {
    records_from(lines_spec(text), 0)
}

/// Does process `pid` have a record inside `dir`?
pub open spec fn uses_dir(records: Seq<(u32, Seq<char>)>, pid: u32, dir: Seq<char>) -> bool {
    exists|i: int| 0 <= i < records.len() && (#[trigger] records[i]).0 == pid && path_starts_with(records[i].1, dir)
}

/// An `n` field line naming a path (sockets and pipes have names that do
/// not start with `/`).
pub open spec fn names_path(l: Seq<char>) -> bool {
    l.len() > 1 && l[0] == 'n' && l[1] == '/'
}

/// Under a current, non-zero pid, a run of path lines yields one record per
/// line, in order.
proof fn path_lines_all_recorded(ls: Seq<Seq<char>>, pid: u32)
    requires
        pid != 0,
        forall|i: int| 0 <= i < ls.len() ==> names_path(#[trigger] ls[i]),
    ensures
        records_from(ls, pid) =~= Seq::new(ls.len(), |i: int| (pid, ls[i].drop_first())),
    decreases ls.len(),
{
    if ls.len() > 0 {
        let rest = ls.drop_first();
        assert forall|i: int| 0 <= i < rest.len() implies names_path(#[trigger] rest[i]) by {
            assert(rest[i] == ls[i + 1]);
        }
        path_lines_all_recorded(rest, pid);
        assert(names_path(ls[0]));
    }
}

/// Every path a process lists counts, whatever its position: in a listing
/// of a `p<pid>` line followed by path lines, each path is recorded for that
/// pid, so the pid uses every directory any of its paths lies in.
pub proof fn every_listed_path_counts(lines: Seq<Seq<char>>, pid: u32, start: u32, dir: Seq<char>)
    requires
        lines.len() > 0,
        lines[0].len() > 0,
        lines[0][0] == 'p',
        parse_u32_spec(lines[0].drop_first()) == Some(pid),
        pid != 0,
        forall|i: int| 1 <= i < lines.len() ==> names_path(#[trigger] lines[i]),
    ensures
        forall|i: int| 1 <= i < lines.len() ==> records_from(lines, start).contains(
            (pid, (#[trigger] lines[i]).drop_first()),
        ),
        forall|i: int| 1 <= i < lines.len() && path_starts_with((#[trigger] lines[i]).drop_first(), dir)
            ==> uses_dir(records_from(lines, start), pid, dir),
{
    let rest = lines.drop_first();
    assert forall|i: int| 0 <= i < rest.len() implies names_path(#[trigger] rest[i]) by {
        assert(rest[i] == lines[i + 1]);
    }
    path_lines_all_recorded(rest, pid);
    let recs = records_from(lines, start);
    assert(recs == records_from(rest, pid));
    assert forall|i: int| 1 <= i < lines.len() implies recs.contains((pid, (#[trigger] lines[i]).drop_first())) by {
        assert(recs[i - 1] == (pid, rest[i - 1].drop_first()));
        assert(rest[i - 1] == lines[i]);
    }
    assert forall|i: int| 1 <= i < lines.len() && path_starts_with((#[trigger] lines[i]).drop_first(), dir)
        implies uses_dir(recs, pid, dir) by {
        assert(recs[i - 1] == (pid, rest[i - 1].drop_first()));
        assert(rest[i - 1] == lines[i]);
    }
}

/// A strictly increasing list of ids.
pub open spec fn strictly_sorted(s: Seq<u32>) -> bool {
    forall|i: int, j: int| 0 <= i < j < s.len() ==> s[i] < s[j]
}

/// Add `x` to a strictly increasing list, keeping it so.
fn insert_sorted(v: &mut Vec<u32>, x: u32)
    requires
        strictly_sorted(old(v)@),
    ensures
        strictly_sorted(final(v)@),
        forall|y: u32| final(v)@.contains(y) <==> (old(v)@.contains(y) || y == x),
{
    let mut i: usize = 0;
    while i < v.len() && v[i] < x
        invariant
            i <= v@.len(),
            v@ == old(v)@,
            strictly_sorted(v@),
            forall|j: int| 0 <= j < i ==> v@[j] < x,
        decreases v@.len() - i,
    {
        i = i + 1;
    }
    if i < v.len() && v[i] == x {
        assert(v@[i as int] == x);
        assert(v@.contains(x));
        return;
    }
    let ghost before = v@;
    assert(forall|j: int| i <= j < before.len() ==> before[j] > x) by {
        assert forall|j: int| i <= j < before.len() implies before[j] > x by {
            if j > i {
                assert(before[i as int] < before[j]);
            }
        }
    }
    v.insert(i, x);
    assert(v@ =~= before.subrange(0, i as int).push(x) + before.subrange(i as int, before.len() as int));
    assert forall|y: u32| v@.contains(y) <==> (before.contains(y) || y == x) by {
        if v@.contains(y) {
            let k = choose|k: int| 0 <= k < v@.len() && v@[k] == y;
            if k < i {
                assert(before[k] == y);
            } else if k > i {
                assert(before[k - 1] == y);
            }
        }
        if before.contains(y) {
            let k = choose|k: int| 0 <= k < before.len() && before[k] == y;
            if k < i {
                assert(v@[k] == y);
            } else {
                assert(v@[k + 1] == y);
            }
        }
        if y == x {
            assert(v@[i as int] == x);
        }
    }
}

/// The processes other than `own` that hold something inside `dir`,
/// according to the `lsof -F pn` listing `text`, in increasing order.
pub fn pids_using(text: &str, dir: &str, own: u32) -> (r: Vec<u32>)
    ensures
        strictly_sorted(r@),
        forall|p: u32| r@.contains(p) <==> (p != own && uses_dir(lsof_records(text@), p, dir@)),
{
    let lines = lines_chars(&chars_of(text));
    let ghost lv = vec_views(lines@);
    let dir_components = path_components(&chars_of(dir));
    let mut hits: Vec<u32> = Vec::new();
    let mut pid: u32 = 0;
    let mut i: usize = 0;
    let ghost mut seen: Seq<(u32, Seq<char>)> = seq![];
    assert(lv.subrange(0, lv.len() as int) =~= lv);
    while i < lines.len()
        invariant
            i <= lines@.len(),
            lv == vec_views(lines@),
            lv == lines_spec(text@),
            vec_views(dir_components@) == components(dir@),
            seen + records_from(lv.subrange(i as int, lv.len() as int), pid) == lsof_records(text@),
            strictly_sorted(hits@),
            forall|p: u32| hits@.contains(p) <==> (p != own && uses_dir(seen, p, dir@)),
        decreases lines@.len() - i,
    {
        let line = &lines[i];
        let ghost rest = lv.subrange(i as int, lv.len() as int);
        assert(rest[0] == line@);
        assert(rest.drop_first() =~= lv.subrange(i + 1, lv.len() as int));
        if line.len() > 0 && line[0] == 'p' {
            let parsed = parse_u32_chars(line, 1);
            assert(line@.subrange(1, line@.len() as int) =~= line@.drop_first());
            pid = match parsed {
                Some(v) => v,
                None => 0,
            };
        } else if line.len() > 1 && line[0] == 'n' && pid != 0 && line[1] == '/' {
            let mut name: Vec<char> = Vec::new();
            let mut j: usize = 1;
            while j < line.len()
                invariant
                    1 <= j <= line@.len(),
                    name@ == line@.subrange(1, j as int),
                decreases line@.len() - j,
            {
                name.push(line[j]);
                j = j + 1;
            }
            assert(name@ =~= line@.drop_first());
            let ghost old_seen = seen;
            proof {
                seen = seen.push((pid, name@));
                assert(seen + records_from(lv.subrange(i + 1, lv.len() as int), pid)
                    =~= old_seen + records_from(rest, pid));
            }
            let inside = components_prefix(&dir_components, &path_components(&name));
            if inside && pid != own {
                insert_sorted(&mut hits, pid);
            }
            assert forall|p: u32| hits@.contains(p) <==> (p != own && uses_dir(seen, p, dir@)) by {
                if uses_dir(seen, p, dir@) && !uses_dir(old_seen, p, dir@) {
                    let k = choose|k: int| 0 <= k < seen.len() && (#[trigger] seen[k]).0 == p
                        && path_starts_with(seen[k].1, dir@);
                    if k < old_seen.len() {
                        assert(seen[k] == old_seen[k]);
                    }
                }
                if uses_dir(old_seen, p, dir@) {
                    let k = choose|k: int| 0 <= k < old_seen.len() && (#[trigger] old_seen[k]).0 == p
                        && path_starts_with(old_seen[k].1, dir@);
                    assert(seen[k] == old_seen[k]);
                }
                if p == pid && inside {
                    assert(seen[old_seen.len() as int] == (pid, name@));
                }
            }
        }
        i = i + 1;
    }
    assert(lv.subrange(lv.len() as int, lv.len() as int) =~= seq![]);
    assert(seen =~= lsof_records(text@));
    hits
}

} // verus!
