//! Linux process liveness via `/proc`: a process uses a directory when its
//! `exe`, `cwd`, an open `fd`, or a memory map lands inside it. Reading
//! `/proc` is the caller's; this module recognizes process directories and
//! decides what counts as "inside".

use crate::os::unix_lsof::{parse_u32_chars, parse_u32_spec};
use crate::os::{components, path_components, components_prefix, path_starts_with};
use crate::text::{chars_contain, chars_of, lines_chars, lines_spec, seq_contains, vec_views};
use vstd::prelude::*;

verus! {

/// The process id named by a `/proc` entry: only names made entirely of
/// ASCII digits that parse as a `u32`.
pub open spec fn proc_pid_spec(name: Seq<char>) -> Option<u32> {
    if forall|i: int| 0 <= i < name.len() ==> '0' <= #[trigger] name[i] <= '9' {
        parse_u32_spec(name)
    } else {
        None
    }
}

/// The process id named by the `/proc` entry `name`, if it is a process dir.
pub fn proc_pid(name: &str) -> (r: Option<u32>)
    ensures
        r == proc_pid_spec(name@),
{
    let v = chars_of(name);
    let mut i: usize = 0;
    while i < v.len()
        invariant
            v@ == name@,
            i <= v@.len(),
            forall|j: int| 0 <= j < i ==> '0' <= #[trigger] v@[j] <= '9',
        decreases v@.len() - i,
    {
        if !('0' <= v[i] && v[i] <= '9') {
            return None;
        }
        i = i + 1;
    }
    assert(v@.subrange(0, v@.len() as int) =~= v@);
    parse_u32_chars(&v, 0)
}

/// Is the link target `target` inside `dir` (by path components)?
pub fn link_within(target: &str, dir: &str) -> (r: bool)
    ensures
        r == path_starts_with(target@, dir@),
{
    let t = path_components(&chars_of(target));
    let d = path_components(&chars_of(dir));
    components_prefix(&d, &t)
}

/// Does a process's memory-map listing mention `needle` on some line?
/// Substring matching can over-report (a false "in use" merely skips a
/// cleanup pass) but never under-reports.
pub open spec fn maps_mention_spec(maps: Seq<char>, needle: Seq<char>) -> bool {
    exists|i: int| 0 <= i < lines_spec(maps).len() && seq_contains(#[trigger] lines_spec(maps)[i], needle)
}

/// See [`maps_mention_spec`].
pub fn maps_mention(maps: &str, needle: &str) -> (r: bool)
    ensures
        r == maps_mention_spec(maps@, needle@),
{
    let lines = lines_chars(&chars_of(maps));
    let n = chars_of(needle);
    let ghost lv = vec_views(lines@);
    let mut i: usize = 0;
    while i < lines.len()
        invariant
            i <= lines@.len(),
            n@ == needle@,
            lv == vec_views(lines@),
            lv == lines_spec(maps@),
            forall|j: int| 0 <= j < i ==> !seq_contains(#[trigger] lv[j], needle@),
        decreases lines@.len() - i,
    {
        assert(lv[i as int] == lines@[i as int]@);
        if chars_contain(&lines[i], &n) {
            return true;
        }
        i = i + 1;
    }
    false
}

} // verus!
