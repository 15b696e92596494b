//! Windows process liveness. Windows' mandatory file locking already refuses
//! to rename a directory that a process sits in, executes from, or holds open,
//! so the deletion attempt itself is the probe; enumerating users is not
//! needed, and "no users enumerated" is the honest answer.

use vstd::prelude::*;

verus! {

/// The processes enumerated as using `dir`: none on Windows (the OS itself
/// refuses the rename of a held tree, which is reported as a skip).
pub fn pids_using(_dir: &str) -> (r: Option<Vec<u32>>)
    ensures
        r matches Some(v) && v@.len() == 0,
{
    Some(Vec::new())
}

} // verus!
