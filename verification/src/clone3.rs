//! The flags and the outcome of the `clone3(2)` system call.
use vstd::prelude::*;

use crate::sys;

verus! {

/// A child process, as its parent sees it after `clone3(2)`.
pub struct Child {
    pub tid: u64,
    pub pid: i64,
}

/// A marker for the `clone3(2)` operation.
pub struct Clone3 {}

/// On which side of a successful `clone3(2)` the caller is.
pub enum CloneResult {
    Child,
    Parent(Child),
}

/// The flags that `clone3(2)` is called with: the caller's flags, plus
/// `CLONE_PARENT_SETTID` so that the kernel stores the child's thread id
/// for the parent.
pub fn clone3_flags(flags: u64) -> (r: u64)
    ensures
        r == flags | 0x100000,
{
    let settid = sys::clone_parent_settid();
    flags | settid as u64
}

/// What a `clone3(2)` call that returned `ret` means, given the thread id
/// `child_tid` that the kernel stored for the parent: `None` (the call
/// failed) when `ret` is negative, the child side when it is `0`, and the
/// parent side, with the child's pid `ret`, when it is positive.
pub fn clone3_outcome(ret: i64, child_tid: u64) -> (r: Option<CloneResult>)
    ensures
        ret < 0 ==> r is None,
        ret == 0 ==> r matches Some(CloneResult::Child),
        ret > 0 ==> (r matches Some(CloneResult::Parent(child)) && child.pid == ret && child.tid
            == child_tid),
{
    if ret < 0 {
        return None;
    }
    Some(
        match ret {
            0 => CloneResult::Child,
            _ => CloneResult::Parent(Child { tid: child_tid, pid: ret }),
        },
    )
}

/// Every flag word that `clone3(2)` is called with asks the kernel to store
/// the child's thread id, and keeps every flag the caller gave.
pub proof fn law_clone3_flags_keep(flags: u64)
    ensures
        (flags | 0x100000) & 0x100000 == 0x100000,
        (flags | 0x100000) & flags == flags,
{
    assert((flags | 0x100000) & 0x100000 == 0x100000) by (bit_vector);
    assert((flags | 0x100000) & flags == flags) by (bit_vector);
}

} // verus!
