//! The Linux constants of `libc` that the builders use.
//!
//! Each function below returns one constant of the `libc` crate. Verus does
//! not read their bodies: each states the value that `libc` 0.2 declares for
//! Linux targets, and nothing checks that statement but the `libc` source.
use vstd::prelude::*;

verus! {

/// `libc::CLONE_PARENT_SETTID` (clone3: store the child's thread id in the parent's memory); `libc` declares it as `0x100000`.
#[verifier::external_body]
pub(crate) fn clone_parent_settid() -> (r: i32)
    ensures
        r == 0x100000,
{
    libc::CLONE_PARENT_SETTID
}

/// `libc::CLONE_NEWIPC` (create the child in a new IPC namespace); `libc` declares it as `0x08000000`.
#[verifier::external_body]
pub(crate) fn clone_newipc() -> (r: i32)
    ensures
        r == 0x08000000,
{
    libc::CLONE_NEWIPC
}

/// `libc::CLONE_NEWNET` (create the child in a new network namespace); `libc` declares it as `0x40000000`.
#[verifier::external_body]
pub(crate) fn clone_newnet() -> (r: i32)
    ensures
        r == 0x40000000,
{
    libc::CLONE_NEWNET
}

/// `libc::CLONE_NEWUTS` (create the child in a new UTS namespace); `libc` declares it as `0x04000000`.
#[verifier::external_body]
pub(crate) fn clone_newuts() -> (r: i32)
    ensures
        r == 0x04000000,
{
    libc::CLONE_NEWUTS
}

/// `libc::CLONE_NEWNS` (create the child in a new mount namespace); `libc` declares it as `0x20000`.
#[verifier::external_body]
pub(crate) fn clone_newns() -> (r: i32)
    ensures
        r == 0x20000,
{
    libc::CLONE_NEWNS
}

/// `libc::CLONE_NEWPID` (create the child in a new PID namespace); `libc` declares it as `0x20000000`.
#[verifier::external_body]
pub(crate) fn clone_newpid() -> (r: i32)
    ensures
        r == 0x20000000,
{
    libc::CLONE_NEWPID
}

/// `libc::CLOSE_RANGE_UNSHARE` (close_range: unshare the descriptor table first); `libc` declares it as `2`.
#[verifier::external_body]
pub(crate) fn close_range_unshare() -> (r: u32)
    ensures
        r == 2,
{
    libc::CLOSE_RANGE_UNSHARE
}

/// `libc::CLOSE_RANGE_CLOEXEC` (close_range: set close-on-exec instead of closing); `libc` declares it as `4`.
#[verifier::external_body]
pub(crate) fn close_range_cloexec() -> (r: u32)
    ensures
        r == 4,
{
    libc::CLOSE_RANGE_CLOEXEC
}

/// `libc::MS_RDONLY` (mount read-only); `libc` declares it as `0x01`.
#[verifier::external_body]
pub(crate) fn ms_rdonly() -> (r: u64)
    ensures
        r == 0x01,
{
    libc::MS_RDONLY
}

/// `libc::MS_NOSUID` (ignore set-user-id and set-group-id bits); `libc` declares it as `0x02`.
#[verifier::external_body]
pub(crate) fn ms_nosuid() -> (r: u64)
    ensures
        r == 0x02,
{
    libc::MS_NOSUID
}

/// `libc::MS_NODEV` (do not allow access to device files); `libc` declares it as `0x04`.
#[verifier::external_body]
pub(crate) fn ms_nodev() -> (r: u64)
    ensures
        r == 0x04,
{
    libc::MS_NODEV
}

/// `libc::MS_NOEXEC` (do not allow programs to be executed); `libc` declares it as `0x08`.
#[verifier::external_body]
pub(crate) fn ms_noexec() -> (r: u64)
    ensures
        r == 0x08,
{
    libc::MS_NOEXEC
}

/// `libc::MS_BIND` (create a bind mount); `libc` declares it as `0x1000`.
#[verifier::external_body]
pub(crate) fn ms_bind() -> (r: u64)
    ensures
        r == 0x1000,
{
    libc::MS_BIND
}

/// `libc::MS_REC` (apply to all submounts of the subtree); `libc` declares it as `0x4000`.
#[verifier::external_body]
pub(crate) fn ms_rec() -> (r: u64)
    ensures
        r == 0x4000,
{
    libc::MS_REC
}

/// `libc::MS_UNBINDABLE` (propagation type: unbindable); `libc` declares it as `0x020000`.
#[verifier::external_body]
pub(crate) fn ms_unbindable() -> (r: u64)
    ensures
        r == 0x020000,
{
    libc::MS_UNBINDABLE
}

/// `libc::MS_PRIVATE` (propagation type: private); `libc` declares it as `0x040000`.
#[verifier::external_body]
pub(crate) fn ms_private() -> (r: u64)
    ensures
        r == 0x040000,
{
    libc::MS_PRIVATE
}

/// `libc::MS_SLAVE` (propagation type: slave); `libc` declares it as `0x080000`.
#[verifier::external_body]
pub(crate) fn ms_slave() -> (r: u64)
    ensures
        r == 0x080000,
{
    libc::MS_SLAVE
}

/// `libc::MS_SHARED` (propagation type: shared); `libc` declares it as `0x100000`.
#[verifier::external_body]
pub(crate) fn ms_shared() -> (r: u64)
    ensures
        r == 0x100000,
{
    libc::MS_SHARED
}

/// `libc::CLONE_CLEAR_SIGHAND` (reset signal handlers in the child).
/// `libc` declares it as a `c_int` with the literal `0x100000000`, which
/// does not fit in 32 bits and wraps to `0` (the constant is deprecated in
/// `libc` for that reason); the contract states that value, `0`.
#[verifier::external_body]
#[allow(deprecated)]
pub(crate) fn clone_clear_sighand() -> (r: i32)
    ensures
        r == 0,
{
    libc::CLONE_CLEAR_SIGHAND
}

/// `libc::CLONE_INTO_CGROUP` (start the child in a given cgroup). Like
/// `CLONE_CLEAR_SIGHAND`, `libc` declares it as a `c_int` with a literal,
/// `0x200000000`, that wraps to `0`; the contract states that value, `0`.
#[verifier::external_body]
#[allow(deprecated)]
pub(crate) fn clone_into_cgroup() -> (r: i32)
    ensures
        r == 0,
{
    libc::CLONE_INTO_CGROUP
}

} // verus!
