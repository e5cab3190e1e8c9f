//! A builder for the arguments of `close_range(2)`.
use vstd::prelude::*;

use crate::sys;

verus! {

/// The three arguments that `close_range(2)` is called with.
pub struct CloseRangeArgs {
    pub first: u32,
    pub last: u32,
    pub flags: u32,
}

/// A simple builder for `close_range(2)`.
///
/// This is written for a single use case when spawning a container, that's
/// why it doesn't handle all errors and cases. The call itself is made by
/// the caller with [`CloseRangeBuilder::first`], [`CloseRangeBuilder::last`]
/// and [`CloseRangeBuilder::flags`]; [`close_result`] reads its return
/// value.
pub struct CloseRangeBuilder {
    flags: u32,
    first: u32,
    last: u32,
}

impl View for CloseRangeBuilder {
    type V = CloseRangeArgs;

    closed spec fn view(&self) -> CloseRangeArgs {
        CloseRangeArgs { first: self.first, last: self.last, flags: self.flags }
    }
}

impl CloseRangeBuilder {
    /// Close the file descriptors from `first` to `last`, with no flags.
    pub fn new(first: u32, last: u32) -> (b: Self)
        ensures
            b@ == (CloseRangeArgs { first, last, flags: 0 }),
    {
        Self { flags: 0, first, last }
    }

    /// Set the close-on-exec flag on the file descriptors, rather
    /// than immediately closing them.
    pub fn close_on_exec(self) -> (b: Self)
        ensures
            b@ == (CloseRangeArgs { flags: self@.flags | 4, ..self@ }),
    {
        let mut b = self;
        b.flags = b.flags | sys::close_range_cloexec();
        b
    }

    /// Unshare the specified file descriptors from any other processes before
    /// closing them, avoiding races with other threads sharing the file
    /// descriptor table.
    pub fn unshare_before_closing(self) -> (b: Self)
        ensures
            b@ == (CloseRangeArgs { flags: self@.flags | 2, ..self@ }),
    {
        let mut b = self;
        b.flags = b.flags | sys::close_range_unshare();
        b
    }

    /// The first file descriptor of the range.
    pub fn first(&self) -> (r: u32)
        ensures
            r == self@.first,
    {
        self.first
    }

    /// The last file descriptor of the range.
    pub fn last(&self) -> (r: u32)
        ensures
            r == self@.last,
    {
        self.last
    }

    /// The flags that the call is made with.
    pub fn flags(&self) -> (r: u32)
        ensures
            r == self@.flags,
    {
        self.flags
    }
}

/// What a `close_range(2)` call that returned `ret` means: success exactly
/// when it returned `0`.
pub fn close_result(ret: i64) -> (r: Result<(), ()>)
    ensures
        r is Ok <==> ret == 0,
{
    match ret {
        0 => Ok(()),
        _ => Err(()),
    }
}

/// The flag setters only add their own bit, in any order: applying both
/// gives the same flags either way, and applying one twice is the same as
/// applying it once.
pub proof fn law_close_range_flags(flags: u32)
    ensures
        (flags | 4) | 2 == (flags | 2) | 4,
        (flags | 4) | 4 == flags | 4,
        (flags | 2) | 2 == flags | 2,
        (flags | 4) & flags == flags,
        (flags | 2) & flags == flags,
{
    assert((flags | 4) | 2 == (flags | 2) | 4) by (bit_vector);
    assert((flags | 4) | 4 == flags | 4) by (bit_vector);
    assert((flags | 2) | 2 == flags | 2) by (bit_vector);
    assert((flags | 4) & flags == flags) by (bit_vector);
    assert((flags | 2) & flags == flags) by (bit_vector);
}

} // verus!
