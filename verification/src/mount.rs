//! A builder for the arguments of `mount(2)`.
//!
//! Paths and names are handed around as the bytes of C strings, the
//! terminating nul included; the builder only carries them.
use vstd::prelude::*;

use core::marker::PhantomData;

use crate::sys;

verus! {

/// The arguments that `mount(2)` is called with; the data argument is
/// always null.
pub struct MountArgs<'a> {
    pub source: Option<&'a [u8]>,
    pub target: Option<&'a [u8]>,
    pub fs_type: Option<&'a [u8]>,
    pub flags: u64,
}

/// The arguments of a `mount(2)` call, each path or name by its bytes.
pub struct MountArgsView {
    pub source: Option<Seq<u8>>,
    pub target: Option<Seq<u8>>,
    pub fs_type: Option<Seq<u8>>,
    pub flags: u64,
}

/// The bytes of an optional path or name.
pub open spec fn opt_bytes(o: Option<&[u8]>) -> Option<Seq<u8>> {
    match o {
        Some(s) => Some(s@),
        None => None,
    }
}

impl<'a> View for MountArgs<'a> {
    type V = MountArgsView;

    open spec fn view(&self) -> MountArgsView {
        MountArgsView {
            source: opt_bytes(self.source),
            target: opt_bytes(self.target),
            fs_type: opt_bytes(self.fs_type),
            flags: self.flags,
        }
    }
}

/// A mount target with the flags chosen for it so far.
pub struct Mount<'a> {
    flags: u64,
    target: &'a [u8],
}

/// Marks a configuration that changes the propagation type of a mount.
pub struct ActionSetPropagation;

/// Marks a configuration that makes a bind mount.
pub struct ActionBind;

/// Marks a configuration that creates a new mount.
pub struct ActionCreate;

/// A mount whose kind of operation is fixed by `Action`.
pub struct ConfiguredMount<'a, Action> {
    flags: u64,
    target: &'a [u8],
    source: Option<&'a [u8]>,
    fs_type: Option<&'a [u8]>,
    _action: PhantomData<Action>,
}

/// The propagation type of a mount.
pub enum MountPropagation {
    Private,
    Shared,
    Slave,
    Unbindable,
}

/// The `mount(2)` flag of a propagation type.
pub open spec fn propagation_flag(p: MountPropagation) -> u64 {
    match p {
        MountPropagation::Private => 0x040000,
        MountPropagation::Shared => 0x100000,
        MountPropagation::Slave => 0x080000,
        MountPropagation::Unbindable => 0x020000,
    }
}

impl MountPropagation {
    /// The `mount(2)` flag of this propagation type: `MS_PRIVATE`,
    /// `MS_SHARED`, `MS_SLAVE` or `MS_UNBINDABLE`.
    pub fn flag(&self) -> (r: u64)
        ensures
            r == propagation_flag(*self),
    {
        match self {
            MountPropagation::Private => sys::ms_private(),
            MountPropagation::Shared => sys::ms_shared(),
            MountPropagation::Slave => sys::ms_slave(),
            MountPropagation::Unbindable => sys::ms_unbindable(),
        }
    }
}

/// A mount builder that enforces correct usage of the mount syscall and
/// prevents invalid flag and argument combinations.
///
/// The builder is async-signal-safe: it doesn't allocate.
impl<'a> Mount<'a> {
    /// The flags chosen so far.
    pub closed spec fn flags(self) -> u64 {
        self.flags
    }

    /// The path that is mounted on.
    pub closed spec fn target(self) -> &'a [u8] {
        self.target
    }

    /// A mount of `target`, with no flags yet.
    pub fn new(target: &'a [u8]) -> (m: Self)
        ensures
            m.flags() == 0,
            m.target() == target,
    {
        Self { flags: 0, target }
    }

    /// Mount read-only (`MS_RDONLY`).
    pub fn readonly(self) -> (m: Self)
        ensures
            m.flags() == self.flags() | 0x01,
            m.target() == self.target(),
    {
        Self { flags: self.flags | sys::ms_rdonly(), target: self.target }
    }

    /// Do not honour set-user-id and set-group-id bits (`MS_NOSUID`).
    pub fn no_suid(self) -> (m: Self)
        ensures
            m.flags() == self.flags() | 0x02,
            m.target() == self.target(),
    {
        Self { flags: self.flags | sys::ms_nosuid(), target: self.target }
    }

    /// Do not allow access to device files (`MS_NODEV`).
    pub fn no_dev(self) -> (m: Self)
        ensures
            m.flags() == self.flags() | 0x04,
            m.target() == self.target(),
    {
        Self { flags: self.flags | sys::ms_nodev(), target: self.target }
    }

    /// Do not allow programs to be executed (`MS_NOEXEC`).
    pub fn no_exec(self) -> (m: Self)
        ensures
            m.flags() == self.flags() | 0x08,
            m.target() == self.target(),
    {
        Self { flags: self.flags | sys::ms_noexec(), target: self.target }
    }

    /// Set the propagation type of an existing mount.
    pub fn set_propagation(self, propagation_type: MountPropagation) -> (c: ConfiguredMount<
        'a,
        ActionSetPropagation,
    >)
        ensures
            c.flags() == self.flags() | propagation_flag(propagation_type),
            c.target() == self.target(),
            c.source() is None,
            c.fs_type() is None,
    {
        ConfiguredMount {
            flags: self.flags | propagation_type.flag(),
            target: self.target,
            source: None,
            fs_type: None,
            _action: PhantomData,
        }
    }

    /// Bind `source` to the target (`MS_BIND`).
    pub fn bind(self, source: &'a [u8]) -> (c: ConfiguredMount<'a, ActionBind>)
        ensures
            c.flags() == self.flags() | 0x1000,
            c.target() == self.target(),
            c.source() == Some(source),
            c.fs_type() is None,
    {
        ConfiguredMount {
            flags: self.flags | sys::ms_bind(),
            target: self.target,
            source: Some(source),
            fs_type: None,
            _action: PhantomData,
        }
    }

    /// Create a new mount of a file system of type `fs_type` from `source`.
    pub fn create(self, fs_type: &'a [u8], source: &'a [u8]) -> (c: ConfiguredMount<
        'a,
        ActionCreate,
    >)
        ensures
            c.flags() == self.flags(),
            c.target() == self.target(),
            c.source() == Some(source),
            c.fs_type() == Some(fs_type),
    {
        ConfiguredMount {
            flags: self.flags,
            target: self.target,
            source: Some(source),
            fs_type: Some(fs_type),
            _action: PhantomData,
        }
    }
}

impl<'a, Action> ConfiguredMount<'a, Action> {
    /// The flags of the configured mount.
    pub closed spec fn flags(self) -> u64 {
        self.flags
    }

    /// The path that is mounted on.
    pub closed spec fn target(self) -> &'a [u8] {
        self.target
    }

    /// The source of the mount, if it has one.
    pub closed spec fn source(self) -> Option<&'a [u8]> {
        self.source
    }

    /// The file system type of the mount, if it has one.
    pub closed spec fn fs_type(self) -> Option<&'a [u8]> {
        self.fs_type
    }
}

impl<'a> ConfiguredMount<'a, ActionSetPropagation> {
    /// The `mount(2)` call that sets the propagation type of the target:
    /// no source and no file system type.
    pub fn mount(self) -> (args: MountArgs<'a>)
        ensures
            args == (MountArgs {
                source: None,
                target: Some(self.target()),
                fs_type: None,
                flags: self.flags(),
            }),
    {
        MountArgs { source: None, target: Some(self.target), fs_type: None, flags: self.flags }
    }

    /// Recursively change the propagation type of all mounts in a subtree
    /// (`MS_REC`).
    pub fn recursive(self) -> (c: Self)
        ensures
            c.flags() == self.flags() | 0x4000,
            c.target() == self.target(),
            c.source() == self.source(),
            c.fs_type() == self.fs_type(),
    {
        ConfiguredMount {
            flags: self.flags | sys::ms_rec(),
            target: self.target,
            source: self.source,
            fs_type: self.fs_type,
            _action: PhantomData,
        }
    }
}

/// The file system type and data arguments are ignored by a bind mount.
impl<'a> ConfiguredMount<'a, ActionBind> {
    /// The `mount(2)` call that binds the source to the target: no file
    /// system type.
    pub fn mount(self) -> (args: MountArgs<'a>)
        ensures
            args == (MountArgs {
                source: self.source(),
                target: Some(self.target()),
                fs_type: None,
                flags: self.flags(),
            }),
    {
        MountArgs { source: self.source, target: Some(self.target), fs_type: None, flags: self.flags }
    }

    /// All submounts under the `source` subtree (other than unbindable
    /// mounts) are also bind mounted at the corresponding location in the
    /// `target` subtree (`MS_REC`).
    ///
    /// By default, when a directory is bind mounted, only that directory is
    /// mounted; if there are any submounts under the directory tree, they
    /// are not bind mounted.
    pub fn recursive(self) -> (c: Self)
        ensures
            c.flags() == self.flags() | 0x4000,
            c.target() == self.target(),
            c.source() == self.source(),
            c.fs_type() == self.fs_type(),
    {
        ConfiguredMount {
            flags: self.flags | sys::ms_rec(),
            target: self.target,
            source: self.source,
            fs_type: self.fs_type,
            _action: PhantomData,
        }
    }
}

impl<'a> ConfiguredMount<'a, ActionCreate> {
    /// The `mount(2)` call that creates a new mount: source, target, file
    /// system type and flags.
    pub fn mount(self) -> (args: MountArgs<'a>)
        ensures
            args == (MountArgs {
                source: self.source(),
                target: Some(self.target()),
                fs_type: self.fs_type(),
                flags: self.flags(),
            }),
    {
        MountArgs {
            source: self.source,
            target: Some(self.target),
            fs_type: self.fs_type,
            flags: self.flags,
        }
    }
}

/// The flag options of a mount only add their own bits: they keep every
/// flag already chosen, applying one twice is the same as applying it once,
/// and any two of them give the same flags in either order.
pub proof fn law_mount_options(flags: u64, a: u64, b: u64)
    requires
        a == 0x01 || a == 0x02 || a == 0x04 || a == 0x08 || a == 0x1000 || a == 0x4000,
        b == 0x01 || b == 0x02 || b == 0x04 || b == 0x08 || b == 0x1000 || b == 0x4000,
    ensures
        (flags | a) & flags == flags,
        (flags | a) & a == a,
        (flags | a) | a == flags | a,
        (flags | a) | b == (flags | b) | a,
{
    assert((flags | a) & flags == flags) by (bit_vector);
    assert((flags | a) & a == a) by (bit_vector);
    assert((flags | a) | a == flags | a) by (bit_vector);
    assert((flags | a) | b == (flags | b) | a) by (bit_vector);
}

/// The four propagation types have four distinct flags, each a single bit
/// that no other mount option of this module uses (the bits of those
/// options make up `0x500f`).
pub proof fn law_propagation_flags_distinct(p: MountPropagation, q: MountPropagation)
    ensures
        propagation_flag(p) == propagation_flag(q) <==> p == q,
        propagation_flag(p) & 0x500fu64 == 0,
{
    let f = propagation_flag(p);
    assert(f == 0x040000 || f == 0x100000 || f == 0x080000 || f == 0x020000);
    assert(f & 0x500fu64 == 0) by (bit_vector)
        requires
            f == 0x040000u64 || f == 0x100000u64 || f == 0x080000u64 || f == 0x020000u64,
    ;
}

} // verus!
