//! The description of a container: its root file system, the command that
//! it runs, and what spawning it sets up.
use vstd::prelude::*;

use vstd::utf8::encode_utf8;

use crate::mount::{MountArgs, MountArgsView, MountPropagation, Mount};
use crate::close_range::{CloseRangeArgs, CloseRangeBuilder};
use crate::sys;

verus! {

/// Whether `s` holds no nul byte, so that it can be passed as a C string.
pub open spec fn has_no_nul(s: Seq<u8>) -> bool {
    forall|i: int| 0 <= i < s.len() ==> s[i] != 0u8
}

/// `s` as a C string: its bytes followed by a nul.
pub open spec fn c_string(s: Seq<u8>) -> Seq<u8> {
    s.push(0u8)
}

/// What a container is made of.
pub struct ContainerView {
    /// The program that the container runs.
    pub cmd: Seq<u8>,
    /// The path of its root file system.
    pub root: Seq<char>,
    /// Its argument vector, the program first.
    pub args: Seq<Seq<u8>>,
    /// Its environment.
    pub env: Seq<Seq<u8>>,
}

/// A container: the program it runs with its arguments and environment,
/// and the directory that becomes its root file system. The program, the
/// arguments and the environment hold no nul byte.
pub struct Container {
    cmd: Vec<u8>,
    root: String,
    args: Vec<Vec<u8>>,
    env: Vec<Vec<u8>>,
}

impl View for Container {
    type V = ContainerView;

    closed spec fn view(&self) -> ContainerView {
        ContainerView {
            cmd: self.cmd@,
            root: self.root@,
            args: self.args@.map_values(|v: Vec<u8>| v@),
            env: self.env@.map_values(|v: Vec<u8>| v@),
        }
    }
}

/// The paths, as C strings, that spawning a container mounts and pivots on.
pub struct SpawnPaths {
    /// The root file system.
    pub rootfs: Vec<u8>,
    /// Where `proc` is mounted inside it.
    pub procfs: Vec<u8>,
    /// Where `sysfs` is mounted inside it.
    pub sysfs: Vec<u8>,
    /// Where the old root is put by `pivot_root(2)`.
    pub old_root: Vec<u8>,
}

/// The bytes of the root file system path of `c`.
pub open spec fn root_bytes(c: ContainerView) -> Seq<u8> {
    encode_utf8(c.root)
}

impl Container {
    #[verifier::type_invariant]
    spec fn well_formed(self) -> bool {
        &&& has_no_nul(self.cmd@)
        &&& forall|i: int| 0 <= i < self.args@.len() ==> has_no_nul(#[trigger] self.args@[i]@)
        &&& forall|i: int| 0 <= i < self.env@.len() ==> has_no_nul(#[trigger] self.env@[i]@)
    }

    /// A container whose root file system is `root` and that runs `cmd`,
    /// with `cmd` as its only argument and an empty environment.
    pub fn new(root: String, cmd: &[u8]) -> (c: Self)
        requires
            has_no_nul(cmd@),
        ensures
            c@ == (ContainerView {
                cmd: cmd@,
                root: root@,
                args: seq![cmd@],
                env: Seq::empty(),
            }),
    {
        let mut args: Vec<Vec<u8>> = Vec::with_capacity(2);
        args.push(vstd::slice::slice_to_vec(cmd));
        let cmd = vstd::slice::slice_to_vec(cmd);
        let c = Container { cmd, args, root, env: Vec::new() };
        assert(c@.args =~= seq![cmd@]);
        assert(c@.env =~= Seq::<Seq<u8>>::empty());
        c
    }

    /// Add an argument.
    pub fn arg(self, arg: &[u8]) -> (c: Self)
        requires
            has_no_nul(arg@),
        ensures
            c@ == (ContainerView { args: self@.args.push(arg@), ..self@ }),
    {
        proof {
            use_type_invariant(&self);
        }
        let arg = vstd::slice::slice_to_vec(arg);
        let Container { cmd, root, mut args, env } = self;
        args.push(arg);
        let c = Container { cmd, root, args, env };
        assert(c@.args =~= self@.args.push(arg@));
        c
    }

    /// Add an environment entry.
    pub fn env(self, env: &[u8]) -> (c: Self)
        requires
            has_no_nul(env@),
        ensures
            c@ == (ContainerView { env: self@.env.push(env@), ..self@ }),
    {
        proof {
            use_type_invariant(&self);
        }
        let entry = vstd::slice::slice_to_vec(env);
        let Container { cmd, root, args, mut env } = self;
        env.push(entry);
        let c = Container { cmd, root, args, env };
        assert(c@.env =~= self@.env.push(entry@));
        c
    }
    /// The program that the container runs.
    pub fn command(&self) -> (cmd: &[u8])
        ensures
            cmd@ == self@.cmd,
            has_no_nul(cmd@),
    {
        proof {
            use_type_invariant(self);
        }
        self.cmd.as_slice()
    }

    /// The path of the root file system.
    pub fn root(&self) -> (root: &str)
        ensures
            root@ == self@.root,
    {
        self.root.as_str()
    }

    /// The argument vector, the program first.
    pub fn arguments(&self) -> (args: &Vec<Vec<u8>>)
        ensures
            args@.map_values(|v: Vec<u8>| v@) == self@.args,
            forall|i: int| 0 <= i < args@.len() ==> has_no_nul(#[trigger] args@[i]@),
    {
        proof {
            use_type_invariant(self);
        }
        &self.args
    }

    /// The environment entries.
    pub fn environment(&self) -> (env: &Vec<Vec<u8>>)
        ensures
            env@.map_values(|v: Vec<u8>| v@) == self@.env,
            forall|i: int| 0 <= i < env@.len() ==> has_no_nul(#[trigger] env@[i]@),
    {
        proof {
            use_type_invariant(self);
        }
        &self.env
    }

    /// The paths that spawning the container uses, as C strings: the root
    /// file system, and `/proc`, `/sys` and `/old_root` under it.
    pub fn spawn_paths(&self) -> (p: SpawnPaths)
        requires
            has_no_nul(root_bytes(self@)),
        ensures
            p.rootfs@ == c_string(root_bytes(self@)),
            p.procfs@ == c_string(root_bytes(self@) + encode_utf8("/proc"@)),
            p.sysfs@ == c_string(root_bytes(self@) + encode_utf8("/sys"@)),
            p.old_root@ == c_string(root_bytes(self@) + encode_utf8("/old_root"@)),
            p.rootfs@ == root_bytes(self@).push(0u8),
            p.procfs@ == (root_bytes(self@) + encode_utf8("/proc"@)).push(0u8),
            p.sysfs@ == (root_bytes(self@) + encode_utf8("/sys"@)).push(0u8),
            p.old_root@ == (root_bytes(self@) + encode_utf8("/old_root"@)).push(0u8),
    {
        let root = self.root.as_str().as_bytes();
        let rootfs = c_path(root, None);
        let procfs = c_path(root, Some("/proc".as_bytes()));
        let sysfs = c_path(root, Some("/sys".as_bytes()));
        let old_root = c_path(root, Some("/old_root".as_bytes()));
        SpawnPaths { rootfs, procfs, sysfs, old_root }
    }
}

/// For every byte sequence `s`, whatever its length, the C string of `s`
/// is `s` followed by exactly one nul: it is one byte longer than `s`, its
/// first `s.len()` bytes are `s`, its last byte is `0`, and when `s` holds
/// no nul that last byte is its only nul.
pub proof fn law_c_string(s: Seq<u8>)
    ensures
        c_string(s).len() == s.len() + 1,
        c_string(s).take(s.len() as int) == s,
        c_string(s)[s.len() as int] == 0u8,
        has_no_nul(s) ==> forall|i: int|
            0 <= i < c_string(s).len() && #[trigger] c_string(s)[i] == 0u8 ==> i == s.len(),
{
    assert(c_string(s).take(s.len() as int) =~= s);
}

/// A spawn path is the root path, then its suffix, then a nul: its length
/// is that of the root and suffix plus one, it starts with the root's bytes,
/// the suffix follows them, and it ends with its only nul when the root
/// holds none.
pub proof fn law_spawn_path(root: Seq<u8>, suffix: Seq<u8>)
    requires
        has_no_nul(suffix),
    ensures
        c_string(root + suffix).len() == root.len() + suffix.len() + 1,
        c_string(root + suffix).take(root.len() as int) == root,
        c_string(root + suffix).subrange(root.len() as int, (root.len() + suffix.len()) as int) == suffix,
        c_string(root + suffix).last() == 0u8,
        has_no_nul(root) ==> forall|i: int|
            0 <= i < c_string(root + suffix).len() && #[trigger] c_string(root + suffix)[i]
                == 0u8 ==> i == root.len() + suffix.len(),
{
    let c = c_string(root + suffix);
    assert(c.take(root.len() as int) =~= root);
    assert(c.subrange(root.len() as int, (root.len() + suffix.len()) as int) =~= suffix);
    if has_no_nul(root) {
        assert forall|i: int| 0 <= i < c.len() && #[trigger] c[i] == 0u8 implies i == root.len()
            + suffix.len() by {
            if i < root.len() {
                assert(c[i] == root[i]);
            } else if i < root.len() + suffix.len() {
                assert(c[i] == suffix[i - root.len()]);
            }
        }
    }
}

/// The C string made of `prefix`, then `suffix` if there is one, then a nul.
fn c_path(prefix: &[u8], suffix: Option<&[u8]>) -> (v: Vec<u8>)
    ensures
        v@ == c_string(
            match suffix {
                Some(s) => prefix@ + s@,
                None => prefix@,
            },
        ),
{
    let mut v: Vec<u8> = Vec::new();
    let mut i: usize = 0;
    while i < prefix.len()
        invariant
            i <= prefix@.len(),
            v@ == prefix@.take(i as int),
        decreases prefix@.len() - i,
    {
        v.push(prefix[i]);
        i = i + 1;
        assert(v@ =~= prefix@.take(i as int));
    }
    assert(prefix@.take(prefix@.len() as int) =~= prefix@);
    if let Some(s) = suffix {
        let mut j: usize = 0;
        while j < s.len()
            invariant
                j <= s@.len(),
                v@ == prefix@ + s@.take(j as int),
            decreases s@.len() - j,
        {
            v.push(s[j]);
            j = j + 1;
            assert(v@ =~= prefix@ + s@.take(j as int));
        }
        assert(s@.take(s@.len() as int) =~= s@);
    }
    v.push(0);
    v
}

/// The flags that a container's process is cloned with: new IPC, network,
/// UTS, mount and PID namespaces (`CLONE_NEWIPC | CLONE_NEWNET |
/// CLONE_NEWUTS | CLONE_NEWNS | CLONE_NEWPID`), together with
/// `CLONE_CLEAR_SIGHAND | CLONE_INTO_CGROUP`, which are `0` as `libc`
/// declares them.
pub fn spawn_clone_flags() -> (f: u64)
    ensures
        f == 0x6c02_0000,
{
    let clear = sys::clone_clear_sighand();
    let cgroup = sys::clone_into_cgroup();
    let ipc = sys::clone_newipc();
    let net = sys::clone_newnet();
    let uts = sys::clone_newuts();
    let ns = sys::clone_newns();
    let pid = sys::clone_newpid();
    let flags: i32 = clear | cgroup | ipc | net | uts | ns | pid;
    assert(flags == 0x6c02_0000) by (bit_vector)
        requires
            flags == clear | cgroup | ipc | net | uts | ns | pid,
            clear == 0,
            cgroup == 0,
            ipc == 0x08000000,
            net == 0x40000000,
            uts == 0x04000000,
            ns == 0x20000,
            pid == 0x20000000,
    ;
    flags as u64
}

/// The descriptors that the container's process gives up before it runs
/// the program: every descriptor from `3` up is marked close-on-exec, so
/// that only standard input, output and error are inherited.
pub fn spawn_close_range() -> (b: CloseRangeBuilder)
    ensures
        b@ == (CloseRangeArgs { first: 3, last: u32::MAX, flags: 4 }),
{
    let b = CloseRangeBuilder::new(3, u32::MAX).close_on_exec();
    assert(0u32 | 4u32 == 4u32) by (bit_vector);
    b
}

/// The mounts that the container's process makes, in order, before it
/// pivots into its root file system:
/// - `/` and every mount under it become private (`MS_PRIVATE | MS_REC`),
///   so that nothing propagates back to the host;
/// - the root file system is bind mounted onto itself (`MS_BIND`), so that
///   it is a mount point;
/// - `proc` is mounted on its `proc` directory with `MS_NODEV | MS_NOSUID |
///   MS_NOEXEC`;
/// - `sysfs` (source `sys`) is mounted on its `sys` directory read-only,
///   with `MS_RDONLY | MS_NODEV | MS_NOSUID | MS_NOEXEC`.
pub fn child_mounts<'a>(paths: &'a SpawnPaths) -> (m: Vec<MountArgs<'a>>)
    ensures
        m@.len() == 4,
        m@[0]@ == (MountArgsView {
            source: None,
            target: Some(encode_utf8("/\0"@)),
            fs_type: None,
            flags: 0x44000,
        }),
        m@[1]@ == (MountArgsView {
            source: Some(paths.rootfs@),
            target: Some(paths.rootfs@),
            fs_type: None,
            flags: 0x1000,
        }),
        m@[2]@ == (MountArgsView {
            source: Some(encode_utf8("proc\0"@)),
            target: Some(paths.procfs@),
            fs_type: Some(encode_utf8("proc\0"@)),
            flags: 0x0e,
        }),
        m@[3]@ == (MountArgsView {
            source: Some(encode_utf8("sys\0"@)),
            target: Some(paths.sysfs@),
            fs_type: Some(encode_utf8("sysfs\0"@)),
            flags: 0x0f,
        }),
{
    let mut m: Vec<MountArgs<'a>> = Vec::with_capacity(4);
    m.push(Mount::new("/\0".as_bytes()).set_propagation(MountPropagation::Private).recursive().mount());
    m.push(Mount::new(paths.rootfs.as_slice()).bind(paths.rootfs.as_slice()).mount());
    m.push(
        Mount::new(paths.procfs.as_slice()).no_dev().no_suid().no_exec().create(
            "proc\0".as_bytes(),
            "proc\0".as_bytes(),
        ).mount(),
    );
    m.push(
        Mount::new(paths.sysfs.as_slice()).readonly().no_dev().no_suid().no_exec().create(
            "sysfs\0".as_bytes(),
            "sys\0".as_bytes(),
        ).mount(),
    );
    assert((0u64 | 0x040000u64) | 0x4000u64 == 0x44000u64) by (bit_vector);
    assert(0u64 | 0x1000u64 == 0x1000u64) by (bit_vector);
    assert(((0u64 | 0x04u64) | 0x02u64) | 0x08u64 == 0x0eu64) by (bit_vector);
    assert((((0u64 | 0x01u64) | 0x04u64) | 0x02u64) | 0x08u64 == 0x0fu64) by (bit_vector);
    m
}

} // verus!
