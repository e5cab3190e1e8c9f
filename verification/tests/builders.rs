use curium::clone3::{clone3_flags, clone3_outcome, CloneResult};
use curium::close_range::{close_result, CloseRangeBuilder};
use curium::mount::{Mount, MountPropagation};

#[test]
fn close_range_builder_flags() {
    let b = CloseRangeBuilder::new(3, u32::MAX);
    assert_eq!((b.first(), b.last(), b.flags()), (3, u32::MAX, 0));
    let b = b.close_on_exec();
    assert_eq!(b.flags(), libc::CLOSE_RANGE_CLOEXEC);
    let b = b.unshare_before_closing();
    assert_eq!(b.flags(), libc::CLOSE_RANGE_CLOEXEC | libc::CLOSE_RANGE_UNSHARE);
    assert_eq!(b.flags(), 6);
    let c = CloseRangeBuilder::new(0, 10).unshare_before_closing().close_on_exec().close_on_exec();
    assert_eq!(c.flags(), 6);
    assert_eq!((c.first(), c.last()), (0, 10));
}

#[test]
fn close_result_reads_return_value() {
    assert_eq!(close_result(0), Ok(()));
    assert_eq!(close_result(-1), Err(()));
    assert_eq!(close_result(1), Err(()));
}

#[test]
fn clone3_flags_add_parent_settid() {
    assert_eq!(clone3_flags(0), libc::CLONE_PARENT_SETTID as u64);
    assert_eq!(clone3_flags(libc::CLONE_VM as u64), 0x100100);
    assert_eq!(clone3_flags(0x100000), 0x100000);
}

#[test]
fn clone3_outcome_sides() {
    assert!(clone3_outcome(-1, 5).is_none());
    assert!(matches!(clone3_outcome(0, 5), Some(CloneResult::Child)));
    match clone3_outcome(42, 43) {
        Some(CloneResult::Parent(child)) => {
            assert_eq!(child.pid, 42);
            assert_eq!(child.tid, 43);
        }
        _ => panic!("expected the parent side"),
    }
}

#[test]
fn propagation_flags_are_libc_values() {
    assert_eq!(MountPropagation::Private.flag(), libc::MS_PRIVATE);
    assert_eq!(MountPropagation::Shared.flag(), libc::MS_SHARED);
    assert_eq!(MountPropagation::Slave.flag(), libc::MS_SLAVE);
    assert_eq!(MountPropagation::Unbindable.flag(), libc::MS_UNBINDABLE);
}

#[test]
fn set_propagation_recursive_mount_args() {
    let target = b"/\0";
    let args = Mount::new(target)
        .set_propagation(MountPropagation::Private)
        .recursive()
        .mount();
    assert_eq!(args.source, None);
    assert_eq!(args.target, Some(&target[..]));
    assert_eq!(args.fs_type, None);
    assert_eq!(args.flags, libc::MS_PRIVATE | libc::MS_REC);
}

#[test]
fn bind_mount_args() {
    let target = b"/a\0";
    let source = b"/b\0";
    let args = Mount::new(target).bind(source).mount();
    assert_eq!(args.source, Some(&source[..]));
    assert_eq!(args.target, Some(&target[..]));
    assert_eq!(args.fs_type, None);
    assert_eq!(args.flags, libc::MS_BIND);
    let rec = Mount::new(target).bind(source).recursive().mount();
    assert_eq!(rec.flags, libc::MS_BIND | libc::MS_REC);
}

#[test]
fn create_mount_args_with_options() {
    let target = b"/root/proc\0";
    let args = Mount::new(target)
        .no_dev()
        .no_suid()
        .no_exec()
        .create(b"proc\0", b"procsrc\0")
        .mount();
    assert_eq!(args.source, Some(&b"procsrc\0"[..]));
    assert_eq!(args.target, Some(&target[..]));
    assert_eq!(args.fs_type, Some(&b"proc\0"[..]));
    assert_eq!(args.flags, libc::MS_NODEV | libc::MS_NOSUID | libc::MS_NOEXEC);
    let ro = Mount::new(target).readonly().create(b"sysfs\0", b"sys\0").mount();
    assert_eq!(ro.flags, libc::MS_RDONLY);
}

#[test]
fn mount_options_commute() {
    let t = b"/x\0";
    let a = Mount::new(t).no_exec().readonly().no_exec().create(b"t\0", b"s\0").mount();
    let b = Mount::new(t).readonly().no_exec().create(b"t\0", b"s\0").mount();
    assert_eq!(a.flags, b.flags);
}
