use curium::container::{child_mounts, spawn_clone_flags, spawn_close_range, Container};

#[test]
fn new_container_runs_cmd_with_itself_as_argument() {
    let c = Container::new("/tmp/bbox".to_string(), b"/bin/sh");
    assert_eq!(c.command(), b"/bin/sh");
    assert_eq!(c.arguments(), &vec![b"/bin/sh".to_vec()]);
    assert!(c.environment().is_empty());
}

#[test]
fn arguments_and_environment_accumulate() {
    let c = Container::new("/r".to_string(), b"/bin/echo")
        .arg(b"hello")
        .env(b"A=1")
        .arg(b"world")
        .env(b"B=2");
    assert_eq!(
        c.arguments(),
        &vec![b"/bin/echo".to_vec(), b"hello".to_vec(), b"world".to_vec()]
    );
    assert_eq!(c.environment(), &vec![b"A=1".to_vec(), b"B=2".to_vec()]);
}

#[test]
fn spawn_paths_are_c_strings_under_root() {
    let c = Container::new("/tmp/bbox".to_string(), b"/bin/sh");
    let p = c.spawn_paths();
    assert_eq!(p.rootfs, b"/tmp/bbox\0".to_vec());
    assert_eq!(p.procfs, b"/tmp/bbox/proc\0".to_vec());
    assert_eq!(p.sysfs, b"/tmp/bbox/sys\0".to_vec());
    assert_eq!(p.old_root, b"/tmp/bbox/old_root\0".to_vec());
}

#[test]
fn spawn_clone_flags_are_the_namespaces() {
    let expected = (libc::CLONE_NEWIPC
        | libc::CLONE_NEWNET
        | libc::CLONE_NEWUTS
        | libc::CLONE_NEWNS
        | libc::CLONE_NEWPID) as u64;
    assert_eq!(spawn_clone_flags(), expected);
    assert_eq!(spawn_clone_flags(), 0x6c02_0000);
}

#[test]
fn spawn_closes_descriptors_from_three_on_exec() {
    let b = spawn_close_range();
    assert_eq!((b.first(), b.last(), b.flags()), (3, u32::MAX, libc::CLOSE_RANGE_CLOEXEC));
}

#[test]
fn child_mounts_in_order() {
    let c = Container::new("/tmp/bbox".to_string(), b"/bin/sh");
    let p = c.spawn_paths();
    let m = child_mounts(&p);
    assert_eq!(m.len(), 4);

    assert_eq!(m[0].source, None);
    assert_eq!(m[0].target, Some(&b"/\0"[..]));
    assert_eq!(m[0].fs_type, None);
    assert_eq!(m[0].flags, libc::MS_PRIVATE | libc::MS_REC);

    assert_eq!(m[1].source, Some(&b"/tmp/bbox\0"[..]));
    assert_eq!(m[1].target, Some(&b"/tmp/bbox\0"[..]));
    assert_eq!(m[1].fs_type, None);
    assert_eq!(m[1].flags, libc::MS_BIND);

    assert_eq!(m[2].source, Some(&b"proc\0"[..]));
    assert_eq!(m[2].target, Some(&b"/tmp/bbox/proc\0"[..]));
    assert_eq!(m[2].fs_type, Some(&b"proc\0"[..]));
    assert_eq!(m[2].flags, libc::MS_NODEV | libc::MS_NOSUID | libc::MS_NOEXEC);

    assert_eq!(m[3].source, Some(&b"sys\0"[..]));
    assert_eq!(m[3].target, Some(&b"/tmp/bbox/sys\0"[..]));
    assert_eq!(m[3].fs_type, Some(&b"sysfs\0"[..]));
    assert_eq!(
        m[3].flags,
        libc::MS_RDONLY | libc::MS_NODEV | libc::MS_NOSUID | libc::MS_NOEXEC
    );
}

use curium::spawn::{first_setup_step, next_setup_step, SetupFailure, SetupStep, StepOutcome};

#[test]
fn setup_runs_every_step_in_order_when_all_succeed() {
    let mut step = first_setup_step();
    let mut seen = vec![step];
    while step != SetupStep::Exec {
        let outcome = match step {
            SetupStep::AwaitParent => StepOutcome::Read(1),
            _ => StepOutcome::Done,
        };
        step = next_setup_step(step, outcome, 4).unwrap();
        seen.push(step);
    }
    assert_eq!(
        seen,
        vec![
            SetupStep::CloseDescriptors,
            SetupStep::AwaitParent,
            SetupStep::Mount(0),
            SetupStep::Mount(1),
            SetupStep::Mount(2),
            SetupStep::Mount(3),
            SetupStep::PivotRoot,
            SetupStep::DetachOldRoot,
            SetupStep::Exec,
        ]
    );
}

#[test]
fn setup_stops_on_failures() {
    assert_eq!(
        next_setup_step(SetupStep::CloseDescriptors, StepOutcome::Failed, 4),
        Err(SetupFailure::CloseDescriptors)
    );
    assert_eq!(
        next_setup_step(SetupStep::AwaitParent, StepOutcome::Read(0), 4),
        Err(SetupFailure::ParentFailed)
    );
    assert_eq!(
        next_setup_step(SetupStep::AwaitParent, StepOutcome::Failed, 4),
        Err(SetupFailure::ReadWake)
    );
    assert_eq!(
        next_setup_step(SetupStep::Mount(2), StepOutcome::Failed, 4),
        Err(SetupFailure::Mount(2))
    );
    assert_eq!(
        next_setup_step(SetupStep::DetachOldRoot, StepOutcome::Failed, 4),
        Err(SetupFailure::DetachOldRoot)
    );
    // The outcome of the pivot is not checked.
    assert_eq!(
        next_setup_step(SetupStep::PivotRoot, StepOutcome::Failed, 4),
        Ok(SetupStep::DetachOldRoot)
    );
}

#[test]
fn setup_without_mounts_pivots_after_wake() {
    assert_eq!(
        next_setup_step(SetupStep::AwaitParent, StepOutcome::Read(1), 0),
        Ok(SetupStep::PivotRoot)
    );
    assert_eq!(
        next_setup_step(SetupStep::Mount(3), StepOutcome::Done, 4),
        Ok(SetupStep::PivotRoot)
    );
}
