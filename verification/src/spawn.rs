//! The decisions that a container's process makes between `clone3(2)` and
//! `execve(2)`: which step comes next, and which outcomes of a step stop
//! the setup. The caller performs each step and reports its outcome.
use vstd::prelude::*;

verus! {

/// A step of the setup of a container's process, in the order in which
/// they run.
#[derive(Debug, Clone, Copy, PartialEq, Eq, Structural)]
pub enum SetupStep {
    /// Mark every descriptor from `3` up close-on-exec.
    CloseDescriptors,
    /// Wait for the parent's wake-up byte.
    AwaitParent,
    /// Make the mount of this index among the container's mounts.
    Mount(usize),
    /// Create the old root directory and pivot into the root file system;
    /// the outcome of these calls is not checked.
    PivotRoot,
    /// Detach the old root.
    DetachOldRoot,
    /// Run the container's program.
    Exec,
}

/// How a step went.
#[derive(Debug, Clone, Copy, PartialEq, Eq, Structural)]
pub enum StepOutcome {
    /// The step succeeded.
    Done,
    /// The step failed.
    Failed,
    /// The wait for the parent read this many bytes.
    Read(usize),
}

/// Why the setup of a container's process stops.
#[derive(Debug, Clone, Copy, PartialEq, Eq, Structural)]
pub enum SetupFailure {
    /// The descriptors could not be marked close-on-exec.
    CloseDescriptors,
    /// The parent closed its end without waking the child: it failed to
    /// initialize the container.
    ParentFailed,
    /// Reading from the parent failed.
    ReadWake,
    /// The mount of this index failed.
    Mount(usize),
    /// The old root could not be detached.
    DetachOldRoot,
}

/// The step after the wait for the parent: the first mount, or the pivot
/// when there is no mount to make.
pub open spec fn after_wake(mounts: nat) -> SetupStep {
    if mounts > 0 {
        SetupStep::Mount(0)
    } else {
        SetupStep::PivotRoot
    }
}

/// The transitions of the setup, with `mounts` mounts to make: what
/// follows `step` when it ended with `outcome`.
pub open spec fn spec_next_step(step: SetupStep, outcome: StepOutcome, mounts: nat) -> Result<
    SetupStep,
    SetupFailure,
> {
    match step {
        SetupStep::CloseDescriptors => match outcome {
            StepOutcome::Failed => Err(SetupFailure::CloseDescriptors),
            _ => Ok(SetupStep::AwaitParent),
        },
        SetupStep::AwaitParent => match outcome {
            StepOutcome::Failed => Err(SetupFailure::ReadWake),
            StepOutcome::Read(0) => Err(SetupFailure::ParentFailed),
            _ => Ok(after_wake(mounts)),
        },
        SetupStep::Mount(i) => match outcome {
            StepOutcome::Failed => Err(SetupFailure::Mount(i)),
            _ => Ok(
                if i + 1 < mounts {
                    SetupStep::Mount((i + 1) as usize)
                } else {
                    SetupStep::PivotRoot
                },
            ),
        },
        SetupStep::PivotRoot => Ok(SetupStep::DetachOldRoot),
        SetupStep::DetachOldRoot => match outcome {
            StepOutcome::Failed => Err(SetupFailure::DetachOldRoot),
            _ => Ok(SetupStep::Exec),
        },
        SetupStep::Exec => Ok(SetupStep::Exec),
    }
}

/// The first step of the setup.
pub fn first_setup_step() -> (s: SetupStep)
    ensures
        s == SetupStep::CloseDescriptors,
{
    SetupStep::CloseDescriptors
}

/// What follows `step`, which ended with `outcome`, when the container has
/// `mounts` mounts to make: the next step, or why the setup stops.
pub fn next_setup_step(step: SetupStep, outcome: StepOutcome, mounts: usize) -> (r: Result<
    SetupStep,
    SetupFailure,
>)
    requires
        step matches SetupStep::Mount(i) ==> i < mounts,
    ensures
        r == spec_next_step(step, outcome, mounts as nat),
        r matches Ok(SetupStep::Mount(j)) ==> j < mounts,
{
    match step {
        SetupStep::CloseDescriptors => match outcome {
            StepOutcome::Failed => Err(SetupFailure::CloseDescriptors),
            _ => Ok(SetupStep::AwaitParent),
        },
        SetupStep::AwaitParent => match outcome {
            StepOutcome::Failed => Err(SetupFailure::ReadWake),
            StepOutcome::Read(0) => Err(SetupFailure::ParentFailed),
            _ => Ok(
                if mounts > 0 {
                    SetupStep::Mount(0)
                } else {
                    SetupStep::PivotRoot
                },
            ),
        },
        SetupStep::Mount(i) => match outcome {
            StepOutcome::Failed => Err(SetupFailure::Mount(i)),
            _ => Ok(
                if i + 1 < mounts {
                    SetupStep::Mount(i + 1)
                } else {
                    SetupStep::PivotRoot
                },
            ),
        },
        SetupStep::PivotRoot => Ok(SetupStep::DetachOldRoot),
        SetupStep::DetachOldRoot => match outcome {
            StepOutcome::Failed => Err(SetupFailure::DetachOldRoot),
            _ => Ok(SetupStep::Exec),
        },
        SetupStep::Exec => Ok(SetupStep::Exec),
    }
}

/// The steps of a setup in which every step succeeds: close the
/// descriptors, wait for the parent, make each of the `mounts` mounts in
/// order, pivot, detach the old root, and run the program.
pub open spec fn successful_setup(mounts: nat) -> Seq<SetupStep> {
    seq![SetupStep::CloseDescriptors, SetupStep::AwaitParent] + Seq::new(
        mounts,
        |i: int| SetupStep::Mount(i as usize),
    ) + seq![SetupStep::PivotRoot, SetupStep::DetachOldRoot, SetupStep::Exec]
}

/// The outcome of a step that succeeded: the wait for the parent read its
/// one wake-up byte, every other step is done.
pub open spec fn success(step: SetupStep) -> StepOutcome {
    match step {
        SetupStep::AwaitParent => StepOutcome::Read(1),
        _ => StepOutcome::Done,
    }
}

/// When every step succeeds, the setup goes through exactly the steps of
/// `successful_setup`, from the first step to running the program.
pub proof fn law_setup_when_all_succeed(mounts: usize)
    ensures
        successful_setup(mounts as nat)[0] == SetupStep::CloseDescriptors,
        successful_setup(mounts as nat).last() == SetupStep::Exec,
        forall|k: int|
            0 <= k < successful_setup(mounts as nat).len() - 1 ==> spec_next_step(
                #[trigger] successful_setup(mounts as nat)[k],
                success(successful_setup(mounts as nat)[k]),
                mounts as nat,
            ) == Ok::<SetupStep, SetupFailure>(successful_setup(mounts as nat)[k + 1]),
{
    let s = successful_setup(mounts as nat);
    let m = mounts as int;
    assert(s.len() == m + 5);
    assert forall|k: int| 0 <= k < s.len() - 1 implies spec_next_step(
        #[trigger] s[k],
        success(s[k]),
        mounts as nat,
    ) == Ok::<SetupStep, SetupFailure>(s[k + 1]) by {
        if k == 0 {
        } else if k == 1 {
            if m == 0 {
                assert(s[2] == SetupStep::PivotRoot);
            } else {
                assert(s[2] == SetupStep::Mount(0));
            }
        } else if k < m + 2 {
            assert(s[k] == SetupStep::Mount((k - 2) as usize));
            if k + 1 < m + 2 {
                assert(s[k + 1] == SetupStep::Mount((k - 1) as usize));
            } else {
                assert(s[k + 1] == SetupStep::PivotRoot);
            }
        } else if k == m + 2 {
            assert(s[k] == SetupStep::PivotRoot);
            assert(s[k + 1] == SetupStep::DetachOldRoot);
        } else {
            assert(s[k] == SetupStep::DetachOldRoot);
            assert(s[k + 1] == SetupStep::Exec);
        }
    }
}

/// No failure is ignored, but that of the pivot: every step other than
/// the pivot and the final program run stops the setup when it fails, and
/// the wait for the parent stops it when nothing was read.
pub proof fn law_setup_failures_stop(step: SetupStep, mounts: nat)
    ensures
        step != SetupStep::PivotRoot && step != SetupStep::Exec ==> spec_next_step(
            step,
            StepOutcome::Failed,
            mounts,
        ) is Err,
        spec_next_step(SetupStep::AwaitParent, StepOutcome::Read(0), mounts) is Err,
{
}

} // verus!
