//! The errors of container operations.
use vstd::prelude::*;

verus! {

#[derive(Debug, Clone, Copy, PartialEq, Eq, Structural)]
pub enum CuriumError {
    InvalidConfig,
    ContainerNotFound,
    ContainerIdAlreadyInUse,
    ContainerIsNotCreated,
    ContainerIsNotStopped,
}

/// The result of a container operation.
pub type Result<T> = core::result::Result<T, CuriumError>;

} // verus!
