//! What the launcher asks of the host virtualization facility before it
//! creates anything.

use vstd::prelude::*;
use crate::error::LaunchError;

verus! {

/// The one API version of the facility that the launcher works with.
pub const SUPPORTED_API_VERSION: i32 = 12;

/// What an open facility reports of itself.
#[derive(Clone, Copy, Debug, PartialEq, Eq, Structural)]
pub struct Capability {
    /// The API version of the facility.
    pub api_version: i32,
    /// The largest number of virtual processors of one virtual machine.
    pub max_vcpus: usize,
    /// The size of the memory shared with each virtual processor.
    pub vcpu_mmap_size: usize,
}

/// Accepts the supported API version and refuses every other one with
/// `IncompatibleVersion`, which carries the version that was reported.
pub fn check_api_version(version: i32) -> (r: Result<(), LaunchError>)
    ensures
        version == SUPPORTED_API_VERSION ==> r == Ok::<(), LaunchError>(()),
        version != SUPPORTED_API_VERSION ==> r == Err::<(), LaunchError>(
            LaunchError::IncompatibleVersion(version),
        ),
{
    if version == SUPPORTED_API_VERSION {
        Ok(())
    } else {
        Err(LaunchError::IncompatibleVersion(version))
    }
}

/// Accepts the index of a virtual processor that the facility can create.
/// Indices count from zero, so the processor count itself and everything
/// above it is refused with `CreationFailed`.
pub fn check_vcpu_index(index: u64, capability: &Capability) -> (r: Result<(), LaunchError>)
    ensures
        index < capability.max_vcpus ==> r == Ok::<(), LaunchError>(()),
        index >= capability.max_vcpus ==> r == Err::<(), LaunchError>(LaunchError::CreationFailed),
{
    if capability.max_vcpus as u64 > index {
        Ok(())
    } else {
        Err(LaunchError::CreationFailed)
    }
}

} // verus!
