//! The failures of the launch sequence.

use vstd::prelude::*;

verus! {

/// Every way in which launching or running the guest can fail. Each failure
/// is fatal: nothing is retried.
#[derive(Clone, Copy, Debug, PartialEq, Eq, Structural)]
pub enum LaunchError {
    /// The host virtualization device could not be opened.
    FacilityUnavailable,
    /// The facility reported this API version, which is not the supported one.
    IncompatibleVersion(i32),
    /// The virtual machine or a virtual processor could not be created.
    CreationFailed,
    /// Host memory for the guest address space could not be reserved.
    AllocationFailed,
    /// A span starting at this guest address is not inside one reserved range.
    OutOfRange(u64),
    /// Fewer bytes than asked for were written: only this many.
    ShortWrite(usize),
    /// This guest address lies outside all reserved ranges.
    NotMapped(u64),
    /// The registration for this slot was refused.
    InvalidRegion(u32),
    /// Resuming the virtual processor failed.
    ResumeFailed,
    /// The processor left the guest for a reason, given by its code, that the
    /// launcher does not handle.
    UnexpectedExit(u32),
}

} // verus!
