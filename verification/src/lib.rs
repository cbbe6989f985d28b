//! A minimal launcher for a single hardware-virtualized guest.
//!
//! The library holds everything the launcher decides: which API version it
//! accepts, how the guest address space is laid out and written, which memory
//! regions are registered with the virtual machine, how the virtual processor
//! is configured, and how each exit of the processor is answered.

pub mod capability;
pub mod dispatch;
pub mod error;
pub mod launch;
pub mod machine;
pub mod memory;
pub mod processor;
