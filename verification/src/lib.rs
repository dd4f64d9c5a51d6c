//! Platform and machine composition layer of a multi-architecture hardware
//! emulator: an address space of protected memory regions, a registry of
//! virtual CPUs referenced by opaque system-scoped cookies, and the
//! platform descriptors that assemble and run a machine.

pub mod cli;
pub mod cpu;
pub mod mem;
pub mod mips;
pub mod platform;
pub mod registry;
pub mod strutil;
pub mod system;

use vstd::prelude::*;

verus! {

/// Errors raised by the system core: address-space registration,
/// cookie validation, and execution dispatch.
#[derive(Clone, Copy, PartialEq, Eq, Structural, Debug)]
pub enum SystemError {
    /// The requested memory range is empty or does not fit the address width.
    InvalidRange,
    /// The requested memory range intersects a region already registered.
    OverlappingRange,
    /// The CPU cookie is not owned by the system it was used on.
    InvalidCookie,
    /// The execution engine reported a memory or protection fault at
    /// the given address.
    MemoryFault(u64),
}

} // verus!
