//! The system: owner of one address space and one CPU registry, and the
//! single execution-dispatch entry point.
//!
//! Instruction fetch, decode and execution are the business of an external
//! execution engine; this core only validates the CPU handle, hands the
//! engine its inputs, and maps what the engine reports back to the caller.
//! The caller that drives the engine supplies its report as a plain value,
//! so the mapping is defined for every possible report.

use crate::cpu::{CpuCookie, CpuDescriptor, CpuRegistry, Endianness, Architecture};
use crate::mem::{AddressSpace, MemoryRegion, ProtectionFlags, find_region};
use crate::SystemError;
use vstd::prelude::*;

verus! {

/// What the external execution engine reports when a run of instruction
/// execution against a system's address space comes to rest.
#[derive(Clone, Copy, PartialEq, Eq, Structural, Debug)]
pub enum EngineReport {
    /// The CPU reached a normal halt or exit.
    CleanHalt,
    /// An access violated a region's protection or addressed outside all
    /// registered regions; the payload is the faulting address.
    MemoryFault(u64),
}

/// The terminal result of a successful execution dispatch.
#[derive(Clone, Copy, PartialEq, Eq, Structural, Debug)]
pub enum ExecResult {
    /// The identified CPU halted normally.
    Halt,
}

/// What `System::execute` returns for a validated cookie, for each
/// possible engine report.
pub open spec fn exec_outcome(report: EngineReport) -> Result<ExecResult, SystemError> {
    match report {
        EngineReport::CleanHalt => Ok(ExecResult::Halt),
        EngineReport::MemoryFault(addr) => Err(SystemError::MemoryFault(addr)),
    }
}

/// One machine's state: an address space of protected memory regions and a
/// registry of virtual CPUs, each CPU referenced by an opaque cookie scoped
/// to this instance. Created empty; mutated only during machine
/// construction; read-only in structure once execution begins.
pub struct System {
    address_space: AddressSpace,
    cpus: CpuRegistry,
}

impl System {
    /// The instance identifier that scopes this system's CPU cookies.
    pub closed spec fn spec_instance_id(self) -> u64 {
        self.cpus.spec_system_id()
    }

    /// The registered memory regions, in base-address order.
    pub closed spec fn spec_regions(self) -> Seq<MemoryRegion> {
        self.address_space@
    }

    /// The registered CPU descriptors, in registration order.
    pub closed spec fn spec_cpus(self) -> Seq<CpuDescriptor> {
        self.cpus@
    }

    /// Whether this system minted `cookie`: the cookie carries this
    /// system's instance identifier and refers to a registered slot.
    pub open spec fn owns_cookie(self, cookie: CpuCookie) -> bool {
        &&& cookie.spec_system_id() == self.spec_instance_id()
        &&& 0 <= cookie.spec_index() < self.spec_cpus().len()
    }

    /// Well-formedness: the address space is base-sorted and disjoint.
    pub open spec fn wf(self) -> bool {
        crate::mem::regions_wf(self.spec_regions())
    }

    /// An empty system scoped to the caller-chosen instance identifier.
    /// Cookies minted by this system embed that identifier, so callers
    /// that build several systems give each a distinct one.
    pub fn new(instance_id: u64) -> (r: System)
        ensures
            r.wf(),
            r.spec_instance_id() == instance_id,
            r.spec_regions() == Seq::<MemoryRegion>::empty(),
            r.spec_cpus() == Seq::<CpuDescriptor>::empty(),
    {
        System { address_space: AddressSpace::new(), cpus: CpuRegistry::new(instance_id) }
    }

    /// Registers the protected range `[base, base + size)` in this
    /// system's address space; see `AddressSpace::add_mappable_range`.
    /// Failures leave the system unchanged.
    pub fn add_mappable_range(
        &mut self,
        protection: ProtectionFlags,
        base: u64,
        size: u64,
    ) -> (r: Result<(), SystemError>)
        requires
            old(self).wf(),
        ensures
            final(self).wf(),
            final(self).spec_instance_id() == old(self).spec_instance_id(),
            final(self).spec_cpus() == old(self).spec_cpus(),
            !crate::mem::valid_extent(base, size) ==> r == Err::<(), SystemError>(
                SystemError::InvalidRange,
            ) && final(self).spec_regions() == old(self).spec_regions(),
            crate::mem::valid_extent(base, size) && !(forall|i: int|
                0 <= i < old(self).spec_regions().len()
                    ==> (#[trigger] old(self).spec_regions()[i]).disjoint(
                    (MemoryRegion { base, size, protection }),
                )) ==> r == Err::<(), SystemError>(SystemError::OverlappingRange)
                && final(self).spec_regions() == old(self).spec_regions(),
            crate::mem::valid_extent(base, size) && (forall|i: int|
                0 <= i < old(self).spec_regions().len()
                    ==> (#[trigger] old(self).spec_regions()[i]).disjoint(
                    (MemoryRegion { base, size, protection }),
                )) ==> r == Ok::<(), SystemError>(()) && final(self).spec_regions() == old(
                self,
            ).spec_regions().insert(
                crate::mem::insert_pos(old(self).spec_regions(), base),
                (MemoryRegion { base, size, protection }),
            ),
    {
        self.address_space.add_mappable_range(protection, base, size)
    }

    /// Returns the registered region containing `addr`, or none.
    pub fn lookup(&self, addr: u64) -> (r: Option<MemoryRegion>)
        ensures
            r == find_region(self.spec_regions(), addr),
    {
        self.address_space.lookup(addr)
    }

    /// The number of registered memory regions.
    pub fn region_count(&self) -> (r: usize)
        ensures
            r == self.spec_regions().len(),
    {
        self.address_space.region_count()
    }

    /// The region at position `i` in base-address order.
    pub fn region_at(&self, i: usize) -> (r: MemoryRegion)
        requires
            i < self.spec_regions().len(),
        ensures
            r == self.spec_regions()[i as int],
    {
        self.address_space.region_at(i)
    }

    /// Allocates a fresh slot for the descriptor and returns a cookie
    /// scoped to this system. Registration itself cannot fail; the result
    /// is a `Result` because callers treat resource exhaustion, which
    /// aborts the process before this returns, as a fatal error.
    pub fn register_cpu(
        &mut self,
        endianness: Endianness,
        architecture: Architecture,
    ) -> (r: Result<CpuCookie, SystemError>)
        ensures
            final(self).wf() == old(self).wf(),
            final(self).spec_instance_id() == old(self).spec_instance_id(),
            final(self).spec_regions() == old(self).spec_regions(),
            final(self).spec_cpus() == old(self).spec_cpus().push(
                (CpuDescriptor { architecture, endianness }),
            ),
            r matches Ok(c) && final(self).owns_cookie(c) && !old(self).owns_cookie(c)
                && c.spec_system_id() == old(self).spec_instance_id() && c.spec_index() == old(
                self,
            ).spec_cpus().len(),
    {
        let descriptor = CpuDescriptor { architecture, endianness };
        let cookie = self.cpus.register(descriptor);
        Ok(cookie)
    }

    /// The number of registered CPUs.
    pub fn cpu_count(&self) -> (r: usize)
        ensures
            r == self.spec_cpus().len(),
    {
        self.cpus.cpu_count()
    }

    /// Looks up the descriptor a cookie refers to. Fails with
    /// `InvalidCookie`, and only then, when this system did not mint the
    /// cookie: a handle never silently resolves against the wrong system.
    pub fn lookup_cpu(&self, cookie: &CpuCookie) -> (r: Result<CpuDescriptor, SystemError>)
        ensures
            self.owns_cookie(*cookie) ==> r == Ok::<CpuDescriptor, SystemError>(
                self.spec_cpus()[cookie.spec_index()],
            ),
            !self.owns_cookie(*cookie) ==> r == Err::<CpuDescriptor, SystemError>(
                SystemError::InvalidCookie,
            ),
    {
        match self.cpus.descriptor_of(cookie) {
            Some(descriptor) => Ok(descriptor),
            None => Err(SystemError::InvalidCookie),
        }
    }

    /// Execution dispatch: verifies that the cookie belongs to this system
    /// (else `InvalidCookie`), then stands for the hand-off to the external
    /// execution engine, whose report the caller passes in. A clean halt
    /// becomes the terminal `ExecResult`; a memory fault the engine raised
    /// propagates as an error. System-level bookkeeping never changes.
    pub fn execute(&self, cookie: &CpuCookie, report: EngineReport) -> (r: Result<
        ExecResult,
        SystemError,
    >)
        ensures
            !self.owns_cookie(*cookie) ==> r == Err::<ExecResult, SystemError>(
                SystemError::InvalidCookie,
            ),
            self.owns_cookie(*cookie) ==> r == exec_outcome(report),
    {
        match self.lookup_cpu(cookie) {
            Err(e) => Err(e),
            Ok(_descriptor) => match report {
                EngineReport::CleanHalt => Ok(ExecResult::Halt),
                EngineReport::MemoryFault(addr) => Err(SystemError::MemoryFault(addr)),
            },
        }
    }
}

/// Repeated registration mints distinct cookies: each cookie a system
/// already owns differs from the cookie its next registration returns,
/// because the fresh cookie is not owned before that registration.
pub proof fn lemma_fresh_cookie_distinct(s: System, owned: CpuCookie, fresh: CpuCookie)
    requires
        s.owns_cookie(owned),
        !s.owns_cookie(fresh),
    ensures
        owned != fresh,
{
}

/// Cookies never cross systems: a cookie one system owns is rejected as
/// `InvalidCookie` by the execute dispatch of every system whose instance
/// identifier differs.
pub proof fn lemma_execute_rejects_foreign_cookie(a: System, b: System, cookie: CpuCookie)
    requires
        a.owns_cookie(cookie),
        a.spec_instance_id() != b.spec_instance_id(),
    ensures
        !b.owns_cookie(cookie),
{
}

} // verus!
