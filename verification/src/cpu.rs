//! Virtual CPU descriptors and the per-system registry that owns them.
//!
//! A registered CPU is referenced from outside only through an opaque
//! [`CpuCookie`], a handle scoped to exactly one system instance: it pairs
//! the owning system's instance identifier with the CPU's slot index, and
//! every use of a cookie checks that identifier before indexing.

use vstd::prelude::*;

verus! {

/// Byte order of a registered CPU.
#[derive(Clone, Copy, PartialEq, Eq, Structural, Debug)]
pub enum Endianness {
    Big,
    Little,
}

/// MIPS family model identifiers.
#[derive(Clone, Copy, PartialEq, Eq, Structural, Debug)]
pub enum MipsArch {
    R2000,
}

/// Instruction-set family and model of a registered CPU. A tagged union
/// kept open to admit additional families without touching the system core.
#[derive(Clone, Copy, PartialEq, Eq, Structural, Debug)]
#[non_exhaustive]
pub enum Architecture {
    Mips(MipsArch),
}

/// Architecture and byte order of one registered virtual CPU.
/// Never mutated after registration.
#[derive(Clone, Copy, PartialEq, Eq, Structural, Debug)]
pub struct CpuDescriptor {
    pub architecture: Architecture,
    pub endianness: Endianness,
}

/// An opaque handle identifying one registered CPU within exactly one
/// system instance. Minted only by CPU registration; valid for the lifetime
/// of its owning system; a cookie minted by one system never validates
/// against a system with a different instance identifier.
#[derive(Clone, Copy, PartialEq, Eq, Structural, Debug)]
pub struct CpuCookie {
    system_id: u64,
    index: usize,
}

impl CpuCookie {
    /// The instance identifier of the system that minted this cookie.
    pub closed spec fn spec_system_id(self) -> u64 {
        self.system_id
    }

    /// The registry slot this cookie refers to within its owning system.
    pub closed spec fn spec_index(self) -> int {
        self.index as int
    }
}

/// The table of CPU descriptors registered on one system, with the
/// instance identifier that scopes the cookies it mints.
pub struct CpuRegistry {
    system_id: u64,
    cpus: Vec<CpuDescriptor>,
}

impl View for CpuRegistry {
    type V = Seq<CpuDescriptor>;

    closed spec fn view(&self) -> Seq<CpuDescriptor> {
        self.cpus@
    }
}

impl CpuRegistry {
    /// The instance identifier of the owning system.
    pub closed spec fn spec_system_id(self) -> u64 {
        self.system_id
    }

    /// Whether this registry minted `cookie`: the cookie carries this
    /// registry's instance identifier and refers to a registered slot.
    pub open spec fn owns(self, cookie: CpuCookie) -> bool {
        &&& cookie.spec_system_id() == self.spec_system_id()
        &&& 0 <= cookie.spec_index() < self@.len()
    }

    /// An empty registry scoped to the given system instance identifier.
    pub fn new(system_id: u64) -> (r: CpuRegistry)
        ensures
            r.spec_system_id() == system_id,
            r@ == Seq::<CpuDescriptor>::empty(),
    {
        CpuRegistry { system_id, cpus: Vec::new() }
    }

    /// The number of registered CPUs.
    pub fn cpu_count(&self) -> (r: usize)
        ensures
            r == self@.len(),
    {
        self.cpus.len()
    }

    /// Stores a descriptor in a fresh slot and mints the cookie for it.
    /// The cookie is fresh: the registry did not own it before the call.
    pub fn register(&mut self, descriptor: CpuDescriptor) -> (r: CpuCookie)
        ensures
            final(self).spec_system_id() == old(self).spec_system_id(),
            final(self)@ == old(self)@.push(descriptor),
            final(self).owns(r),
            !old(self).owns(r),
            r.spec_system_id() == old(self).spec_system_id(),
            r.spec_index() == old(self)@.len(),
    {
        let index = self.cpus.len();
        self.cpus.push(descriptor);
        CpuCookie { system_id: self.system_id, index }
    }

    /// The descriptor a cookie refers to, provided this registry owns it.
    pub fn descriptor_of(&self, cookie: &CpuCookie) -> (r: Option<CpuDescriptor>)
        ensures
            self.owns(*cookie) ==> r == Some(self@[cookie.spec_index()]),
            !self.owns(*cookie) ==> r is None,
    {
        if cookie.system_id == self.system_id && cookie.index < self.cpus.len() {
            Some(self.cpus[cookie.index])
        } else {
            None
        }
    }
}

} // verus!
