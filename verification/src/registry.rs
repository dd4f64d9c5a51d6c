//! The fixed, closed registry of supported platforms: name lookup for
//! machine construction and enumeration for the catalog listing.

use crate::mips::{MaltaMachine, MaltaPlatform, Sys161Machine, Sys161Platform};
use crate::platform::{Machine, MachineError, MachineState, Platform};
use crate::strutil::str_eq;
use crate::system::EngineReport;
use vstd::prelude::*;

verus! {

/// One entry of the closed platform set. The set of supported platforms is
/// fixed at build time, so a tagged union stands for the registry's
/// dynamic dispatch.
#[derive(Clone, Copy, PartialEq, Eq, Structural, Debug)]
pub enum PlatformKind {
    Malta,
    Sys161,
}

/// A runnable machine built by one of the registered platforms.
pub enum MachineInstance {
    Malta(MaltaMachine),
    Sys161(Sys161Machine),
}

impl MachineInstance {
    /// The machine's position in its lifecycle.
    pub open spec fn lifecycle(&self) -> MachineState {
        match self {
            MachineInstance::Malta(m) => m.lifecycle(),
            MachineInstance::Sys161(m) => m.lifecycle(),
        }
    }

    /// Structural well-formedness of the wrapped machine.
    pub open spec fn wf(&self) -> bool {
        match self {
            MachineInstance::Malta(m) => m.wf(),
            MachineInstance::Sys161(m) => m.wf(),
        }
    }

    /// Drives the wrapped machine to a terminal state; see `Machine::run`.
    pub fn run(&mut self, report: EngineReport) -> (r: Result<(), MachineError>)
        requires
            old(self).wf(),
            old(self).lifecycle() == MachineState::Configured,
        ensures
            final(self).wf(),
            r is Ok <==> final(self).lifecycle() == MachineState::TerminatedOk,
            r is Err <==> final(self).lifecycle() == MachineState::TerminatedErr,
            report == EngineReport::CleanHalt ==> r is Ok,
    {
        match self {
            MachineInstance::Malta(m) => m.run(report),
            MachineInstance::Sys161(m) => m.run(report),
        }
    }
}

impl PlatformKind {
    /// The unique lookup key of this platform.
    pub open spec fn spec_short_name(self) -> Seq<char> {
        match self {
            PlatformKind::Malta => MaltaPlatform.spec_short_name(),
            PlatformKind::Sys161 => Sys161Platform.spec_short_name(),
        }
    }

    /// The descriptive name shown in the platform catalog.
    pub open spec fn spec_long_name(self) -> Seq<char> {
        match self {
            PlatformKind::Malta => MaltaPlatform.spec_long_name(),
            PlatformKind::Sys161 => Sys161Platform.spec_long_name(),
        }
    }

    /// The usage template describing the expected trailing arguments.
    pub open spec fn spec_usage(self) -> Seq<char> {
        match self {
            PlatformKind::Malta => MaltaPlatform.spec_usage(),
            PlatformKind::Sys161 => Sys161Platform.spec_usage(),
        }
    }

    /// The documented count of trailing arguments the factory takes.
    pub open spec fn spec_arity(self) -> int {
        match self {
            PlatformKind::Malta => MaltaPlatform.spec_arity(),
            PlatformKind::Sys161 => Sys161Platform.spec_arity(),
        }
    }

    /// Stable identity string; the registry's lookup key.
    pub fn get_short_name(self) -> (r: &'static str)
        ensures
            r@ == self.spec_short_name(),
    {
        match self {
            PlatformKind::Malta => MaltaPlatform.get_short_name(),
            PlatformKind::Sys161 => Sys161Platform.get_short_name(),
        }
    }

    /// Descriptive name; shown beside the short name in the catalog.
    pub fn get_long_name(self) -> (r: &'static str)
        ensures
            r@ == self.spec_long_name(),
    {
        match self {
            PlatformKind::Malta => MaltaPlatform.get_long_name(),
            PlatformKind::Sys161 => Sys161Platform.get_long_name(),
        }
    }

    /// Usage template for the trailing arguments, echoed when they are
    /// rejected.
    pub fn get_usage(self) -> (r: &'static str)
        ensures
            r@ == self.spec_usage(),
    {
        match self {
            PlatformKind::Malta => MaltaPlatform.get_usage(),
            PlatformKind::Sys161 => Sys161Platform.get_usage(),
        }
    }

    /// Builds a configured machine from the trailing arguments; see
    /// `Platform::initialize_machine`. An argument count different from
    /// this platform's arity fails with `InvalidArgs`, and nothing else
    /// does: at the documented arity the machine is owed. No partially
    /// built machine is ever handed back. Callers that build several
    /// machines give each a distinct `instance_id`: it scopes the new
    /// system's CPU cookies.
    pub fn initialize_machine(self, args: &Vec<String>, instance_id: u64) -> (r: Result<
        MachineInstance,
        MachineError,
    >)
        ensures
            args@.len() != self.spec_arity() <==> r == Err::<MachineInstance, MachineError>(
                MachineError::InvalidArgs,
            ),
            args@.len() == self.spec_arity() ==> r is Ok,
            r matches Ok(m) ==> m.wf() && m.lifecycle() == MachineState::Configured,
    {
        match self {
            PlatformKind::Malta => match MaltaPlatform.initialize_machine(args, instance_id) {
                Ok(m) => Ok(MachineInstance::Malta(m)),
                Err(e) => Err(e),
            },
            PlatformKind::Sys161 => match Sys161Platform.initialize_machine(args, instance_id) {
                Ok(m) => Ok(MachineInstance::Sys161(m)),
                Err(e) => Err(e),
            },
        }
    }
}

/// All registered platforms, in catalog order.
pub fn all_platforms() -> (r: Vec<PlatformKind>)
    ensures
        r@ == seq![PlatformKind::Malta, PlatformKind::Sys161],
{
    let mut v: Vec<PlatformKind> = Vec::new();
    v.push(PlatformKind::Malta);
    v.push(PlatformKind::Sys161);
    proof {
        assert(v@ =~= seq![PlatformKind::Malta, PlatformKind::Sys161]);
    }
    v
}

/// Every registered platform's short name differs from every other's:
/// the short name is the registry's unique identity key.
pub proof fn lemma_short_names_unique(a: PlatformKind, b: PlatformKind)
    requires
        a != b,
    ensures
        a.spec_short_name() != b.spec_short_name(),
{
    reveal_strlit("malta");
    reveal_strlit("sys161");
    assert("malta"@.len() != "sys161"@.len());
}

/// Resolves a platform name to the registered platform of that short
/// name, or none when no registered platform carries it.
pub fn find_platform_by_name(name: &str) -> (r: Option<PlatformKind>)
    ensures
        r matches Some(p) ==> name@ == p.spec_short_name(),
        r is None ==> forall|p: PlatformKind| name@ != #[trigger] p.spec_short_name(),
{
    let platforms = all_platforms();
    let mut i: usize = 0;
    while i < platforms.len()
        invariant
            platforms@ == seq![PlatformKind::Malta, PlatformKind::Sys161],
            i <= platforms@.len(),
            forall|j: int| 0 <= j < i ==> name@ != (#[trigger] platforms@[j]).spec_short_name(),
        decreases platforms@.len() - i,
    {
        let p = platforms[i];
        if str_eq(name, p.get_short_name()) {
            return Some(p);
        }
        i += 1;
    }
    proof {
        assert forall|p: PlatformKind| name@ != #[trigger] p.spec_short_name() by {
            assert(platforms@[0] == PlatformKind::Malta);
            assert(platforms@[1] == PlatformKind::Sys161);
            match p {
                PlatformKind::Malta => assert(name@ != platforms@[0].spec_short_name()),
                PlatformKind::Sys161 => assert(name@ != platforms@[1].spec_short_name()),
            }
        }
    }
    None
}

} // verus!
