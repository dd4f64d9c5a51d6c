//! The platform and machine lifecycle: a platform is a stateless descriptor
//! of one supported hardware target; its factory consumes the trailing
//! arguments and builds a configured, runnable machine all-or-nothing.

use crate::system::EngineReport;
use crate::SystemError;
use vstd::prelude::*;

verus! {

/// Machine-level error taxonomy.
#[derive(Clone, Copy, PartialEq, Eq, Structural, Debug)]
pub enum MachineError {
    /// An input the machine needs could not be loaded.
    Io,
    /// Wrong count of platform-specific trailing arguments; always detected
    /// before any system mutation completes.
    InvalidArgs,
    /// An error the system core raised during construction or execution.
    System(SystemError),
}

/// Lifecycle of a machine. A machine value exists only once configured;
/// it runs at most once and never leaves a terminal state.
#[derive(Clone, Copy, PartialEq, Eq, Structural, Debug)]
pub enum MachineState {
    /// All required regions and CPUs are registered; ready to run.
    Configured,
    /// Execution has begun; region and CPU structure is frozen.
    Running,
    /// The run returned success.
    TerminatedOk,
    /// The run returned an error.
    TerminatedErr,
}

/// A runnable machine instance produced by a platform's factory.
pub trait Machine: Sized {
    /// The machine's position in its lifecycle.
    spec fn lifecycle(&self) -> MachineState;

    /// Structural well-formedness, established at construction and kept
    /// for the machine's whole life.
    spec fn wf(&self) -> bool;

    /// Drives the configured machine to a terminal state. The caller that
    /// hosts the external execution engine passes in what the engine
    /// reported. A machine runs at most once: a second call is a
    /// programming error, ruled out by the precondition.
    fn run(&mut self, report: EngineReport) -> (r: Result<(), MachineError>)
        requires
            old(self).wf(),
            old(self).lifecycle() == MachineState::Configured,
        ensures
            final(self).wf(),
            r is Ok <==> final(self).lifecycle() == MachineState::TerminatedOk,
            r is Err <==> final(self).lifecycle() == MachineState::TerminatedErr,
    ;
}

/// A stateless, compile-time-known descriptor of one supported hardware
/// target: identity strings, a usage template, and a factory that builds a
/// machine from raw trailing arguments.
pub trait Platform: Sized {
    /// The machine type this platform's factory produces.
    type M: Machine;

    /// The documented count of trailing arguments the factory takes.
    spec fn spec_arity(&self) -> int;

    /// The unique lookup key of this platform.
    spec fn spec_short_name(&self) -> Seq<char>;

    /// The descriptive name shown in the platform catalog.
    spec fn spec_long_name(&self) -> Seq<char>;

    /// The usage template describing the expected trailing arguments.
    spec fn spec_usage(&self) -> Seq<char>;

    /// Stable identity string; the registry's lookup key.
    fn get_short_name(&self) -> (r: &'static str)
        ensures
            r@ == self.spec_short_name(),
    ;

    /// Descriptive name; shown beside the short name in the catalog.
    fn get_long_name(&self) -> (r: &'static str)
        ensures
            r@ == self.spec_long_name(),
    ;

    /// Usage template for the trailing arguments, echoed when they are
    /// rejected.
    fn get_usage(&self) -> (r: &'static str)
        ensures
            r@ == self.spec_usage(),
    ;

    /// Builds a configured machine from the platform-specific trailing
    /// arguments, registering regions and CPUs on a fresh system scoped to
    /// the caller-chosen instance identifier. A caller that builds several
    /// machines gives each a distinct identifier: cookies are unforgeable
    /// across systems only between systems whose identifiers differ.
    /// Validation is strict: any argument-count mismatch fails with
    /// `InvalidArgs`, and only such a mismatch does. Construction is
    /// all-or-nothing: on failure no partially built machine is handed
    /// back.
    fn initialize_machine(&self, args: &Vec<String>, instance_id: u64) -> (r: Result<
        Self::M,
        MachineError,
    >)
        ensures
            args@.len() != self.spec_arity() <==> r == Err::<Self::M, MachineError>(
                MachineError::InvalidArgs,
            ),
            r matches Ok(m) ==> m.wf() && m.lifecycle() == MachineState::Configured,
    ;
}

} // verus!
