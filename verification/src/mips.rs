//! The MIPS hardware targets: the Malta Core LV board and the Harvard
//! System/161 teaching machine.

use crate::cpu::{Architecture, CpuCookie, CpuDescriptor, Endianness, MipsArch};
use crate::mem::{MemoryRegion, ProtectionFlags};
use crate::platform::{Machine, MachineError, MachineState, Platform};
use crate::system::{EngineReport, System};
use vstd::prelude::*;

verus! {

/// Base address of the Malta board's RAM region.
pub const MALTA_RAM_BASE: u64 = 0;

/// Default RAM size of the Malta board: 128 MiB.
pub const MALTA_DEFAULT_RAM_SIZE: u64 = 128 * 1024 * 1024;

/// A configured Malta machine: one system holding the board's RAM region
/// and one big-endian R2000 CPU, plus the cookie that drives it.
pub struct MaltaMachine {
    system: System,
    cpu: CpuCookie,
    state: MachineState,
}

impl MaltaMachine {
    /// The system this machine owns.
    pub closed spec fn spec_system(&self) -> System {
        self.system
    }

    /// The cookie of the machine's registered CPU.
    pub closed spec fn spec_cpu(&self) -> CpuCookie {
        self.cpu
    }

    /// The system this machine owns, for read-only inspection.
    pub fn system(&self) -> (r: &System)
        ensures
            *r == self.spec_system(),
    {
        &self.system
    }

    /// The cookie of the machine's registered CPU.
    pub fn cpu(&self) -> (r: CpuCookie)
        ensures
            r == self.spec_cpu(),
    {
        self.cpu
    }

    /// Wraps an already configured system and its CPU cookie into a
    /// machine ready to run.
    pub fn new(system: System, cpu: CpuCookie) -> (r: MaltaMachine)
        requires
            system.wf(),
            system.owns_cookie(cpu),
        ensures
            r.wf(),
            r.lifecycle() == MachineState::Configured,
            r.spec_system() == system,
            r.spec_cpu() == cpu,
    {
        MaltaMachine { system, cpu, state: MachineState::Configured }
    }
}

impl Machine for MaltaMachine {
    closed spec fn lifecycle(&self) -> MachineState {
        self.state
    }

    closed spec fn wf(&self) -> bool {
        &&& self.system.wf()
        &&& self.system.owns_cookie(self.cpu)
    }

    /// Invokes execution dispatch once on the machine's CPU and maps the
    /// outcome: a clean halt is success, a memory fault the engine raised
    /// is an error. The system's regions and CPUs do not change.
    fn run(&mut self, report: EngineReport) -> (r: Result<(), MachineError>)
        ensures
            final(self).spec_system() == old(self).spec_system(),
            final(self).spec_cpu() == old(self).spec_cpu(),
            report == EngineReport::CleanHalt ==> r == Ok::<(), MachineError>(()),
            report matches EngineReport::MemoryFault(addr) ==> r == Err::<(), MachineError>(
                MachineError::System(crate::SystemError::MemoryFault(addr)),
            ),
    {
        self.state = MachineState::Running;
        let outcome = self.system.execute(&self.cpu, report);
        match outcome {
            Ok(_halt) => {
                self.state = MachineState::TerminatedOk;
                Ok(())
            },
            Err(e) => {
                self.state = MachineState::TerminatedErr;
                Err(MachineError::System(e))
            },
        }
    }
}

/// The MIPS Malta Core LV board.
pub struct MaltaPlatform;

impl Platform for MaltaPlatform {
    type M = MaltaMachine;

    open spec fn spec_arity(&self) -> int {
        2
    }

    open spec fn spec_short_name(&self) -> Seq<char> {
        "malta"@
    }

    open spec fn spec_long_name(&self) -> Seq<char> {
        "MIPS Malta Core LV"@
    }

    open spec fn spec_usage(&self) -> Seq<char> {
        "KERNEL KERNEL_CMD_LINE"@
    }

    fn get_short_name(&self) -> (r: &'static str) {
        "malta"
    }

    fn get_long_name(&self) -> (r: &'static str) {
        "MIPS Malta Core LV"
    }

    fn get_usage(&self) -> (r: &'static str) {
        "KERNEL KERNEL_CMD_LINE"
    }

    /// Takes exactly two trailing arguments, a kernel image path and a
    /// kernel command-line string, and builds a machine whose system has
    /// the board's single RAM region (128 MiB at base 0, full protection)
    /// and one big-endian MIPS R2000 CPU.
    fn initialize_machine(&self, args: &Vec<String>, instance_id: u64) -> (r: Result<
        MaltaMachine,
        MachineError,
    >)
        ensures
            args@.len() == 2 ==> r is Ok,
            r matches Ok(m) ==> {
                &&& m.spec_system().spec_instance_id() == instance_id
                &&& m.spec_system().owns_cookie(m.spec_cpu())
                &&& m.spec_cpu().spec_system_id() == instance_id
                &&& m.spec_system().spec_regions() == seq![
                    (MemoryRegion {
                        base: MALTA_RAM_BASE,
                        size: MALTA_DEFAULT_RAM_SIZE,
                        protection: ProtectionFlags::spec_all(),
                    }),
                ]
                &&& m.spec_system().spec_cpus() == seq![
                    (CpuDescriptor {
                        architecture: Architecture::Mips(MipsArch::R2000),
                        endianness: Endianness::Big,
                    }),
                ]
            },
    {
        if args.len() != 2 {
            return Err(MachineError::InvalidArgs);
        }
        let mut system = System::new(instance_id);
        let added = system.add_mappable_range(
            ProtectionFlags::all(),
            MALTA_RAM_BASE,
            MALTA_DEFAULT_RAM_SIZE,
        );
        match added {
            Ok(()) => {},
            Err(e) => {
                return Err(MachineError::System(e));
            },
        }
        let cpu = match system.register_cpu(
            Endianness::Big,
            Architecture::Mips(MipsArch::R2000),
        ) {
            Ok(c) => c,
            Err(e) => {
                return Err(MachineError::System(e));
            },
        };
        proof {
            assert(system.spec_regions() =~= seq![
                (MemoryRegion {
                    base: MALTA_RAM_BASE,
                    size: MALTA_DEFAULT_RAM_SIZE,
                    protection: ProtectionFlags::spec_all(),
                }),
            ]);
            assert(system.spec_cpus() =~= seq![
                (CpuDescriptor {
                    architecture: Architecture::Mips(MipsArch::R2000),
                    endianness: Endianness::Big,
                }),
            ]);
        }
        Ok(MaltaMachine::new(system, cpu))
    }
}

/// A configured System/161 machine. The target is a stub in this revision:
/// its run performs no execution dispatch and reports success.
pub struct Sys161Machine {
    state: MachineState,
}

impl Default for Sys161Machine {
    /// A configured System/161 machine, ready to run.
    fn default() -> (r: Sys161Machine)
        ensures
            r.wf(),
            r.lifecycle() == MachineState::Configured,
    {
        Sys161Machine { state: MachineState::Configured }
    }
}

impl Machine for Sys161Machine {
    closed spec fn lifecycle(&self) -> MachineState {
        self.state
    }

    closed spec fn wf(&self) -> bool {
        true
    }

    /// Terminates immediately with success; the stub drives no engine, so
    /// the report is not consulted.
    fn run(&mut self, _report: EngineReport) -> (r: Result<(), MachineError>)
        ensures
            r == Ok::<(), MachineError>(()),
    {
        self.state = MachineState::TerminatedOk;
        Ok(())
    }
}

/// The Harvard MIPS System/161 teaching machine.
pub struct Sys161Platform;

impl Platform for Sys161Platform {
    type M = Sys161Machine;

    open spec fn spec_arity(&self) -> int {
        2
    }

    open spec fn spec_short_name(&self) -> Seq<char> {
        "sys161"@
    }

    open spec fn spec_long_name(&self) -> Seq<char> {
        "Harvard MIPS System/161"@
    }

    open spec fn spec_usage(&self) -> Seq<char> {
        "CONFIG_FILE KERNEL"@
    }

    fn get_short_name(&self) -> (r: &'static str) {
        "sys161"
    }

    fn get_long_name(&self) -> (r: &'static str) {
        "Harvard MIPS System/161"
    }

    fn get_usage(&self) -> (r: &'static str) {
        "CONFIG_FILE KERNEL"
    }

    /// Takes exactly two trailing arguments, a configuration file path and
    /// a kernel image path, and builds the stub machine.
    fn initialize_machine(&self, args: &Vec<String>, _instance_id: u64) -> (r: Result<
        Sys161Machine,
        MachineError,
    >)
        ensures
            args@.len() == 2 ==> r is Ok,
    {
        if args.len() != 2 {
            return Err(MachineError::InvalidArgs);
        }
        Ok(Sys161Machine::default())
    }
}

} // verus!
