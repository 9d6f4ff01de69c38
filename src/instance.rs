use vstd::prelude::*;
use crate::trapcode::{classify_pc, TrapCode, TrapCodeType, TrapManifest};

verus! {

/// Index of the instruction pointer in the general-register array of the saved
/// machine context (x86-64).
pub const PC_REGISTER: usize = 16;

/// Number of general registers in the saved machine context (x86-64).
pub const NUM_GREGS: usize = 23;

/// The part of a delivered `siginfo` that the runtime keeps.
#[derive(Clone, Copy, Debug, PartialEq, Eq, Structural)]
pub struct SigInfo {
    pub signo: i32,
    pub errno: i32,
    pub code: i32,
    pub addr: usize,
}

/// The general registers of the machine context saved at the fault.
#[derive(Clone, Copy, Debug)]
pub struct MachineContext {
    pub gregs: [i64; 23],
}

impl MachineContext {
    pub open spec fn pc_spec(&self) -> u64 {
        self.gregs@[PC_REGISTER as int] as u64
    }

    /// The faulting instruction pointer.
    pub fn pc(&self) -> (r: u64)
        ensures
            r == self.pc_spec(),
    {
        self.gregs[PC_REGISTER] as u64
    }
}

/// Where a faulting address lies, when that could be determined.
#[derive(Clone, Debug)]
pub struct AddrDetails {
    pub in_module_code: bool,
    pub file_name: Option<String>,
    pub sym_name: Option<String>,
}

/// The report of a guest fault.
#[derive(Clone, Debug)]
pub struct FaultDetails {
    /// Whether the fault cannot be recovered from; decided after the handler returns.
    pub fatal: bool,
    pub trapcode: TrapCode,
    pub rip_addr: u64,
    pub rip_addr_details: Option<AddrDetails>,
}

/// Why a guest stopped for good.
#[derive(Clone, Copy, Debug, PartialEq, Eq, Structural)]
pub enum TerminationDetails {
    /// The host asked for it.
    Remote,
    /// A signal policy asked for it.
    Signal,
    /// The guest handed back a value of its own.
    Provided(u64),
}

/// The execution state of an instance.
#[derive(Clone, Debug)]
#[allow(inconsistent_fields)]
pub enum State {
    Ready,
    Running,
    Fault { details: FaultDetails, siginfo: SigInfo, context: MachineContext },
    Terminated { details: TerminationDetails },
    Yielded,
}

/// The state the fault handler records for a fault it reports to the host.
pub open spec fn fault_state(trapcode: TrapCode, pc: u64, siginfo: SigInfo, context: MachineContext) -> State {
    State::Fault {
        details: FaultDetails { fatal: false, trapcode, rip_addr: pc, rip_addr_details: None },
        siginfo,
        context,
    }
}

/// The state the fault handler records when a policy terminates the guest.
pub open spec fn signal_terminated_state() -> State {
    State::Terminated { details: TerminationDetails::Signal }
}

/// The state after the host's check of a reported fault: an unknown trap is fatal,
/// any other is not. Other states are left as they are.
pub open spec fn trap_safety_checked(s: State) -> State {
    match s {
        State::Fault { details, siginfo, context } => State::Fault {
            details: FaultDetails { fatal: details.trapcode.ty == TrapCodeType::Unknown, ..details },
            siginfo,
            context,
        },
        _ => s,
    }
}

/// A guest instance as the fault handler sees it: its module's trap manifest and its state.
pub struct Instance {
    pub manifest: TrapManifest,
    pub state: State,
}

impl Instance {
    pub fn new(manifest: TrapManifest) -> (r: Instance)
        ensures
            r.manifest == manifest,
            r.state is Ready,
    {
        Instance { manifest, state: State::Ready }
    }

    /// The trap code of a fault at `pc`: the manifest's entry, or the unknown sentinel.
    pub fn lookup_trapcode(&self, pc: u64) -> (r: TrapCode)
        ensures
            r == classify_pc(self.manifest@, pc),
    {
        self.manifest.classify(pc)
    }

    /// Marks a reported fault fatal exactly when its trap code is unknown.
    pub fn verify_trap_safety(&mut self)
        ensures
            final(self).manifest == old(self).manifest,
            final(self).state == trap_safety_checked(old(self).state),
    {
        match &mut self.state {
            State::Fault { details, .. } => {
                details.fatal = details.trapcode.ty == TrapCodeType::Unknown;
            },
            _ => {},
        }
    }
}

/// A fault reported at an address the manifest does not cover is marked fatal by
/// the host's check; one the manifest classifies stays non-fatal.
pub proof fn lemma_unknown_fault_becomes_fatal(
    m: TrapManifest,
    pc: u64,
    siginfo: SigInfo,
    context: MachineContext,
)
    ensures
        trap_safety_checked(fault_state(classify_pc(m@, pc), pc, siginfo, context)) matches State::Fault { details, .. }
            && details.trapcode == classify_pc(m@, pc)
            && details.rip_addr == pc
            && (details.fatal <==> classify_pc(m@, pc).ty == TrapCodeType::Unknown),
{
}

} // verus!
