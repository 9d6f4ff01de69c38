use vstd::prelude::*;
use nix::sys::signal::{SigAction, SigHandler, Signal};
use crate::instance::{fault_state, signal_terminated_state, Instance, MachineContext, SigInfo};
use crate::trapcode::{classify_pc, lemma_covering_site_unique, TrapCode, TrapManifest};

verus! {

/// nix's `SigAction`, a signal disposition; carried through opaque.
#[verifier::external_type_specification]
#[verifier::external_body]
pub struct ExSigAction(SigAction);

/// The four hardware-fault signals the runtime handles.
#[derive(Clone, Copy, Debug, PartialEq, Eq, Structural)]
pub enum FaultSignal {
    Bus,
    Fpe,
    Ill,
    Segv,
}

/// The Linux signal number of each fault signal.
pub open spec fn signal_number(s: FaultSignal) -> i32 {
    match s {
        FaultSignal::Bus => 7,
        FaultSignal::Fpe => 8,
        FaultSignal::Ill => 4,
        FaultSignal::Segv => 11,
    }
}

/// The fault signal with number `signum`, if it is one of the four.
pub open spec fn fault_signal_of(signum: i32) -> Option<FaultSignal> {
    if signum == 7 {
        Some(FaultSignal::Bus)
    } else if signum == 8 {
        Some(FaultSignal::Fpe)
    } else if signum == 4 {
        Some(FaultSignal::Ill)
    } else if signum == 11 {
        Some(FaultSignal::Segv)
    } else {
        None
    }
}

/// Relies on nix's `Signal::try_from`, which maps each signal number of the
/// platform (here Linux) to its variant and refuses any other number.
#[verifier::external_body]
fn signal_from_number(signum: i32) -> (r: Option<FaultSignal>)
    ensures
        r == fault_signal_of(signum),
{
    match Signal::try_from(signum) {
        Ok(Signal::SIGBUS) => Some(FaultSignal::Bus),
        Ok(Signal::SIGFPE) => Some(FaultSignal::Fpe),
        Ok(Signal::SIGILL) => Some(FaultSignal::Ill),
        Ok(Signal::SIGSEGV) => Some(FaultSignal::Segv),
        _ => None,
    }
}

/// Which of the four fault signals `signum` is, if any.
pub fn fault_signal(signum: i32) -> (r: Option<FaultSignal>)
    ensures
        r == fault_signal_of(signum),
        r matches Some(s) ==> signal_number(s) == signum,
{
    signal_from_number(signum)
}

impl FaultSignal {
    /// This signal's number.
    pub fn number(self) -> (r: i32)
        ensures
            r == signal_number(self),
            fault_signal_of(r) == Some(self),
    {
        match self {
            FaultSignal::Bus => 7,
            FaultSignal::Fpe => 8,
            FaultSignal::Ill => 4,
            FaultSignal::Segv => 11,
        }
    }
}

/// What a signal policy decides for a guest fault.
#[derive(Clone, Copy, Debug, PartialEq, Eq, Structural)]
pub enum SignalBehavior {
    /// Report the fault: switch back to the host with the fault recorded.
    Default,
    /// Resume the guest where it faulted, recording nothing.
    Continue,
    /// Terminate the guest: switch back to the host with the termination recorded.
    Terminate,
}

/// A user-supplied policy consulted on every guest fault. It runs inside a signal
/// handler and may rewrite the saved machine context (to skip or emulate the
/// faulting instruction before a `Continue`).
pub trait SignalPolicy {
    fn decide(
        &self,
        inst: &Instance,
        trapcode: &TrapCode,
        signum: i32,
        siginfo: &SigInfo,
        context: &mut MachineContext,
    ) -> SignalBehavior;
}

/// The policy that leaves every fault to the default behaviour.
pub fn signal_handler_none(
    inst: &Instance,
    trapcode: &TrapCode,
    signum: i32,
    siginfo: &SigInfo,
    context: &MachineContext,
) -> (r: SignalBehavior)
    ensures
        r == SignalBehavior::Default,
{
    SignalBehavior::Default
}

/// The policy of [`signal_handler_none`].
pub struct DefaultPolicy;

impl SignalPolicy for DefaultPolicy {
    fn decide(
        &self,
        inst: &Instance,
        trapcode: &TrapCode,
        signum: i32,
        siginfo: &SigInfo,
        context: &mut MachineContext,
    ) -> SignalBehavior {
        signal_handler_none(inst, trapcode, signum, siginfo, context)
    }
}

/// What the fault handler did about a fault, and so what the caller does next.
#[derive(Clone, Copy, Debug, PartialEq, Eq, Structural)]
pub enum FaultOutcome {
    /// No guest runs on this thread: hand the signal to the host's handler.
    NotGuest,
    /// The guest resumes at the faulting instruction.
    Continued,
    /// The guest was terminated: switch back to the host.
    Terminated,
    /// The fault was recorded: switch back to the host.
    Faulted,
}

impl FaultOutcome {
    pub open spec fn switches_to_host(self) -> bool {
        self == FaultOutcome::Terminated || self == FaultOutcome::Faulted
    }
}

impl Instance {
    /// Carries out a policy's decision on a fault at `pc` classified as `trapcode`;
    /// returns whether to switch back to the host.
    pub fn apply_signal_behavior(
        &mut self,
        behavior: SignalBehavior,
        trapcode: TrapCode,
        pc: u64,
        siginfo: SigInfo,
        context: MachineContext,
    ) -> (switch_to_host: bool)
        ensures
            final(self).manifest == old(self).manifest,
            switch_to_host == (behavior != SignalBehavior::Continue),
            behavior == SignalBehavior::Continue ==> final(self).state == old(self).state,
            behavior == SignalBehavior::Terminate ==> final(self).state == signal_terminated_state(),
            behavior == SignalBehavior::Default ==> final(self).state == fault_state(trapcode, pc, siginfo, context),
    {
        match behavior {
            SignalBehavior::Continue => false,
            SignalBehavior::Terminate => {
                self.state = crate::instance::State::Terminated {
                    details: crate::instance::TerminationDetails::Signal,
                };
                true
            },
            SignalBehavior::Default => {
                self.state = crate::instance::State::Fault {
                    details: crate::instance::FaultDetails {
                        fatal: false,
                        trapcode,
                        rip_addr: pc,
                        rip_addr_details: None,
                    },
                    siginfo,
                    context,
                };
                true
            },
        }
    }
}

/// The fault handler's decision for a fault signal delivered to this thread, whose
/// running guest (if any) is `current`.
///
/// With no guest, nothing is touched and the signal goes to the host. Otherwise the
/// faulting address is classified through the guest's trap manifest, `policy`
/// decides, and the decision is recorded in the instance.
pub fn handle_fault<P: SignalPolicy>(
    current: &mut Option<Instance>,
    policy: &P,
    signal: FaultSignal,
    siginfo: SigInfo,
    context: &mut MachineContext,
) -> (r: FaultOutcome)
    ensures
        (*old(current)) is None <==> r == FaultOutcome::NotGuest,
        r == FaultOutcome::NotGuest ==> *final(current) == *old(current) && *final(context) == *old(context),
        r == FaultOutcome::Continued ==> *final(current) == *old(current),
        r.switches_to_host() ==> (*final(current)) is Some
            && (*final(current))->Some_0.manifest == (*old(current))->Some_0.manifest,
        r == FaultOutcome::Terminated ==> (*final(current))->Some_0.state == signal_terminated_state(),
        r == FaultOutcome::Faulted ==> (*final(current))->Some_0.state == fault_state(
            classify_pc((*old(current))->Some_0.manifest@, old(context).pc_spec()),
            old(context).pc_spec(),
            siginfo,
            *final(context),
        ),
{
    let pc = context.pc();
    match current {
        None => FaultOutcome::NotGuest,
        Some(inst) => {
            let trapcode = inst.lookup_trapcode(pc);
            let behavior = policy.decide(inst, &trapcode, signal.number(), &siginfo, context);
            let saved = *context;
            inst.apply_signal_behavior(behavior, trapcode, pc, siginfo, saved);
            match behavior {
                SignalBehavior::Continue => FaultOutcome::Continued,
                SignalBehavior::Terminate => FaultOutcome::Terminated,
                SignalBehavior::Default => FaultOutcome::Faulted,
            }
        },
    }
}

/// When the faulting address lies in a manifest entry, the fault the handler records
/// for a `Default` decision carries that entry's trap code and the faulting address.
pub proof fn lemma_default_fault_has_manifest_code(
    m: TrapManifest,
    k: int,
    context: MachineContext,
    siginfo: SigInfo,
    saved: MachineContext,
)
    requires
        m.wf(),
        0 <= k < m@.len(),
        m@[k].covers(context.pc_spec()),
    ensures
        fault_state(classify_pc(m@, context.pc_spec()), context.pc_spec(), siginfo, saved) matches
            crate::instance::State::Fault { details, .. }
            && details.trapcode == m@[k].code
            && details.rip_addr == context.pc_spec()
            && !details.fatal,
{
    lemma_covering_site_unique(m@, context.pc_spec(), k);
}

} // verus!
