use lucet_signals::instance::{Instance, MachineContext, SigInfo, State, TerminationDetails, PC_REGISTER};
use lucet_signals::signals::{
    fault_signal, handle_fault, signal_handler_none, DefaultPolicy, FaultOutcome, FaultSignal,
    SignalBehavior, SignalPolicy,
};
use lucet_signals::trapcode::{ManifestError, TrapCode, TrapCodeType, TrapManifest, TrapSite};

const P: u64 = 0x1000;
const Q: u64 = 0x2010;
const R: u64 = 0x3020;
const S: u64 = 0x5000;

fn site(start: u64, len: u64, ty: TrapCodeType, tag: u16) -> TrapSite {
    TrapSite { start, len, code: TrapCode { ty, tag } }
}

fn manifest() -> TrapManifest {
    TrapManifest::new(vec![
        site(P, 4, TrapCodeType::MemoryOutOfBounds, 7),
        site(Q, 3, TrapCodeType::IntegerDivByZero, 0),
        site(R, 2, TrapCodeType::Unreachable, 0),
    ])
    .unwrap()
}

fn context_at(pc: u64) -> MachineContext {
    let mut gregs = [0i64; 23];
    gregs[PC_REGISTER] = pc as i64;
    MachineContext { gregs }
}

fn info(signo: i32) -> SigInfo {
    SigInfo { signo, errno: 0, code: 1, addr: 0 }
}

struct TerminatePolicy;

impl SignalPolicy for TerminatePolicy {
    fn decide(&self, _: &Instance, _: &TrapCode, _: i32, _: &SigInfo, _: &mut MachineContext) -> SignalBehavior {
        SignalBehavior::Terminate
    }
}

/// Skips the faulting instruction and resumes.
struct SkipPolicy;

impl SignalPolicy for SkipPolicy {
    fn decide(&self, _: &Instance, _: &TrapCode, _: i32, _: &SigInfo, ctx: &mut MachineContext) -> SignalBehavior {
        ctx.gregs[PC_REGISTER] += 2;
        SignalBehavior::Continue
    }
}

fn run_fault<Pol: SignalPolicy>(policy: &Pol, signal: FaultSignal, pc: u64) -> (FaultOutcome, Option<Instance>) {
    let mut current = Some(Instance::new(manifest()));
    let mut ctx = context_at(pc);
    let out = handle_fault(&mut current, policy, signal, info(signal.number()), &mut ctx);
    (out, current)
}

fn expect_fault(inst: &Instance, ty: TrapCodeType, tag: u16, pc: u64, signo: i32) {
    match &inst.state {
        State::Fault { details, siginfo, context } => {
            assert!(!details.fatal);
            assert_eq!(details.trapcode, TrapCode { ty, tag });
            assert_eq!(details.rip_addr, pc);
            assert!(details.rip_addr_details.is_none());
            assert_eq!(siginfo.signo, signo);
            assert_eq!(context.pc(), pc);
        }
        other => panic!("expected a fault, got {:?}", other),
    }
}

#[test]
fn oob_load_is_reported_with_its_trapcode() {
    let (out, inst) = run_fault(&DefaultPolicy, FaultSignal::Segv, P);
    assert_eq!(out, FaultOutcome::Faulted);
    expect_fault(inst.as_ref().unwrap(), TrapCodeType::MemoryOutOfBounds, 7, P, 11);
}

#[test]
fn divide_by_zero_is_reported() {
    let (out, inst) = run_fault(&DefaultPolicy, FaultSignal::Fpe, Q);
    assert_eq!(out, FaultOutcome::Faulted);
    expect_fault(inst.as_ref().unwrap(), TrapCodeType::IntegerDivByZero, 0, Q, 8);
}

#[test]
fn unreachable_is_reported_and_stays_non_fatal() {
    let (out, inst) = run_fault(&DefaultPolicy, FaultSignal::Ill, R);
    assert_eq!(out, FaultOutcome::Faulted);
    let mut inst = inst.unwrap();
    expect_fault(&inst, TrapCodeType::Unreachable, 0, R, 4);
    inst.verify_trap_safety();
    match &inst.state {
        State::Fault { details, .. } => assert!(!details.fatal),
        _ => panic!("expected a fault"),
    }
}

#[test]
fn unknown_fault_is_reported_and_becomes_fatal() {
    let (out, inst) = run_fault(&DefaultPolicy, FaultSignal::Segv, S);
    assert_eq!(out, FaultOutcome::Faulted);
    let mut inst = inst.unwrap();
    expect_fault(&inst, TrapCodeType::Unknown, 0, S, 11);
    inst.verify_trap_safety();
    match &inst.state {
        State::Fault { details, .. } => assert!(details.fatal),
        _ => panic!("expected a fault"),
    }
}

#[test]
fn one_byte_past_a_site_is_unknown() {
    let m = manifest();
    assert_eq!(m.lookup_trapcode(P + 3), Some(TrapCode { ty: TrapCodeType::MemoryOutOfBounds, tag: 7 }));
    assert_eq!(m.lookup_trapcode(P + 4), None);
    assert_eq!(m.lookup_trapcode(P - 1), None);
    let (out, inst) = run_fault(&DefaultPolicy, FaultSignal::Segv, P + 4);
    assert_eq!(out, FaultOutcome::Faulted);
    expect_fault(inst.as_ref().unwrap(), TrapCodeType::Unknown, 0, P + 4, 11);
}

#[test]
fn terminating_policy_records_signal_termination() {
    let (out, inst) = run_fault(&TerminatePolicy, FaultSignal::Segv, P);
    assert_eq!(out, FaultOutcome::Terminated);
    match inst.unwrap().state {
        State::Terminated { details } => assert_eq!(details, TerminationDetails::Signal),
        other => panic!("expected termination, got {:?}", other),
    }
}

#[test]
fn continue_leaves_the_state_unchanged() {
    let mut current = Some(Instance::new(manifest()));
    current.as_mut().unwrap().state = State::Running;
    let mut ctx = context_at(R);
    let out = handle_fault(&mut current, &SkipPolicy, FaultSignal::Ill, info(4), &mut ctx);
    assert_eq!(out, FaultOutcome::Continued);
    assert!(matches!(current.unwrap().state, State::Running));
    assert_eq!(ctx.pc(), R + 2);
}

#[test]
fn fault_without_a_guest_is_left_to_the_host() {
    let mut current: Option<Instance> = None;
    let mut ctx = context_at(P);
    let out = handle_fault(&mut current, &DefaultPolicy, FaultSignal::Segv, info(11), &mut ctx);
    assert_eq!(out, FaultOutcome::NotGuest);
    assert!(current.is_none());
    assert_eq!(ctx.pc(), P);
}

#[test]
fn default_policy_always_reports() {
    let inst = Instance::new(manifest());
    let tc = TrapCode { ty: TrapCodeType::Unreachable, tag: 0 };
    assert_eq!(signal_handler_none(&inst, &tc, 4, &info(4), &context_at(R)), SignalBehavior::Default);
}

#[test]
fn signal_numbers_map_to_fault_signals() {
    assert_eq!(fault_signal(7), Some(FaultSignal::Bus));
    assert_eq!(fault_signal(8), Some(FaultSignal::Fpe));
    assert_eq!(fault_signal(4), Some(FaultSignal::Ill));
    assert_eq!(fault_signal(11), Some(FaultSignal::Segv));
    assert_eq!(fault_signal(2), None);
    assert_eq!(fault_signal(15), None);
    assert_eq!(FaultSignal::Segv.number(), 11);
}

#[test]
fn manifest_refuses_bad_sites() {
    let code = TrapCode { ty: TrapCodeType::User, tag: 1 };
    let s = |start, len| TrapSite { start, len, code };
    assert!(TrapManifest::new(vec![]).is_ok());
    assert_eq!(TrapManifest::new(vec![s(10, 0)]).err(), Some(ManifestError::EmptySite(0)));
    assert_eq!(TrapManifest::new(vec![s(10, 2), s(u64::MAX, 1)]).err(), Some(ManifestError::SiteOverflows(1)));
    assert_eq!(TrapManifest::new(vec![s(10, 4), s(13, 1)]).err(), Some(ManifestError::Unordered(1)));
    assert!(TrapManifest::new(vec![s(10, 4), s(14, 1)]).is_ok());
    assert_eq!(TrapManifest::empty().lookup_trapcode(10), None);
}

#[test]
fn classify_falls_back_to_unknown() {
    let m = manifest();
    assert_eq!(m.classify(Q + 2), TrapCode { ty: TrapCodeType::IntegerDivByZero, tag: 0 });
    assert_eq!(m.classify(Q + 3), TrapCode::unknown());
    let inst = Instance::new(m);
    assert_eq!(inst.lookup_trapcode(R + 1), TrapCode { ty: TrapCodeType::Unreachable, tag: 0 });
}
