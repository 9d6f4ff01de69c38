use vstd::prelude::*;
use nix::sys::signal::{SigAction, SigHandler};
use crate::signals::FaultSignal;

verus! {

/// A host signal handler displaced by the guest handler, with its kind, read once
/// when it is saved.
#[derive(Clone, Copy)]
pub struct SavedHandler {
    action: SigAction,
    kind: HostDisposition,
}

impl SavedHandler {
    /// The saved disposition.
    pub closed spec fn action_of(self) -> SigAction {
        self.action
    }

    /// The kind of the saved disposition, as read when it was saved.
    pub closed spec fn kind_of(self) -> HostDisposition {
        self.kind
    }

    /// Saves `action` together with its kind.
    pub fn new(action: SigAction) -> (r: SavedHandler)
        ensures
            r.action_of() == action,
    {
        let kind = disposition_of(&action);
        SavedHandler { action, kind }
    }

    /// The saved disposition.
    pub fn action(&self) -> (r: &SigAction)
        ensures
            *r == self.action_of(),
    {
        &self.action
    }

    /// The kind of the saved disposition.
    pub fn kind(&self) -> (r: HostDisposition)
        ensures
            r == self.kind_of(),
    {
        self.kind
    }
}

/// The host's handlers for the four fault signals, as displaced when the guest
/// handler was installed.
#[derive(Clone, Copy)]
pub struct SavedHandlers {
    pub bus: SavedHandler,
    pub fpe: SavedHandler,
    pub ill: SavedHandler,
    pub segv: SavedHandler,
}

impl SavedHandlers {
    pub open spec fn spec_for(self, sig: FaultSignal) -> SavedHandler {
        match sig {
            FaultSignal::Bus => self.bus,
            FaultSignal::Fpe => self.fpe,
            FaultSignal::Ill => self.ill,
            FaultSignal::Segv => self.segv,
        }
    }

    /// The saved host handler of `sig`.
    pub fn saved_for(&self, sig: FaultSignal) -> (r: &SavedHandler)
        ensures
            *r == self.spec_for(sig),
    {
        match sig {
            FaultSignal::Bus => &self.bus,
            FaultSignal::Fpe => &self.fpe,
            FaultSignal::Ill => &self.ill,
            FaultSignal::Segv => &self.segv,
        }
    }
}

/// The abstract registry: absent, or present with the number of active guest
/// invocations and the handlers displaced at installation.
pub type RegistryView = Option<(nat, SavedHandlers)>;

/// The registry after one more guest invocation starts; `displaced` is what the
/// installation displaces when the registry was absent.
pub open spec fn acquired(v: RegistryView, displaced: SavedHandlers) -> RegistryView {
    match v {
        None => Some((1, displaced)),
        Some((n, h)) => Some((n + 1, h)),
    }
}

/// One guest invocation ends: the handlers to restore (when the count reaches
/// zero) and the registry after.
pub open spec fn released(v: RegistryView) -> (Option<SavedHandlers>, RegistryView) {
    match v {
        None => (None, None),
        Some((n, h)) => if n <= 1 {
            (Some(h), None)
        } else {
            (None, Some(((n - 1) as nat, h)))
        },
    }
}

/// `n` acquisitions in a row.
pub open spec fn acquired_times(v: RegistryView, displaced: SavedHandlers, n: nat) -> RegistryView
    decreases n,
{
    if n == 0 {
        v
    } else {
        acquired(acquired_times(v, displaced, (n - 1) as nat), displaced)
    }
}

/// `n` releases in a row.
pub open spec fn released_times(v: RegistryView, n: nat) -> RegistryView
    decreases n,
{
    if n == 0 {
        v
    } else {
        released(released_times(v, (n - 1) as nat)).1
    }
}

/// The process-wide signal state: present while any guest invocation is active,
/// holding their count and the host handlers to put back after the last one.
pub struct SignalState {
    counter: usize,
    saved: SavedHandlers,
}

/// The registry of the process-wide signal state. The caller holds it under a
/// mutex; each method is one atomic transition.
pub struct SignalRegistry {
    state: Option<SignalState>,
}

impl SignalRegistry {
    pub closed spec fn view(&self) -> RegistryView {
        match self.state {
            None => None,
            Some(s) => Some((s.counter as nat, s.saved)),
        }
    }

    #[verifier::type_invariant]
    spec fn counted(&self) -> bool {
        self.state matches Some(s) ==> s.counter > 0
    }

    /// The registry with no guest handlers installed.
    pub fn new() -> (r: SignalRegistry)
        ensures
            r@ is None,
    {
        SignalRegistry { state: None }
    }

    /// Whether the guest handlers are installed.
    pub fn is_armed(&self) -> (r: bool)
        ensures
            r == self@ is Some,
    {
        self.state.is_some()
    }

    /// The number of active guest invocations.
    pub fn counter(&self) -> (r: usize)
        ensures
            r as nat == match self@ {
                None => 0,
                Some((n, _)) => n,
            },
    {
        match &self.state {
            None => 0,
            Some(s) => s.counter,
        }
    }

    /// Starts a guest invocation. While the guest handlers are installed this counts
    /// it and returns `false`; otherwise it changes nothing and returns `true`: the
    /// caller installs the handlers and then calls [`SignalRegistry::arm`] with
    /// those they displaced, still under the same lock.
    pub fn enter(&mut self) -> (install: bool)
        requires
            old(self)@ matches Some((n, _)) ==> n < usize::MAX,
        ensures
            install == old(self)@ is None,
            install ==> final(self)@ == old(self)@,
            !install ==> final(self)@ == acquired(old(self)@, old(self)@->Some_0.1),
    {
        if self.is_armed() {
            self.join();
            false
        } else {
            true
        }
    }

    /// Records the first guest invocation, after the guest handlers were installed
    /// and displaced `displaced`.
    pub fn arm(&mut self, displaced: SavedHandlers)
        requires
            old(self)@ is None,
        ensures
            final(self)@ == acquired(old(self)@, displaced),
    {
        self.state = Some(SignalState { counter: 1, saved: displaced });
    }

    /// Records one more guest invocation while the guest handlers are installed.
    pub fn join(&mut self)
        requires
            old(self)@ matches Some((n, _)) && n < usize::MAX,
        ensures
            final(self)@ == acquired(old(self)@, old(self)@->Some_0.1),
    {
        match &self.state {
            Some(s) => {
                self.state = Some(SignalState { counter: s.counter + 1, saved: s.saved });
            },
            None => {},
        }
    }

    /// Records the end of a guest invocation. When it was the last one, the
    /// registry empties and hands back the host handlers to restore.
    pub fn release(&mut self) -> (r: Option<SavedHandlers>)
        requires
            old(self)@ is Some,
        ensures
            (r, final(self)@) == released(old(self)@),
    {
        proof {
            use_type_invariant(&*self);
        }
        match &self.state {
            Some(s) => {
                if s.counter == 1 {
                    let saved = s.saved;
                    self.state = None;
                    Some(saved)
                } else {
                    self.state = Some(SignalState { counter: s.counter - 1, saved: s.saved });
                    None
                }
            },
            None => None,
        }
    }

    /// The host handler saved for `sig`, while the guest handlers are installed.
    pub fn saved_for(&self, sig: FaultSignal) -> (r: Option<&SavedHandler>)
        ensures
            self@ is None ==> r is None,
            self@ matches Some((_, h)) ==> r matches Some(a) && *a == h.spec_for(sig),
    {
        match &self.state {
            None => None,
            Some(s) => Some(s.saved.saved_for(sig)),
        }
    }

    /// What to do with a fault signal that reached the runtime while no guest runs
    /// on the faulting thread: the plan for the kind of the host handler saved for
    /// `sig`, or, once the registry is gone, a plain re-raise. Reads the registry only.
    pub fn host_reraise_action(&self, sig: FaultSignal) -> (r: ReraiseAction)
        ensures
            self@ is None ==> r == ReraiseAction::UnblockAndRaise,
            self@ matches Some((_, h)) ==> r == reraise_plan_of(Some(h.spec_for(sig).kind_of())),
    {
        match self.saved_for(sig) {
            None => reraise_plan(None),
            Some(a) => reraise_plan(Some(a.kind())),
        }
    }
}

/// The kind of a host signal handler.
#[derive(Clone, Copy, Debug, PartialEq, Eq, Structural)]
pub enum HostDisposition {
    /// The system's default action.
    Default,
    /// The signal is ignored.
    Ignore,
    /// A function of the signal number.
    Handler,
    /// A function of the signal number, its `siginfo` and the machine context.
    SigAction,
}

/// Relies on nix's `SigAction::handler`: which of its four kinds the handler is.
#[verifier::external_body]
fn disposition_of(a: &SigAction) -> (r: HostDisposition) {
    match a.handler() {
        SigHandler::SigDfl => HostDisposition::Default,
        SigHandler::SigIgn => HostDisposition::Ignore,
        SigHandler::Handler(_) => HostDisposition::Handler,
        SigHandler::SigAction(_) => HostDisposition::SigAction,
    }
}

/// How a fault signal that is not the guest's reaches the host.
#[derive(Clone, Copy, Debug, PartialEq, Eq, Structural)]
pub enum ReraiseAction {
    /// The registry is gone, so the host handler is back in place: unblock the
    /// signal on this thread and raise it.
    UnblockAndRaise,
    /// Reinstall the default action, unblock the signal and raise it.
    ResetDefaultAndRaise,
    /// Return without doing anything.
    Ignore,
    /// Call the saved handler with the signal number.
    CallHandler,
    /// Call the saved handler with the signal number, `siginfo` and context.
    CallSigAction,
}

/// The re-raise plan for a saved host handler of the given kind, or for none.
pub open spec fn reraise_plan_of(saved: Option<HostDisposition>) -> ReraiseAction {
    match saved {
        None => ReraiseAction::UnblockAndRaise,
        Some(HostDisposition::Default) => ReraiseAction::ResetDefaultAndRaise,
        Some(HostDisposition::Ignore) => ReraiseAction::Ignore,
        Some(HostDisposition::Handler) => ReraiseAction::CallHandler,
        Some(HostDisposition::SigAction) => ReraiseAction::CallSigAction,
    }
}

/// The re-raise plan for a saved host handler of the given kind, or for none.
pub fn reraise_plan(saved: Option<HostDisposition>) -> (r: ReraiseAction)
    ensures
        r == reraise_plan_of(saved),
{
    match saved {
        None => ReraiseAction::UnblockAndRaise,
        Some(HostDisposition::Default) => ReraiseAction::ResetDefaultAndRaise,
        Some(HostDisposition::Ignore) => ReraiseAction::Ignore,
        Some(HostDisposition::Handler) => ReraiseAction::CallHandler,
        Some(HostDisposition::SigAction) => ReraiseAction::CallSigAction,
    }
}

/// Starting from an absent registry, `n` acquisitions (the first of which installs
/// and displaces `h`) leave `n` active invocations; of the `n` releases that follow,
/// only the last hands back handlers to restore, and those are `h`, after which the
/// registry is absent again.
pub proof fn lemma_nested_invocations_restore_host(h: SavedHandlers, n: nat)
    requires
        n >= 1,
    ensures
        acquired_times(None, h, n) == Some((n, h)),
        forall|k: nat| k < n - 1 ==> (#[trigger] released(released_times(acquired_times(None, h, n), k))).0 is None,
        released(released_times(acquired_times(None, h, n), (n - 1) as nat)) == (Some(h), None::<(nat, SavedHandlers)>),
        released_times(acquired_times(None, h, n), n) is None,
{
    lemma_acquired_times_count(h, n);
    assert forall|k: nat| k <= n - 1 implies released_times(Some((n, h)), k) == Some(((n - k) as nat, h)) by {
        lemma_released_times_count(h, n, k);
    }
    assert forall|k: nat| k < n - 1 implies (#[trigger] released(released_times(acquired_times(None, h, n), k))).0 is None by {
        assert(released_times(Some((n, h)), k) == Some(((n - k) as nat, h)));
    }
    assert(released_times(Some((n, h)), (n - 1) as nat) == Some((1nat, h)));
}

proof fn lemma_acquired_times_count(h: SavedHandlers, n: nat)
    requires
        n >= 1,
    ensures
        acquired_times(None, h, n) == Some((n, h)),
    decreases n,
{
    if n > 1 {
        lemma_acquired_times_count(h, (n - 1) as nat);
    } else {
        assert(acquired_times(None, h, 0) == None::<(nat, SavedHandlers)>);
    }
}

proof fn lemma_released_times_count(h: SavedHandlers, n: nat, k: nat)
    requires
        k < n,
    ensures
        released_times(Some((n, h)), k) == Some(((n - k) as nat, h)),
    decreases k,
{
    if k > 0 {
        lemma_released_times_count(h, n, (k - 1) as nat);
    }
}

/// A release hands back the host handlers exactly when it ends the last active
/// invocation, and those are the handlers displaced at installation.
pub proof fn lemma_release_restores_iff_last(n: nat, h: SavedHandlers)
    requires
        n >= 1,
    ensures
        released(Some((n, h))).0 is Some <==> n == 1,
        released(Some((n, h))).0 is Some <==> released(Some((n, h))).1 is None,
        released(Some((n, h))).0 matches Some(r) ==> r == h,
        released(Some((n, h))).1 matches Some((m, g)) ==> m == n - 1 && g == h,
{
}

/// A guard entered while no other is active is handed back, at its exit, the host
/// handlers it displaced, and with them the cue to restore the thread's previous
/// alternate signal stack.
pub proof fn lemma_sole_guard_restores(h: SavedHandlers)
    ensures
        released(acquired(None, h)) == (Some(h), None::<(nat, SavedHandlers)>),
{
}

/// After any balanced run of acquisitions and releases, however deep, the registry
/// is absent again, so the next entry installs the handlers as a first entry does.
pub proof fn lemma_reentry_is_fresh(h: SavedHandlers, n: nat, g: SavedHandlers)
    requires
        n >= 1,
    ensures
        released_times(acquired_times(None, h, n), n) is None,
        acquired(released_times(acquired_times(None, h, n), n), g) == acquired(None, g),
{
    lemma_nested_invocations_restore_host(h, n);
}

/// Of two acquisitions made one after the other under the registry's lock, starting
/// from an absent registry, exactly one finds it absent and installs; after each the
/// count is at least one, and the handlers kept are those of the installer.
pub proof fn lemma_first_acquires_install_once(h1: SavedHandlers, h2: SavedHandlers)
    ensures
        acquired(None, h1) is Some,
        acquired(None, h1)->Some_0.0 >= 1,
        acquired(acquired(None, h1), h2)->Some_0.0 >= 1,
        acquired(acquired(None, h1), h2) == Some((2nat, h1)),
{
}

} // verus!
