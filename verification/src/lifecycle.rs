use vstd::prelude::*;
use crate::diagnostics::DiagnosticsProvider;

verus! {

/// The phases of the process lifetime: acquiring resources, pumping
/// window events, and tearing down.
#[derive(Clone, Copy, PartialEq, Eq, Structural, Debug)]
pub enum LoopState {
    Initializing,
    Running,
    Terminating,
}

/// A window event, discriminated as far as the loop cares: a close
/// request, or anything else (observed and discarded).
#[derive(Clone, Copy, PartialEq, Eq, Structural, Debug)]
pub enum UiEvent {
    CloseRequested,
    Other,
}

/// The loop state after one event: a close request received while
/// running terminates the loop; every other combination changes nothing.
pub open spec fn spec_dispatch(state: LoopState, event: UiEvent) -> LoopState {
    if state is Running && event is CloseRequested {
        LoopState::Terminating
    } else {
        state
    }
}

/// Whether this event is the one that stops the loop.
pub open spec fn spec_stops_loop(state: LoopState, event: UiEvent) -> bool {
    state is Running && event is CloseRequested
}

/// Applies one window event to the loop state. The second component
/// reports whether this event stopped the loop; an event arriving once
/// the loop is already terminating is not processed.
pub fn dispatch_event(state: LoopState, event: UiEvent) -> (r: (LoopState, bool))
    ensures
        r.0 == spec_dispatch(state, event),
        r.1 == spec_stops_loop(state, event),
{
    let close = matches!(event, UiEvent::CloseRequested);
    let running = matches!(state, LoopState::Running);
    if running && close {
        (LoopState::Terminating, true)
    } else {
        (state, false)
    }
}

/// A close request stops a running loop exactly once: it moves the
/// state to terminating, and whatever arrives afterwards — another
/// close request included — is not processed and changes nothing.
pub proof fn lemma_close_requested_stops_once(later: UiEvent)
    ensures
        spec_dispatch(LoopState::Running, UiEvent::CloseRequested) == LoopState::Terminating,
        spec_stops_loop(LoopState::Running, UiEvent::CloseRequested),
        spec_dispatch(LoopState::Terminating, later) == LoopState::Terminating,
        !spec_stops_loop(LoopState::Terminating, later),
{
}

/// The resources the bootstrap acquires, named for the destroy log.
#[derive(Clone, Copy, PartialEq, Eq, Structural, Debug)]
pub enum ResourceKind {
    DiagnosticSubscription,
    LogicalDevice,
    Instance,
}

/// Tracks which graphics resources are currently alive and in which
/// order destroy calls were issued. The ledger enforces the ownership
/// tree — children exist only while the instance does — and owes a
/// single teardown that releases everything alive, children first.
pub struct ResourceLedger {
    instance_live: bool,
    subscription_live: bool,
    device_live: bool,
    torn_down: bool,
    destroyed: Vec<ResourceKind>,
}

impl ResourceLedger {
    /// Whether the instance is alive.
    pub closed spec fn spec_instance_live(&self) -> bool {
        self.instance_live
    }

    /// Whether the diagnostic subscription is alive.
    pub closed spec fn spec_subscription_live(&self) -> bool {
        self.subscription_live
    }

    /// Whether the logical device is alive.
    pub closed spec fn spec_device_live(&self) -> bool {
        self.device_live
    }

    /// Whether teardown has already run.
    pub closed spec fn spec_torn_down(&self) -> bool {
        self.torn_down
    }

    /// The destroy calls issued so far, in order.
    pub closed spec fn spec_destroyed(&self) -> Seq<ResourceKind> {
        self.destroyed@
    }

    /// Well-formedness: children live only while the instance does,
    /// nothing survives teardown, and destroy calls are issued only by
    /// teardown.
    pub open spec fn wf(&self) -> bool {
        &&& ((self.spec_subscription_live() || self.spec_device_live())
            ==> self.spec_instance_live())
        &&& (self.spec_torn_down() ==> (!self.spec_instance_live()
            && !self.spec_subscription_live() && !self.spec_device_live()))
        &&& (!self.spec_torn_down() ==> self.spec_destroyed().len() == 0)
    }

    /// The destroy order teardown owes from this state: the diagnostic
    /// subscription (if present), then the logical device, then the
    /// instance — each child before the instance that owns it.
    pub open spec fn teardown_plan(&self) -> Seq<ResourceKind> {
        (if self.spec_subscription_live() {
            seq![ResourceKind::DiagnosticSubscription]
        } else {
            Seq::empty()
        }) + (if self.spec_device_live() {
            seq![ResourceKind::LogicalDevice]
        } else {
            Seq::empty()
        }) + (if self.spec_instance_live() {
            seq![ResourceKind::Instance]
        } else {
            Seq::empty()
        })
    }

    /// A fresh ledger: nothing acquired, nothing destroyed.
    pub fn new() -> (r: Self)
        ensures
            r.wf(),
            !r.spec_instance_live(),
            !r.spec_subscription_live(),
            !r.spec_device_live(),
            !r.spec_torn_down(),
            r.spec_destroyed() == Seq::<ResourceKind>::empty(),
    {
        ResourceLedger {
            instance_live: false,
            subscription_live: false,
            device_live: false,
            torn_down: false,
            destroyed: Vec::new(),
        }
    }

    /// Records that the instance was created. The instance is the root:
    /// it is acquired first and only once.
    pub fn note_instance_created(&mut self)
        requires
            old(self).wf(),
            !old(self).spec_torn_down(),
            !old(self).spec_instance_live(),
        ensures
            final(self).wf(),
            final(self).spec_instance_live(),
            final(self).spec_subscription_live() == old(self).spec_subscription_live(),
            final(self).spec_device_live() == old(self).spec_device_live(),
            !final(self).spec_torn_down(),
            final(self).spec_destroyed() == old(self).spec_destroyed(),
    {
        self.instance_live = true;
    }

    /// Records that the diagnostic messenger was attached. It is bound
    /// to the instance, which must be alive.
    pub fn note_subscription_attached(&mut self)
        requires
            old(self).wf(),
            !old(self).spec_torn_down(),
            old(self).spec_instance_live(),
            !old(self).spec_subscription_live(),
        ensures
            final(self).wf(),
            final(self).spec_subscription_live(),
            final(self).spec_instance_live(),
            final(self).spec_device_live() == old(self).spec_device_live(),
            !final(self).spec_torn_down(),
            final(self).spec_destroyed() == old(self).spec_destroyed(),
    {
        self.subscription_live = true;
    }

    /// Records that the logical device was created. It is bound to the
    /// instance, which must be alive.
    pub fn note_device_created(&mut self)
        requires
            old(self).wf(),
            !old(self).spec_torn_down(),
            old(self).spec_instance_live(),
            !old(self).spec_device_live(),
        ensures
            final(self).wf(),
            final(self).spec_device_live(),
            final(self).spec_instance_live(),
            final(self).spec_subscription_live() == old(self).spec_subscription_live(),
            !final(self).spec_torn_down(),
            final(self).spec_destroyed() == old(self).spec_destroyed(),
    {
        self.device_live = true;
    }

    /// Releases everything alive, children before the instance, and
    /// returns the destroy calls issued, in order. Idempotent: once the
    /// ledger is torn down, a second call destroys nothing and changes
    /// nothing. Teardown never fails: every exit path of the
    /// application can run it.
    pub fn tear_down(&mut self) -> (order: Vec<ResourceKind>)
        requires
            old(self).wf(),
        ensures
            final(self).wf(),
            final(self).spec_torn_down(),
            !final(self).spec_instance_live(),
            !final(self).spec_subscription_live(),
            !final(self).spec_device_live(),
            old(self).spec_torn_down() ==> (order@ == Seq::<ResourceKind>::empty()
                && final(self).spec_destroyed() == old(self).spec_destroyed()),
            !old(self).spec_torn_down() ==> (order@ == old(self).teardown_plan() && final(self).spec_destroyed() == old(self).spec_destroyed() + old(self).teardown_plan()),
    {
        let mut order: Vec<ResourceKind> = Vec::new();
        if self.torn_down {
            return order;
        }
        if self.subscription_live {
            order.push(ResourceKind::DiagnosticSubscription);
            self.destroyed.push(ResourceKind::DiagnosticSubscription);
            self.subscription_live = false;
        }
        if self.device_live {
            order.push(ResourceKind::LogicalDevice);
            self.destroyed.push(ResourceKind::LogicalDevice);
            self.device_live = false;
        }
        if self.instance_live {
            order.push(ResourceKind::Instance);
            self.destroyed.push(ResourceKind::Instance);
            self.instance_live = false;
        }
        self.torn_down = true;
        proof {
            assert(order@ =~= old(self).teardown_plan());
            assert(self.destroyed@ =~= old(self).spec_destroyed() + old(self).teardown_plan());
        }
        order
    }

    /// The destroy calls issued so far, in order.
    pub fn destroy_log(&self) -> (log: &Vec<ResourceKind>)
        ensures
            log@ == self.spec_destroyed(),
    {
        &self.destroyed
    }
}

/// After a full startup with diagnostics enabled — subscription, device
/// and instance all alive — teardown destroys exactly the subscription,
/// then the device, then the instance.
pub proof fn lemma_full_teardown_order(l: ResourceLedger)
    requires
        l.spec_subscription_live(),
        l.spec_device_live(),
        l.spec_instance_live(),
    ensures
        l.teardown_plan() == seq![
            ResourceKind::DiagnosticSubscription,
            ResourceKind::LogicalDevice,
            ResourceKind::Instance,
        ],
{
    assert(l.teardown_plan() =~= seq![
        ResourceKind::DiagnosticSubscription,
        ResourceKind::LogicalDevice,
        ResourceKind::Instance,
    ]);
}

/// The instance strictly outlives its children: whenever it is alive,
/// the teardown plan destroys it last, after every other resource.
pub proof fn lemma_instance_destroyed_last(l: ResourceLedger)
    requires
        l.wf(),
        l.spec_instance_live(),
    ensures
        l.teardown_plan().len() > 0,
        l.teardown_plan().last() == ResourceKind::Instance,
        forall|i: int|
            0 <= i < l.teardown_plan().len() - 1 ==> l.teardown_plan()[i]
                != ResourceKind::Instance,
{
}

/// Owns the bootstrap in acquisition order: the diagnostics provider,
/// the resource ledger, and the event-loop state. Startup noting runs
/// while initializing; the loop then runs until a close request; the
/// single teardown releases everything in reverse, on the normal exit
/// and on every startup error path alike.
pub struct ApplicationLifecycle {
    diagnostics: DiagnosticsProvider,
    ledger: ResourceLedger,
    state: LoopState,
}

impl ApplicationLifecycle {
    /// Whether this build runs with diagnostics.
    pub closed spec fn spec_diagnostics_enabled(&self) -> bool {
        self.diagnostics.spec_enabled()
    }

    /// The current loop state.
    pub closed spec fn spec_state(&self) -> LoopState {
        self.state
    }

    /// The resource ledger, for stating what is alive and destroyed.
    pub closed spec fn spec_ledger(&self) -> ResourceLedger {
        self.ledger
    }

    /// Well-formedness of the owned ledger.
    pub open spec fn wf(&self) -> bool {
        self.spec_ledger().wf()
    }

    /// A lifecycle about to start up: nothing acquired, diagnostics
    /// fixed for the whole run.
    pub fn new(diagnostics_enabled: bool) -> (r: Self)
        ensures
            r.wf(),
            r.spec_diagnostics_enabled() == diagnostics_enabled,
            r.spec_state() == LoopState::Initializing,
            !r.spec_ledger().spec_instance_live(),
            !r.spec_ledger().spec_subscription_live(),
            !r.spec_ledger().spec_device_live(),
            !r.spec_ledger().spec_torn_down(),
            r.spec_ledger().spec_destroyed() == Seq::<ResourceKind>::empty(),
    {
        ApplicationLifecycle {
            diagnostics: DiagnosticsProvider::new(diagnostics_enabled),
            ledger: ResourceLedger::new(),
            state: LoopState::Initializing,
        }
    }

    /// The diagnostics provider, for building creation lists.
    pub fn diagnostics(&self) -> (d: &DiagnosticsProvider)
        ensures
            d.spec_enabled() == self.spec_diagnostics_enabled(),
    {
        &self.diagnostics
    }

    /// The current loop state.
    pub fn loop_state(&self) -> (s: LoopState)
        ensures
            s == self.spec_state(),
    {
        self.state
    }

    /// The destroy calls issued so far, in order.
    pub fn destroy_log(&self) -> (log: &Vec<ResourceKind>)
        ensures
            log@ == self.spec_ledger().spec_destroyed(),
    {
        self.ledger.destroy_log()
    }

    /// Whether the instance is alive.
    pub fn is_instance_live(&self) -> (r: bool)
        ensures
            r == self.spec_ledger().spec_instance_live(),
    {
        self.ledger.instance_live
    }

    /// Whether the diagnostic subscription is alive.
    pub fn is_subscription_live(&self) -> (r: bool)
        ensures
            r == self.spec_ledger().spec_subscription_live(),
    {
        self.ledger.subscription_live
    }

    /// Whether the logical device is alive.
    pub fn is_device_live(&self) -> (r: bool)
        ensures
            r == self.spec_ledger().spec_device_live(),
    {
        self.ledger.device_live
    }

    /// Whether teardown has already run.
    pub fn is_torn_down(&self) -> (r: bool)
        ensures
            r == self.spec_ledger().spec_torn_down(),
    {
        self.ledger.torn_down
    }

    /// Records that the instance was created, the first startup step.
    pub fn instance_created(&mut self)
        requires
            old(self).wf(),
            old(self).spec_state() == LoopState::Initializing,
            !old(self).spec_ledger().spec_torn_down(),
            !old(self).spec_ledger().spec_instance_live(),
        ensures
            final(self).wf(),
            final(self).spec_diagnostics_enabled() == old(self).spec_diagnostics_enabled(),
            final(self).spec_state() == old(self).spec_state(),
            final(self).spec_ledger().spec_instance_live(),
            final(self).spec_ledger().spec_subscription_live() == old(self).spec_ledger().spec_subscription_live(),
            final(self).spec_ledger().spec_device_live() == old(self).spec_ledger().spec_device_live(),
            !final(self).spec_ledger().spec_torn_down(),
            final(self).spec_ledger().spec_destroyed() == old(self).spec_ledger().spec_destroyed(),
    {
        self.ledger.note_instance_created();
    }

    /// Records that the diagnostic messenger was attached. Happens only
    /// in diagnostics-enabled builds, after the instance exists.
    pub fn subscription_attached(&mut self)
        requires
            old(self).wf(),
            old(self).spec_diagnostics_enabled(),
            old(self).spec_state() == LoopState::Initializing,
            !old(self).spec_ledger().spec_torn_down(),
            old(self).spec_ledger().spec_instance_live(),
            !old(self).spec_ledger().spec_subscription_live(),
        ensures
            final(self).wf(),
            final(self).spec_diagnostics_enabled() == old(self).spec_diagnostics_enabled(),
            final(self).spec_state() == old(self).spec_state(),
            final(self).spec_ledger().spec_subscription_live(),
            final(self).spec_ledger().spec_instance_live(),
            final(self).spec_ledger().spec_device_live() == old(self).spec_ledger().spec_device_live(),
            !final(self).spec_ledger().spec_torn_down(),
            final(self).spec_ledger().spec_destroyed() == old(self).spec_ledger().spec_destroyed(),
    {
        self.ledger.note_subscription_attached();
    }

    /// Records that the logical device was created, after the instance.
    pub fn device_created(&mut self)
        requires
            old(self).wf(),
            old(self).spec_state() == LoopState::Initializing,
            !old(self).spec_ledger().spec_torn_down(),
            old(self).spec_ledger().spec_instance_live(),
            !old(self).spec_ledger().spec_device_live(),
        ensures
            final(self).wf(),
            final(self).spec_diagnostics_enabled() == old(self).spec_diagnostics_enabled(),
            final(self).spec_state() == old(self).spec_state(),
            final(self).spec_ledger().spec_device_live(),
            final(self).spec_ledger().spec_instance_live(),
            final(self).spec_ledger().spec_subscription_live() == old(self).spec_ledger().spec_subscription_live(),
            !final(self).spec_ledger().spec_torn_down(),
            final(self).spec_ledger().spec_destroyed() == old(self).spec_ledger().spec_destroyed(),
    {
        self.ledger.note_device_created();
    }

    /// Startup is complete: the instance and device exist, the
    /// subscription exactly in diagnostics-enabled builds. The loop
    /// starts pumping events.
    pub fn begin_running(&mut self)
        requires
            old(self).wf(),
            old(self).spec_state() == LoopState::Initializing,
            !old(self).spec_ledger().spec_torn_down(),
            old(self).spec_ledger().spec_instance_live(),
            old(self).spec_ledger().spec_device_live(),
            old(self).spec_ledger().spec_subscription_live() == old(self).spec_diagnostics_enabled(),
        ensures
            final(self).wf(),
            final(self).spec_diagnostics_enabled() == old(self).spec_diagnostics_enabled(),
            final(self).spec_state() == LoopState::Running,
            final(self).spec_ledger() == old(self).spec_ledger(),
    {
        self.state = LoopState::Running;
    }

    /// Applies one window event to the loop, reporting whether this
    /// event stopped it. Resources are untouched: teardown is a
    /// separate, single step once the loop has terminated.
    pub fn handle_event(&mut self, event: UiEvent) -> (stopped: bool)
        requires
            old(self).wf(),
        ensures
            final(self).wf(),
            final(self).spec_diagnostics_enabled() == old(self).spec_diagnostics_enabled(),
            final(self).spec_state() == spec_dispatch(old(self).spec_state(), event),
            stopped == spec_stops_loop(old(self).spec_state(), event),
            final(self).spec_ledger() == old(self).spec_ledger(),
    {
        let (next, stopped) = dispatch_event(self.state, event);
        self.state = next;
        stopped
    }

    /// Tears everything down, children before the instance, and moves
    /// the loop to its terminal state. Runs on the normal exit and on
    /// every startup error path; a second call destroys nothing more.
    pub fn shut_down(&mut self) -> (order: Vec<ResourceKind>)
        requires
            old(self).wf(),
        ensures
            final(self).wf(),
            final(self).spec_diagnostics_enabled() == old(self).spec_diagnostics_enabled(),
            final(self).spec_state() == LoopState::Terminating,
            final(self).spec_ledger().spec_torn_down(),
            !final(self).spec_ledger().spec_instance_live(),
            !final(self).spec_ledger().spec_subscription_live(),
            !final(self).spec_ledger().spec_device_live(),
            old(self).spec_ledger().spec_torn_down() ==> (order@ == Seq::<
                ResourceKind,
            >::empty() && final(self).spec_ledger().spec_destroyed() == old(self).spec_ledger().spec_destroyed()),
            !old(self).spec_ledger().spec_torn_down() ==> (order@ == old(self).spec_ledger().teardown_plan() && final(self).spec_ledger().spec_destroyed() == old(self).spec_ledger().spec_destroyed() + old(self).spec_ledger().teardown_plan()),
    {
        self.state = LoopState::Terminating;
        self.ledger.tear_down()
    }
}

} // verus!
