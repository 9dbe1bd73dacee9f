//! The gateway's own state, and the sequence that takes it from serving to
//! stopped.
//!
//! The shutdown runs in five phases, each after the one before: enter drain
//! mode; ask every backend to drain; wait, up to a deadline, until the
//! frontend connections are gone; stop every backend; stop the listener.
//! Nothing in it blocks for ever: a backend that fails and a client that
//! never hangs up delay it, and do not stop it.

use vstd::prelude::*;
use crate::fleet::FleetStep;
use crate::manager::PatternManager;
use crate::model;
use crate::model::{registry_wf, FleetView};
use crate::pattern::PatternView;
use crate::step::Outcome;

verus! {

/// Milliseconds between two looks at the number of frontend connections.
pub const POLL_INTERVAL_MS: u64 = 100;

/// Milliseconds that the listener is given to unwind.
pub const LISTENER_SETTLE_MS: u64 = 100;

/// Where the gateway stands between serving and stopped. The state only moves
/// forward: from `Running` to `Draining` to `Stopping`.
#[derive(Debug, Clone, Copy, PartialEq, Eq, Structural)]
pub enum DrainState {
    /// Serving normally.
    Running,
    /// Refusing new work while accepted work completes. `started_at` is the
    /// host's clock, in milliseconds, when drain mode was entered.
    Draining { started_at: u64 },
    /// Stopping the backends.
    Stopping,
}

impl DrainState {
    /// Position of the state in the order `Running`, `Draining`, `Stopping`.
    pub open spec fn rank(self) -> nat {
        match self {
            DrainState::Running => 0,
            DrainState::Draining { .. } => 1,
            DrainState::Stopping => 2,
        }
    }

    /// Whether new inbound work may still be accepted: only while `Running`.
    pub fn accepts_new_work(&self) -> (accepts: bool)
        ensures
            accepts == (self.rank() == 0),
    {
        match self {
            DrainState::Running => true,
            _ => false,
        }
    }
}

/// The gateway's bookkeeping: where it listens, whether its listener runs,
/// and how far a shutdown has come.
#[derive(Debug)]
pub struct ProxyServer {
    listen_address: String,
    listening: bool,
    drain_state: DrainState,
}

/// The mathematical value of a `ProxyServer`.
pub ghost struct ServerView {
    pub listen_address: Seq<char>,
    pub listening: bool,
    pub drain_state: DrainState,
}

impl View for ProxyServer {
    type V = ServerView;

    closed spec fn view(&self) -> ServerView {
        ServerView {
            listen_address: self.listen_address@,
            listening: self.listening,
            drain_state: self.drain_state,
        }
    }
}

/// One piece of outside work of the shutdown, or its end.
#[derive(Debug, PartialEq, Eq)]
pub enum ShutdownStep {
    /// The backends are being asked to drain: perform the run's step for the
    /// run's pattern and report its outcome.
    DrainPatterns { fleet: FleetStep, timeout_ms: u64 },
    /// Wait `wait_ms`, then report the clock and the number of frontend
    /// connections. `since_ms` is the clock at the first such report.
    AwaitConnections { wait_ms: u64, since_ms: Option<u64>, timeout_ms: u64 },
    /// The backends are being stopped: perform the run's step for the run's
    /// pattern and report its outcome.
    StopPatterns { fleet: FleetStep },
    /// Tell the listener to stop accepting and to unwind.
    StopListener,
    /// Wait `millis` for the listener to unwind.
    Settle { millis: u64 },
    /// The gateway is stopped.
    Finished,
}

/// The mathematical value of a `ShutdownStep`.
pub ghost enum ShutdownView {
    DrainPatterns { fleet: FleetView, timeout_ms: u64 },
    AwaitConnections { wait_ms: u64, since_ms: Option<u64>, timeout_ms: u64 },
    StopPatterns { fleet: FleetView },
    StopListener,
    Settle { millis: u64 },
    Finished,
}

impl View for ShutdownStep {
    type V = ShutdownView;

    open spec fn view(&self) -> ShutdownView {
        match self {
            ShutdownStep::DrainPatterns { fleet, timeout_ms } => ShutdownView::DrainPatterns {
                fleet: fleet@,
                timeout_ms: *timeout_ms,
            },
            ShutdownStep::AwaitConnections {
                wait_ms,
                since_ms,
                timeout_ms,
            } => ShutdownView::AwaitConnections {
                wait_ms: *wait_ms,
                since_ms: *since_ms,
                timeout_ms: *timeout_ms,
            },
            ShutdownStep::StopPatterns { fleet } => ShutdownView::StopPatterns { fleet: fleet@ },
            ShutdownStep::StopListener => ShutdownView::StopListener,
            ShutdownStep::Settle { millis } => ShutdownView::Settle { millis: *millis },
            ShutdownStep::Finished => ShutdownView::Finished,
        }
    }
}

/// What the host observed when it performed a step of the shutdown.
#[derive(Debug, Clone, PartialEq, Eq)]
pub enum ShutdownEvent {
    /// The outcome of a run's step.
    Pattern(Outcome),
    /// The clock, in milliseconds, and the number of frontend connections
    /// that are still open.
    Observed { now_ms: u64, active: usize },
    /// The listener was told, or the wait is over.
    Done,
}

/// The state after drain mode was entered at `now_ms`. A gateway that is
/// `Stopping` already stays so.
pub open spec fn enter_draining(state: DrainState, now_ms: u64) -> DrainState {
    match state {
        DrainState::Stopping => DrainState::Stopping,
        _ => DrainState::Draining { started_at: now_ms },
    }
}

/// The budget that the backends are told: the whole seconds of the timeout,
/// as the 32 bits that the call carries. A timeout of 2^31 seconds or more
/// does not fit and is cut to its low 32 bits.
pub open spec fn drain_seconds(timeout_ms: u64) -> i32 {
    (timeout_ms / 1000) as i32
}

/// Whether the wait that began at `since_ms` has gone on for more than
/// `timeout_ms` at `now_ms`.
pub open spec fn deadline_passed(now_ms: u64, since_ms: u64, timeout_ms: u64) -> bool {
    now_ms > since_ms + timeout_ms
}

/// After the drain run: on to the wait for the frontend connections once the
/// run has ended.
pub open spec fn after_drain(
    s: ServerView,
    reg: Seq<PatternView>,
    fleet: FleetView,
    timeout_ms: u64,
) -> (ServerView, Seq<PatternView>, ShutdownView) {
    if fleet.step is Finished {
        (s, reg, ShutdownView::AwaitConnections { wait_ms: 0, since_ms: None, timeout_ms })
    } else {
        (s, reg, ShutdownView::DrainPatterns { fleet, timeout_ms })
    }
}

/// On to the listener: it is told to stop if it runs, and given time to
/// unwind either way.
pub open spec fn enter_listener_stop(s: ServerView, reg: Seq<PatternView>) -> (
    ServerView,
    Seq<PatternView>,
    ShutdownView,
) {
    if s.listening {
        (ServerView { listening: false, ..s }, reg, ShutdownView::StopListener)
    } else {
        (s, reg, ShutdownView::Settle { millis: LISTENER_SETTLE_MS })
    }
}

/// After the stop run: on to the listener once the run has ended.
pub open spec fn after_stop(s: ServerView, reg: Seq<PatternView>, fleet: FleetView) -> (
    ServerView,
    Seq<PatternView>,
    ShutdownView,
) {
    if fleet.step is Finished {
        enter_listener_stop(s, reg)
    } else {
        (s, reg, ShutdownView::StopPatterns { fleet })
    }
}

/// On to stopping: the gateway is `Stopping`, and every backend is stopped in
/// turn.
pub open spec fn enter_stopping(s: ServerView, reg: Seq<PatternView>) -> (
    ServerView,
    Seq<PatternView>,
    ShutdownView,
) {
    let (stopped, fleet) = model::stop_all_patterns(reg);
    after_stop(ServerView { drain_state: DrainState::Stopping, ..s }, stopped, fleet)
}

/// The beginning of the shutdown at `now_ms`: the gateway enters drain mode
/// and every backend is asked to drain.
pub open spec fn drain_and_shutdown(
    s: ServerView,
    reg: Seq<PatternView>,
    timeout_ms: u64,
    reason: Seq<char>,
    now_ms: u64,
) -> (ServerView, Seq<PatternView>, ShutdownView) {
    let (drained, fleet) = model::drain_all_patterns(reg, drain_seconds(timeout_ms), reason);
    after_drain(
        ServerView { drain_state: enter_draining(s.drain_state, now_ms), ..s },
        drained,
        fleet,
        timeout_ms,
    )
}

/// One transition of the shutdown. An event that does not answer the step
/// changes nothing, and the same step is asked again.
///
/// The wait for the frontend connections ends when none is open, or when it
/// has gone on for more than the timeout, whichever comes first.
pub open spec fn advance_shutdown(
    s: ServerView,
    reg: Seq<PatternView>,
    step: ShutdownView,
    event: ShutdownEvent,
) -> (ServerView, Seq<PatternView>, ShutdownView) {
    match step {
        ShutdownView::DrainPatterns { fleet, timeout_ms } => match event {
            ShutdownEvent::Pattern(outcome) => {
                let (drained, next) = model::advance_fleet(reg, fleet, outcome);
                after_drain(s, drained, next, timeout_ms)
            },
            _ => (s, reg, step),
        },
        ShutdownView::AwaitConnections { since_ms, timeout_ms, .. } => match event {
            ShutdownEvent::Observed { now_ms, active } => {
                let since = match since_ms {
                    Some(t) => t,
                    None => now_ms,
                };
                if active == 0 || deadline_passed(now_ms, since, timeout_ms) {
                    enter_stopping(s, reg)
                } else {
                    (
                        s,
                        reg,
                        ShutdownView::AwaitConnections {
                            wait_ms: POLL_INTERVAL_MS,
                            since_ms: Some(since),
                            timeout_ms,
                        },
                    )
                }
            },
            _ => (s, reg, step),
        },
        ShutdownView::StopPatterns { fleet } => match event {
            ShutdownEvent::Pattern(outcome) => {
                let (stopped, next) = model::advance_fleet(reg, fleet, outcome);
                after_stop(s, stopped, next)
            },
            _ => (s, reg, step),
        },
        ShutdownView::StopListener => match event {
            ShutdownEvent::Done => (s, reg, ShutdownView::Settle { millis: LISTENER_SETTLE_MS }),
            _ => (s, reg, step),
        },
        ShutdownView::Settle { .. } => match event {
            ShutdownEvent::Done => (s, reg, ShutdownView::Finished),
            _ => (s, reg, step),
        },
        ShutdownView::Finished => (s, reg, step),
    }
}

impl ProxyServer {
    /// A gateway that serves on `listen_address` once its listener is
    /// started.
    pub fn new(listen_address: String) -> (server: ProxyServer)
        ensures
            server@ == (ServerView {
                listen_address: listen_address@,
                listening: false,
                drain_state: DrainState::Running,
            }),
    {
        ProxyServer { listen_address, listening: false, drain_state: DrainState::Running }
    }

    /// The address that the listener binds.
    pub fn listen_address(&self) -> (address: &str)
        ensures
            address@ == self@.listen_address,
    {
        self.listen_address.as_str()
    }

    /// Whether the listener runs.
    pub fn is_listening(&self) -> (listening: bool)
        ensures
            listening == self@.listening,
    {
        self.listening
    }

    /// How far a shutdown has come.
    pub fn get_drain_state(&self) -> (state: DrainState)
        ensures
            state == self@.drain_state,
    {
        self.drain_state
    }

    /// Records that the host has started the listener.
    pub fn start(&mut self)
        ensures
            final(self)@ == (ServerView { listening: true, ..old(self)@ }),
    {
        self.listening = true;
    }

    /// Records that the listener is stopped, and says whether the host has a
    /// listener to tell.
    pub fn shutdown(&mut self) -> (signal: bool)
        ensures
            signal == old(self)@.listening,
            final(self)@ == (ServerView { listening: false, ..old(self)@ }),
    {
        let signal = self.listening;
        self.listening = false;
        signal
    }

    /// What follows the drain run.
    fn after_drain(&self, fleet: FleetStep, timeout_ms: u64) -> (step: ShutdownStep)
        ensures
            forall|reg: Seq<PatternView>|
                (self@, reg, step@) == #[trigger] after_drain(self@, reg, fleet@, timeout_ms),
    {
        if fleet.is_finished() {
            ShutdownStep::AwaitConnections { wait_ms: 0, since_ms: None, timeout_ms }
        } else {
            ShutdownStep::DrainPatterns { fleet, timeout_ms }
        }
    }

    /// Goes on to the listener.
    fn enter_listener_stop(&mut self) -> (step: ShutdownStep)
        ensures
            forall|reg: Seq<PatternView>|
                (final(self)@, reg, step@) == #[trigger] enter_listener_stop(old(self)@, reg),
    {
        if self.shutdown() {
            ShutdownStep::StopListener
        } else {
            ShutdownStep::Settle { millis: LISTENER_SETTLE_MS }
        }
    }

    /// What follows the stop run.
    fn after_stop(&mut self, fleet: FleetStep) -> (step: ShutdownStep)
        ensures
            forall|reg: Seq<PatternView>|
                (final(self)@, reg, step@) == #[trigger] after_stop(old(self)@, reg, fleet@),
    {
        if fleet.is_finished() {
            self.enter_listener_stop()
        } else {
            ShutdownStep::StopPatterns { fleet }
        }
    }

    /// Goes on to stopping the backends.
    fn enter_stopping(&mut self, manager: &mut PatternManager) -> (step: ShutdownStep)
        requires
            registry_wf(old(manager)@),
        ensures
            (final(self)@, final(manager)@, step@) == enter_stopping(old(self)@, old(manager)@),
            registry_wf(final(manager)@),
    {
        self.drain_state = DrainState::Stopping;
        let fleet = manager.stop_all_patterns();
        let ghost entered = self@;
        let ghost run = fleet@;
        let step = self.after_stop(fleet);
        assert((self@, manager@, step@) == after_stop(entered, manager@, run));
        step
    }

    /// Begins the shutdown at `now_ms` on the host's clock. The gateway
    /// enters drain mode, unless it is `Stopping` already, and every backend
    /// that has a client is asked to drain within the whole seconds of
    /// `timeout_ms`, for `reason`.
    pub fn drain_and_shutdown(
        &mut self,
        manager: &mut PatternManager,
        timeout_ms: u64,
        reason: String,
        now_ms: u64,
    ) -> (step: ShutdownStep)
        requires
            registry_wf(old(manager)@),
        ensures
            (final(self)@, final(manager)@, step@) == drain_and_shutdown(
                old(self)@,
                old(manager)@,
                timeout_ms,
                reason@,
                now_ms,
            ),
            registry_wf(final(manager)@),
    {
        self.drain_state = match self.drain_state {
            DrainState::Stopping => DrainState::Stopping,
            _ => DrainState::Draining { started_at: now_ms },
        };
        let seconds = #[verifier::truncate] ((timeout_ms / 1000) as i32);
        let fleet = manager.drain_all_patterns(seconds, reason);
        self.after_drain(fleet, timeout_ms)
    }

    /// Takes what the host observed when it performed `step`, and gives the
    /// next step of the shutdown.
    pub fn advance_shutdown(
        &mut self,
        manager: &mut PatternManager,
        step: ShutdownStep,
        event: ShutdownEvent,
    ) -> (next: ShutdownStep)
        requires
            registry_wf(old(manager)@),
        ensures
            (final(self)@, final(manager)@, next@) == advance_shutdown(
                old(self)@,
                old(manager)@,
                step@,
                event,
            ),
            registry_wf(final(manager)@),
    {
        match step {
            ShutdownStep::DrainPatterns { fleet, timeout_ms } => match event {
                ShutdownEvent::Pattern(outcome) => {
                    let next = manager.advance_fleet(fleet, outcome);
                    self.after_drain(next, timeout_ms)
                },
                _ => ShutdownStep::DrainPatterns { fleet, timeout_ms },
            },
            ShutdownStep::AwaitConnections { wait_ms, since_ms, timeout_ms } => match event {
                ShutdownEvent::Observed { now_ms, active } => {
                    let since = match since_ms {
                        Some(t) => t,
                        None => now_ms,
                    };
                    let passed = now_ms > since && now_ms - since > timeout_ms;
                    if active == 0 || passed {
                        self.enter_stopping(manager)
                    } else {
                        ShutdownStep::AwaitConnections {
                            wait_ms: POLL_INTERVAL_MS,
                            since_ms: Some(since),
                            timeout_ms,
                        }
                    }
                },
                _ => ShutdownStep::AwaitConnections { wait_ms, since_ms, timeout_ms },
            },
            ShutdownStep::StopPatterns { fleet } => match event {
                ShutdownEvent::Pattern(outcome) => {
                    let next = manager.advance_fleet(fleet, outcome);
                    self.after_stop(next)
                },
                _ => ShutdownStep::StopPatterns { fleet },
            },
            ShutdownStep::StopListener => match event {
                ShutdownEvent::Done => ShutdownStep::Settle { millis: LISTENER_SETTLE_MS },
                _ => ShutdownStep::StopListener,
            },
            ShutdownStep::Settle { millis } => match event {
                ShutdownEvent::Done => ShutdownStep::Finished,
                _ => ShutdownStep::Settle { millis },
            },
            ShutdownStep::Finished => ShutdownStep::Finished,
        }
    }
}

} // verus!
