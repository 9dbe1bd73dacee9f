//! The registry as a mathematical object, and every transition of it.
//!
//! A registry is the sequence of its patterns in the order in which their
//! names were first registered. The functions here say what each operation
//! of the manager does to it; the manager's methods are proved against them.

use vstd::prelude::*;
use crate::client::{
    DrainResponse, HealthCheckResponse, InitializeResponse, StartResponse, StopResponse,
};
use crate::error::{not_found_error, ErrorView};
use crate::pattern::{fresh_pattern, ConnectProgress, PatternView};
use crate::status::StatusView;
use crate::step::{Outcome, Stage, StepView, FIRST_BACKOFF_MS, SETTLE_MS};

verus! {

/// First port of the band that backends listen on.
pub const PORT_BASE: u16 = 9000;

/// Number of ports in the band.
pub const PORT_RANGE: u16 = 1000;

/// The sum of the character codes of `name`.
pub open spec fn code_sum(name: Seq<char>) -> nat
    decreases name.len(),
{
    if name.len() == 0 {
        0
    } else {
        code_sum(name.drop_last()) + name.last() as nat
    }
}

/// The port of the pattern called `name`: the sum of its character codes,
/// folded into the band.
pub open spec fn port_of(name: Seq<char>) -> u16 {
    (PORT_BASE + code_sum(name) % (PORT_RANGE as nat)) as u16
}

/// Every pattern is well formed, and no name occurs twice.
pub open spec fn registry_wf(reg: Seq<PatternView>) -> bool {
    &&& forall|i: int| 0 <= i < reg.len() ==> (#[trigger] reg[i]).wf()
    &&& forall|i: int, j: int|
        0 <= i < reg.len() && 0 <= j < reg.len() && i != j ==> (#[trigger] reg[i]).name != (
        #[trigger] reg[j]).name
}

/// Whether `name` is registered.
pub open spec fn registered(reg: Seq<PatternView>, name: Seq<char>) -> bool {
    exists|i: int| 0 <= i < reg.len() && (#[trigger] reg[i]).name == name
}

/// Where the pattern called `name` stands, if it is registered.
pub open spec fn position(reg: Seq<PatternView>, name: Seq<char>) -> int {
    choose|i: int| 0 <= i < reg.len() && (#[trigger] reg[i]).name == name
}

/// The registered names, in order.
pub open spec fn names(reg: Seq<PatternView>) -> Seq<Seq<char>> {
    reg.map_values(|p: PatternView| p.name)
}

/// The registry after `name` was registered: a fresh pattern stands in place
/// of the one that had the name, or at the end where none had it.
pub open spec fn register(
    reg: Seq<PatternView>,
    name: Seq<char>,
    binary_path: std::path::PathBuf,
) -> Seq<PatternView> {
    if registered(reg, name) {
        reg.update(position(reg, name), fresh_pattern(name, binary_path))
    } else {
        reg.push(fresh_pattern(name, binary_path))
    }
}

/// What observers are shown of the pattern called `name`.
pub open spec fn get_pattern(reg: Seq<PatternView>, name: Seq<char>) -> Option<
    (Seq<char>, StatusView, Option<Seq<char>>),
> {
    if registered(reg, name) {
        Some(reg[position(reg, name)].snapshot())
    } else {
        None
    }
}

/// The end of a start sequence in failure: the status tells the stage and the
/// reason, the error tells them to the caller. Nothing that earlier stages
/// did is undone.
pub open spec fn fail(p: PatternView, stage: Stage, error: ErrorView) -> (PatternView, StepView) {
    (
        p.with_status(StatusView::Failed(stage.status_text() + error.message)),
        StepView::Finished(Err(error.context(stage.error_text()))),
    )
}

/// The beginning of a start sequence: the pattern is `Starting`, and its
/// process is to be launched on `port`.
pub open spec fn begin_start(p: PatternView, port: u16) -> (PatternView, StepView) {
    (
        p.with_status(StatusView::Starting),
        StepView::Spawn { binary_path: p.binary_path, port },
    )
}

/// On to connect attempt number `attempt`.
pub open spec fn enter_connect(p: PatternView, attempt: u32, backoff_ms: u64) -> (
    PatternView,
    StepView,
) {
    match p.connect_request(attempt, backoff_ms) {
        Ok(step) => (p, step),
        Err(error) => fail(p, Stage::Connect, error),
    }
}

/// On to `Initialize`.
pub open spec fn enter_initialize(p: PatternView) -> (PatternView, StepView) {
    match p.initialize_request() {
        Ok(step) => (p, step),
        Err(error) => fail(p, Stage::Initialize, error),
    }
}

/// On to `Start`.
pub open spec fn enter_start(p: PatternView) -> (PatternView, StepView) {
    match p.start_request() {
        Ok(step) => (p, step),
        Err(error) => fail(p, Stage::Start, error),
    }
}

/// The end of a start sequence in success.
pub open spec fn finish_start(p: PatternView) -> (PatternView, StepView) {
    (p.with_status(StatusView::Running), StepView::Finished(Ok(())))
}

/// The end of a stop sequence: the pattern is `Stopped`, holds no process
/// and has no client, whatever happened on the way.
pub open spec fn finish_stop(p: PatternView) -> (PatternView, StepView) {
    (
        p.take_process().0.drop_client().with_status(StatusView::Stopped),
        StepView::Finished(Ok(())),
    )
}

/// On to ending the process, if there is one.
pub open spec fn enter_kill(p: PatternView) -> (PatternView, StepView) {
    let (q, held) = p.take_process();
    if held {
        (q, StepView::Kill)
    } else {
        finish_stop(q)
    }
}

/// The beginning of a stop sequence: the pattern is `Stopping`; the backend
/// is asked to stop if there is a client to ask through.
pub open spec fn begin_stop(p: PatternView) -> (PatternView, StepView) {
    let q = p.with_status(StatusView::Stopping);
    match q.stop_request() {
        Some(step) => (q, step),
        None => enter_kill(q),
    }
}

/// The drain of one pattern: the backend is asked to drain if there is a
/// client to ask through, and otherwise there is nothing to do.
pub open spec fn begin_drain(p: PatternView, timeout_seconds: i32, reason: Seq<char>) -> (
    PatternView,
    StepView,
) {
    match p.drain_request(timeout_seconds, reason) {
        Some(step) => (p, step),
        None => (p, StepView::Finished(Ok(()))),
    }
}

/// How a launch, a wait, a connect or a kill went, if the outcome tells of
/// one.
pub open spec fn completion(outcome: Outcome) -> Option<Result<(), String>> {
    match outcome {
        Outcome::Done => Some(Ok(())),
        Outcome::Failed(message) => Some(Err(message)),
        _ => None,
    }
}

/// The message of a launch, a wait, a connect or a kill that failed; empty
/// where it did not fail.
pub open spec fn failure_text(told: Result<(), String>) -> Seq<char> {
    match told {
        Ok(_) => Seq::empty(),
        Err(message) => message@,
    }
}

/// How `Initialize` went, if the outcome tells of one.
pub open spec fn initialize_reply(outcome: Outcome) -> Option<Result<InitializeResponse, String>> {
    match outcome {
        Outcome::Initialized(response) => Some(Ok(response)),
        Outcome::Failed(message) => Some(Err(message)),
        _ => None,
    }
}

/// How `Start` went, if the outcome tells of one.
pub open spec fn start_reply(outcome: Outcome) -> Option<Result<StartResponse, String>> {
    match outcome {
        Outcome::Started(response) => Some(Ok(response)),
        Outcome::Failed(message) => Some(Err(message)),
        _ => None,
    }
}

/// How `Drain` went, if the outcome tells of one.
pub open spec fn drain_reply(outcome: Outcome) -> Option<Result<DrainResponse, String>> {
    match outcome {
        Outcome::Drained(response) => Some(Ok(response)),
        Outcome::Failed(message) => Some(Err(message)),
        _ => None,
    }
}

/// How `Stop` went, if the outcome tells of one.
pub open spec fn stop_reply(outcome: Outcome) -> Option<Result<StopResponse, String>> {
    match outcome {
        Outcome::Stopped(response) => Some(Ok(response)),
        Outcome::Failed(message) => Some(Err(message)),
        _ => None,
    }
}

/// One transition of a pattern: the step that was performed and its outcome
/// give the pattern's next state and the next step.
///
/// An outcome that does not answer the step changes nothing, and the same
/// step is asked again. A wait that failed is over all the same; a stop call
/// or a kill that failed does not hold up the stop sequence.
///
/// Every connect attempt that fails is followed by its wait, the last one
/// too: the start ends in failure only when that wait is over.
pub open spec fn step_pattern(p: PatternView, step: StepView, outcome: Outcome) -> (
    PatternView,
    StepView,
) {
    match step {
        StepView::Spawn { port, .. } => match completion(outcome) {
            Some(launch) => {
                let (q, result) = p.spawn(port, launch);
                match result {
                    Ok(_) => (q, StepView::Settle { millis: SETTLE_MS }),
                    Err(error) => fail(q, Stage::Spawn, error),
                }
            },
            None => (p, step),
        },
        StepView::Settle { .. } => match completion(outcome) {
            Some(_) => enter_connect(p, 1, FIRST_BACKOFF_MS),
            None => (p, step),
        },
        StepView::Connect { attempt, backoff_ms, .. } => match completion(outcome) {
            Some(channel) => {
                let (q, result) = p.connect_client(attempt, backoff_ms, channel);
                match result {
                    Ok(ConnectProgress::Connected) => enter_initialize(q),
                    Ok(ConnectProgress::Retry { wait_ms, attempt, backoff_ms }) => (
                        q,
                        StepView::Backoff { millis: wait_ms, attempt, backoff_ms },
                    ),
                    Ok(ConnectProgress::GiveUp { wait_ms }) => (
                        q,
                        StepView::GiveUp { millis: wait_ms, error: failure_text(channel) },
                    ),
                    Err(error) => fail(q, Stage::Connect, error),
                }
            },
            None => (p, step),
        },
        StepView::Backoff { attempt, backoff_ms, .. } => match completion(outcome) {
            Some(_) => enter_connect(p, attempt, backoff_ms),
            None => (p, step),
        },
        StepView::GiveUp { error, .. } => match completion(outcome) {
            Some(_) => fail(p, Stage::Connect, p.connect_failure(error)),
            None => (p, step),
        },
        StepView::Initialize { .. } => match initialize_reply(outcome) {
            Some(reply) => {
                let (q, result) = p.initialize_pattern(reply);
                match result {
                    Ok(_) => enter_start(q),
                    Err(error) => fail(q, Stage::Initialize, error),
                }
            },
            None => (p, step),
        },
        StepView::Start => match start_reply(outcome) {
            Some(reply) => match p.start_pattern(reply) {
                Ok(_) => finish_start(p),
                Err(error) => fail(p, Stage::Start, error),
            },
            None => (p, step),
        },
        StepView::Drain { .. } => match drain_reply(outcome) {
            Some(reply) => (p, StepView::Finished(p.drain_pattern(reply))),
            None => (p, step),
        },
        StepView::Stop { .. } => match stop_reply(outcome) {
            Some(_) => enter_kill(p),
            None => (p, step),
        },
        StepView::Kill => match completion(outcome) {
            Some(_) => finish_stop(p),
            None => (p, step),
        },
        StepView::Finished(_) => (p, step),
    }
}

/// The start of the pattern called `name`: not found where the name is not
/// registered; otherwise the pattern is `Starting` and its process is to be
/// launched on the port that belongs to the name.
pub open spec fn start_pattern(reg: Seq<PatternView>, name: Seq<char>) -> (
    Seq<PatternView>,
    Result<StepView, ErrorView>,
) {
    if registered(reg, name) {
        let i = position(reg, name);
        let (p, step) = begin_start(reg[i], port_of(name));
        (reg.update(i, p), Ok(step))
    } else {
        (reg, Err(not_found_error(name)))
    }
}

/// The stop of the pattern called `name`: not found where the name is not
/// registered; otherwise the beginning of its stop sequence.
pub open spec fn stop_pattern(reg: Seq<PatternView>, name: Seq<char>) -> (
    Seq<PatternView>,
    Result<StepView, ErrorView>,
) {
    if registered(reg, name) {
        let i = position(reg, name);
        let (p, step) = begin_stop(reg[i]);
        (reg.update(i, p), Ok(step))
    } else {
        (reg, Err(not_found_error(name)))
    }
}

/// One transition of the pattern called `name`. Where the name is not
/// registered the sequence ends, not found.
pub open spec fn advance(
    reg: Seq<PatternView>,
    name: Seq<char>,
    step: StepView,
    outcome: Outcome,
) -> (Seq<PatternView>, StepView) {
    if registered(reg, name) {
        let i = position(reg, name);
        let (p, next) = step_pattern(reg[i], step, outcome);
        (reg.update(i, p), next)
    } else {
        (reg, StepView::Finished(Err(not_found_error(name))))
    }
}

/// What a health check asks for: the status as it is known, or a probe of
/// the backend.
pub ghost enum HealthStepView {
    Report(StatusView),
    Probe,
}

/// The health check of the pattern called `name`, as far as it goes without
/// a call: not found where the name is not registered; the recorded status
/// where the pattern is not believed to serve; `Uninitialized`, recorded,
/// where it is but has no client; otherwise a probe is due.
pub open spec fn health_check(reg: Seq<PatternView>, name: Seq<char>) -> (
    Seq<PatternView>,
    Result<HealthStepView, ErrorView>,
) {
    if registered(reg, name) {
        let i = position(reg, name);
        let p = reg[i];
        if !p.status.is_running() {
            (reg, Ok(HealthStepView::Report(p.status)))
        } else if p.client is None {
            (
                reg.update(i, p.with_status(StatusView::Uninitialized)),
                Ok(HealthStepView::Report(StatusView::Uninitialized)),
            )
        } else {
            (reg, Ok(HealthStepView::Probe))
        }
    } else {
        (reg, Err(not_found_error(name)))
    }
}

/// The health check of the pattern called `name`, once the probe is back:
/// not found where the name is not registered; the recorded status, kept,
/// where the pattern is not believed to serve or the probe failed; otherwise
/// the probed status, recorded.
pub open spec fn record_health(
    reg: Seq<PatternView>,
    name: Seq<char>,
    reply: Result<HealthCheckResponse, String>,
) -> (Seq<PatternView>, Result<StatusView, ErrorView>) {
    if registered(reg, name) {
        let i = position(reg, name);
        let p = reg[i];
        if !p.status.is_running() {
            (reg, Ok(p.status))
        } else {
            match p.health_check_pattern(reply) {
                Ok(status) => (reg.update(i, p.with_status(status)), Ok(status)),
                Err(_) => (reg, Ok(p.status)),
            }
        }
    } else {
        (reg, Err(not_found_error(name)))
    }
}

/// A transition keeps the pattern's name, and keeps it well formed.
pub proof fn lemma_step_keeps_identity(p: PatternView, step: StepView, outcome: Outcome)
    ensures
        step_pattern(p, step, outcome).0.name == p.name,
        p.wf() ==> step_pattern(p, step, outcome).0.wf(),
{
}

/// The beginning of a stop sequence keeps the pattern's name, and keeps it
/// well formed.
pub proof fn lemma_stop_keeps_identity(p: PatternView)
    ensures
        begin_stop(p).0.name == p.name,
        p.wf() ==> begin_stop(p).0.wf(),
{
}

/// In a well-formed registry a name stands at one place only.
pub proof fn lemma_position(reg: Seq<PatternView>, name: Seq<char>, i: int)
    requires
        registry_wf(reg),
        0 <= i < reg.len(),
        reg[i].name == name,
    ensures
        registered(reg, name),
        position(reg, name) == i,
{
}

/// Replacing a pattern by one of the same name keeps the registry well
/// formed, and every name where it was.
pub proof fn lemma_update_keeps_wf(reg: Seq<PatternView>, i: int, p: PatternView)
    requires
        registry_wf(reg),
        0 <= i < reg.len(),
        p.name == reg[i].name,
        p.wf(),
    ensures
        registry_wf(reg.update(i, p)),
        names(reg.update(i, p)) == names(reg),
        forall|name: Seq<char>| registered(reg.update(i, p), name) == registered(reg, name),
        forall|name: Seq<char>|
            registered(reg, name) ==> position(reg.update(i, p), name) == position(reg, name),
{
    let next = reg.update(i, p);
    assert(names(next) =~= names(reg));
    assert forall|name: Seq<char>| registered(next, name) == registered(reg, name) by {
        if registered(reg, name) {
            let k = position(reg, name);
            assert(next[k].name == name);
        }
        if registered(next, name) {
            let k = position(next, name);
            assert(reg[k].name == name);
        }
    }
    assert forall|name: Seq<char>| registered(reg, name) implies position(next, name)
        == position(reg, name) by {
        let k = position(reg, name);
        assert(next[k].name == name);
        lemma_position(next, name, k);
    }
}

} // verus!

verus! {

/// What is done to every pattern of the registry in turn.
pub ghost enum FleetOpView {
    Drain { timeout_seconds: i32, reason: Seq<char> },
    Stop,
}

/// The failure of one pattern in a run over the registry.
pub ghost struct FailureView {
    pub name: Seq<char>,
    pub error: ErrorView,
}

/// A run over the registry, under way or ended.
pub ghost struct FleetView {
    /// What is done to each pattern.
    pub op: FleetOpView,
    /// Where the pattern stands that the step is for.
    pub cursor: int,
    /// The step in flight; `Finished` once the run has ended.
    pub step: StepView,
    /// The failures so far, in the order of the registry.
    pub failures: Seq<FailureView>,
}

/// The beginning of `op` on one pattern.
pub open spec fn begin_op(p: PatternView, op: FleetOpView) -> (PatternView, StepView) {
    match op {
        FleetOpView::Drain { timeout_seconds, reason } => begin_drain(p, timeout_seconds, reason),
        FleetOpView::Stop => begin_stop(p),
    }
}

/// The failures with the result of the pattern called `name` added, if it is
/// one.
pub open spec fn record(
    failures: Seq<FailureView>,
    name: Seq<char>,
    result: Result<(), ErrorView>,
) -> Seq<FailureView> {
    match result {
        Ok(_) => failures,
        Err(error) => failures.push(FailureView { name, error }),
    }
}

/// The run from the pattern at `cursor` on, up to the first step that needs
/// the host. A pattern whose part ends at once, in success or in failure,
/// does not hold up the ones behind it.
pub open spec fn seek(
    reg: Seq<PatternView>,
    op: FleetOpView,
    cursor: int,
    failures: Seq<FailureView>,
) -> (Seq<PatternView>, FleetView)
    decreases reg.len() - cursor,
{
    if cursor < 0 || cursor >= reg.len() {
        (reg, FleetView { op, cursor, step: StepView::Finished(Ok(())), failures })
    } else {
        let (p, step) = begin_op(reg[cursor], op);
        let next = reg.update(cursor, p);
        match step {
            StepView::Finished(result) => seek(
                next,
                op,
                cursor + 1,
                record(failures, reg[cursor].name, result),
            ),
            _ => (next, FleetView { op, cursor, step, failures }),
        }
    }
}

/// One transition of a run: the step's outcome goes to the pattern at the
/// cursor, and where that pattern's part ends, the run goes on behind it.
/// A run that has ended stays as it is.
pub open spec fn advance_fleet(reg: Seq<PatternView>, fleet: FleetView, outcome: Outcome) -> (
    Seq<PatternView>,
    FleetView,
) {
    if fleet.step is Finished {
        (reg, fleet)
    } else if fleet.cursor < 0 || fleet.cursor >= reg.len() {
        (reg, FleetView { step: StepView::Finished(Ok(())), ..fleet })
    } else {
        let (p, step) = step_pattern(reg[fleet.cursor], fleet.step, outcome);
        let next = reg.update(fleet.cursor, p);
        match step {
            StepView::Finished(result) => seek(
                next,
                fleet.op,
                fleet.cursor + 1,
                record(fleet.failures, reg[fleet.cursor].name, result),
            ),
            _ => (next, FleetView { step, ..fleet }),
        }
    }
}

/// The drain of every pattern, from the first on.
pub open spec fn drain_all_patterns(
    reg: Seq<PatternView>,
    timeout_seconds: i32,
    reason: Seq<char>,
) -> (Seq<PatternView>, FleetView) {
    seek(reg, FleetOpView::Drain { timeout_seconds, reason }, 0, Seq::empty())
}

/// The stop of every pattern, from the first on.
pub open spec fn stop_all_patterns(reg: Seq<PatternView>) -> (Seq<PatternView>, FleetView) {
    seek(reg, FleetOpView::Stop, 0, Seq::empty())
}

/// The name of the pattern that the run's step is for; none once the run has
/// ended.
pub open spec fn fleet_target(reg: Seq<PatternView>, fleet: FleetView) -> Option<Seq<char>> {
    if !(fleet.step is Finished) && 0 <= fleet.cursor < reg.len() {
        Some(reg[fleet.cursor].name)
    } else {
        None
    }
}

/// The beginning of a run's part keeps the pattern's name, and keeps it well
/// formed.
pub proof fn lemma_op_keeps_identity(p: PatternView, op: FleetOpView)
    ensures
        begin_op(p, op).0.name == p.name,
        p.wf() ==> begin_op(p, op).0.wf(),
{
}

} // verus!
