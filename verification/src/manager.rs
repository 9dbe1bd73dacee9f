//! The registry of patterns: the one place where their state is changed.

use vstd::prelude::*;
use vstd::string::*;
use crate::client::{
    lift_status, DrainResponse, HealthCheckResponse, InitializeResponse, StartResponse,
    StopResponse,
};
use crate::error::{lift, ErrorView, LifecycleError};
use crate::fleet::{failure_views, Failure, FleetOp, FleetStep};
use crate::model;
use crate::model::{registry_wf, HealthStepView, PORT_BASE, PORT_RANGE};
use crate::pattern::{text_view, ConnectProgress, Pattern, PatternView};
use crate::status::PatternStatus;
use crate::step::{Outcome, Stage, Step, StepView, FIRST_BACKOFF_MS, SETTLE_MS};
use crate::text::prefixed;

verus! {

/// What a health check asks of the host.
#[derive(Debug, PartialEq, Eq)]
pub enum HealthStep {
    /// No call is needed: this is the pattern's status.
    Report(PatternStatus),
    /// Call `HealthCheck` on the backend and record the reply.
    Probe,
}

impl View for HealthStep {
    type V = HealthStepView;

    open spec fn view(&self) -> HealthStepView {
        match self {
            HealthStep::Report(status) => HealthStepView::Report(status@),
            HealthStep::Probe => HealthStepView::Probe,
        }
    }
}

/// Texts, by their views.
pub open spec fn text_views(texts: Seq<String>) -> Seq<Seq<char>> {
    texts.map_values(|t: String| t@)
}

/// The port of the pattern called `name`. Two names can share a port: the
/// port depends on the sum of the name's character codes alone.
pub fn allocate_port(name: &str) -> (port: u16)
    ensures
        port == model::port_of(name@),
        PORT_BASE <= port < PORT_BASE + PORT_RANGE,
{
    let length = name.unicode_len();
    let mut folded: u32 = 0;
    let mut i: usize = 0;
    while i < length
        invariant
            length == name@.len(),
            i <= length,
            folded == model::code_sum(name@.take(i as int)) % (PORT_RANGE as nat),
        decreases length - i,
    {
        let code = name.get_char(i) as u32;
        proof {
            let before = name@.take(i as int);
            let after = name@.take(i + 1);
            assert(after.drop_last() =~= before);
            assert(after.last() == name@[i as int]);
            vstd::arithmetic::div_mod::lemma_add_mod_noop(
                model::code_sum(before) as int,
                code as int,
                PORT_RANGE as int,
            );
        }
        folded = (folded + code % (PORT_RANGE as u32)) % (PORT_RANGE as u32);
        i += 1;
    }
    proof {
        assert(name@.take(length as int) =~= name@);
    }
    PORT_BASE + (folded as u16)
}

/// How a launch, a wait, a connect or a kill went, if the outcome tells of
/// one.
fn completion(outcome: Outcome) -> (told: Option<Result<(), String>>)
    ensures
        told == model::completion(outcome),
{
    match outcome {
        Outcome::Done => Some(Ok(())),
        Outcome::Failed(message) => Some(Err(message)),
        _ => None,
    }
}

/// The message of a launch, a wait, a connect or a kill that failed; empty
/// where it did not fail.
fn failure_text(told: &Result<(), String>) -> (message: String)
    ensures
        message@ == model::failure_text(*told),
{
    match told {
        Ok(_) => String::new(),
        Err(message) => message.clone(),
    }
}

/// How `Initialize` went, if the outcome tells of one.
fn initialize_reply(outcome: Outcome) -> (told: Option<Result<InitializeResponse, String>>)
    ensures
        told == model::initialize_reply(outcome),
{
    match outcome {
        Outcome::Initialized(response) => Some(Ok(response)),
        Outcome::Failed(message) => Some(Err(message)),
        _ => None,
    }
}

/// How `Start` went, if the outcome tells of one.
fn start_reply(outcome: Outcome) -> (told: Option<Result<StartResponse, String>>)
    ensures
        told == model::start_reply(outcome),
{
    match outcome {
        Outcome::Started(response) => Some(Ok(response)),
        Outcome::Failed(message) => Some(Err(message)),
        _ => None,
    }
}

/// How `Drain` went, if the outcome tells of one.
fn drain_reply(outcome: Outcome) -> (told: Option<Result<DrainResponse, String>>)
    ensures
        told == model::drain_reply(outcome),
{
    match outcome {
        Outcome::Drained(response) => Some(Ok(response)),
        Outcome::Failed(message) => Some(Err(message)),
        _ => None,
    }
}

/// How `Stop` went, if the outcome tells of one.
fn stop_reply(outcome: Outcome) -> (told: Option<Result<StopResponse, String>>)
    ensures
        told == model::stop_reply(outcome),
{
    match outcome {
        Outcome::Stopped(response) => Some(Ok(response)),
        Outcome::Failed(message) => Some(Err(message)),
        _ => None,
    }
}

/// Ends a start sequence in failure at `stage`.
fn fail(pattern: &mut Pattern, stage: Stage, error: LifecycleError) -> (step: Step)
    ensures
        (final(pattern)@, step@) == model::fail(old(pattern)@, stage, error@),
{
    let reason = prefixed(stage.status_prefix(), error.message());
    pattern.set_status(PatternStatus::Failed(reason));
    Step::Finished(Err(error.context(stage.error_prefix())))
}

/// Begins a start sequence.
fn begin_start(pattern: &mut Pattern, port: u16) -> (step: Step)
    ensures
        (final(pattern)@, step@) == model::begin_start(old(pattern)@, port),
{
    pattern.set_status(PatternStatus::Starting);
    pattern.spawn_request(port)
}

/// Goes on to connect attempt number `attempt`.
fn enter_connect(pattern: &mut Pattern, attempt: u32, backoff_ms: u64) -> (step: Step)
    ensures
        (final(pattern)@, step@) == model::enter_connect(old(pattern)@, attempt, backoff_ms),
{
    match pattern.connect_request(attempt, backoff_ms) {
        Ok(step) => step,
        Err(error) => fail(pattern, Stage::Connect, error),
    }
}

/// Goes on to `Initialize`.
fn enter_initialize(pattern: &mut Pattern) -> (step: Step)
    ensures
        (final(pattern)@, step@) == model::enter_initialize(old(pattern)@),
{
    match pattern.initialize_request() {
        Ok(step) => step,
        Err(error) => fail(pattern, Stage::Initialize, error),
    }
}

/// Goes on to `Start`.
fn enter_start(pattern: &mut Pattern) -> (step: Step)
    ensures
        (final(pattern)@, step@) == model::enter_start(old(pattern)@),
{
    match pattern.start_request() {
        Ok(step) => step,
        Err(error) => fail(pattern, Stage::Start, error),
    }
}

/// Ends a stop sequence.
fn finish_stop(pattern: &mut Pattern) -> (step: Step)
    ensures
        (final(pattern)@, step@) == model::finish_stop(old(pattern)@),
{
    pattern.take_process();
    pattern.drop_client();
    pattern.set_status(PatternStatus::Stopped);
    Step::Finished(Ok(()))
}

/// Goes on to ending the process, if there is one.
fn enter_kill(pattern: &mut Pattern) -> (step: Step)
    ensures
        (final(pattern)@, step@) == model::enter_kill(old(pattern)@),
{
    if pattern.take_process() {
        Step::Kill
    } else {
        finish_stop(pattern)
    }
}

/// Begins a stop sequence.
fn begin_stop(pattern: &mut Pattern) -> (step: Step)
    ensures
        (final(pattern)@, step@) == model::begin_stop(old(pattern)@),
{
    pattern.set_status(PatternStatus::Stopping);
    match pattern.stop_request() {
        Some(step) => step,
        None => enter_kill(pattern),
    }
}

/// Begins the drain of one pattern.
fn begin_drain(pattern: &Pattern, timeout_seconds: i32, reason: String) -> (step: Step)
    ensures
        (pattern@, step@) == model::begin_drain(pattern@, timeout_seconds, reason@),
{
    match pattern.drain_request(timeout_seconds, reason) {
        Some(step) => step,
        None => Step::Finished(Ok(())),
    }
}

/// Makes one transition of `pattern`.
fn drive(pattern: &mut Pattern, step: Step, outcome: Outcome) -> (next: Step)
    ensures
        (final(pattern)@, next@) == model::step_pattern(old(pattern)@, step@, outcome),
{
    match step {
        Step::Spawn { binary_path, port } => match completion(outcome) {
            Some(launch) => match pattern.spawn(port, launch) {
                Ok(_) => Step::Settle { millis: SETTLE_MS },
                Err(error) => fail(pattern, Stage::Spawn, error),
            },
            None => Step::Spawn { binary_path, port },
        },
        Step::Settle { millis } => match completion(outcome) {
            Some(_) => enter_connect(pattern, 1, FIRST_BACKOFF_MS),
            None => Step::Settle { millis },
        },
        Step::Connect { endpoint, attempt, backoff_ms } => match completion(outcome) {
            Some(channel) => {
                let error = failure_text(&channel);
                match pattern.connect_client(attempt, backoff_ms, channel) {
                    Ok(ConnectProgress::Connected) => enter_initialize(pattern),
                    Ok(ConnectProgress::Retry { wait_ms, attempt, backoff_ms }) => Step::Backoff {
                        millis: wait_ms,
                        attempt,
                        backoff_ms,
                    },
                    Ok(ConnectProgress::GiveUp { wait_ms }) => Step::GiveUp {
                        millis: wait_ms,
                        error,
                    },
                    Err(error) => fail(pattern, Stage::Connect, error),
                }
            },
            None => Step::Connect { endpoint, attempt, backoff_ms },
        },
        Step::Backoff { millis, attempt, backoff_ms } => match completion(outcome) {
            Some(_) => enter_connect(pattern, attempt, backoff_ms),
            None => Step::Backoff { millis, attempt, backoff_ms },
        },
        Step::GiveUp { millis, error } => match completion(outcome) {
            Some(_) => {
                let failure = pattern.connect_failure(error);
                fail(pattern, Stage::Connect, failure)
            },
            None => Step::GiveUp { millis, error },
        },
        Step::Initialize { name, version, config } => match initialize_reply(outcome) {
            Some(reply) => match pattern.initialize_pattern(reply) {
                Ok(_) => enter_start(pattern),
                Err(error) => fail(pattern, Stage::Initialize, error),
            },
            None => Step::Initialize { name, version, config },
        },
        Step::Start => match start_reply(outcome) {
            Some(reply) => match pattern.start_pattern(reply) {
                Ok(_) => {
                    pattern.set_status(PatternStatus::Running);
                    Step::Finished(Ok(()))
                },
                Err(error) => fail(pattern, Stage::Start, error),
            },
            None => Step::Start,
        },
        Step::Drain { timeout_seconds, reason } => match drain_reply(outcome) {
            Some(reply) => Step::Finished(pattern.drain_pattern(reply)),
            None => Step::Drain { timeout_seconds, reason },
        },
        Step::Stop { timeout_seconds } => match stop_reply(outcome) {
            Some(_) => enter_kill(pattern),
            None => Step::Stop { timeout_seconds },
        },
        Step::Kill => match completion(outcome) {
            Some(_) => finish_stop(pattern),
            None => Step::Kill,
        },
        Step::Finished(result) => Step::Finished(result),
    }
}

/// The registry of patterns, by name. Every change of a pattern's state goes
/// through it.
#[derive(Debug)]
pub struct PatternManager {
    patterns: Vec<Pattern>,
}

impl View for PatternManager {
    type V = Seq<PatternView>;

    closed spec fn view(&self) -> Seq<PatternView> {
        self.patterns@.map_values(|p: Pattern| p@)
    }
}

impl Default for PatternManager {
    fn default() -> (manager: Self)
        ensures
            manager@ == Seq::<PatternView>::empty(),
    {
        PatternManager::new()
    }
}

impl PatternManager {
    /// A registry without patterns.
    pub fn new() -> (manager: PatternManager)
        ensures
            manager@ == Seq::<PatternView>::empty(),
            registry_wf(manager@),
    {
        let manager = PatternManager { patterns: Vec::new() };
        assert(manager@ =~= Seq::<PatternView>::empty());
        manager
    }

    /// Where the pattern called `name` stands.
    fn find(&self, name: &str) -> (found: Option<usize>)
        requires
            registry_wf(self@),
        ensures
            match found {
                Some(i) => i < self.patterns.len() && model::registered(self@, name@)
                    && model::position(self@, name@) == i,
                None => !model::registered(self@, name@),
            },
    {
        let key = String::from_str(name);
        let mut i: usize = 0;
        while i < self.patterns.len()
            invariant
                i <= self.patterns.len(),
                key@ == name@,
                registry_wf(self@),
                forall|j: int| 0 <= j < i ==> (#[trigger] self@[j]).name != name@,
            decreases self.patterns.len() - i,
        {
            assert(self@[i as int] == self.patterns@[i as int]@);
            if self.patterns[i].has_name(&key) {
                proof {
                    model::lemma_position(self@, name@, i as int);
                }
                return Some(i);
            }
            i += 1;
        }
        None
    }

    /// Registers `name` with the binary at `binary_path`. A pattern that had
    /// the name is replaced by a fresh one. This always succeeds.
    pub fn register_pattern(&mut self, name: String, binary_path: std::path::PathBuf) -> (result:
        Result<(), LifecycleError>)
        requires
            registry_wf(old(self)@),
        ensures
            result is Ok,
            final(self)@ == model::register(old(self)@, name@, binary_path),
            registry_wf(final(self)@),
    {
        let found = self.find(name.as_str());
        let ghost before = self@;
        let ghost fresh = crate::pattern::fresh_pattern(name@, binary_path);
        match found {
            Some(i) => {
                self.patterns[i] = Pattern::new(name, binary_path);
                proof {
                    assert(self@ =~= before.update(i as int, fresh));
                    model::lemma_update_keeps_wf(before, i as int, fresh);
                }
            },
            None => {
                self.patterns.push(Pattern::new(name, binary_path));
                proof {
                    assert(self@ =~= before.push(fresh));
                }
            },
        }
        Ok(())
    }

    /// What observers are shown of the pattern called `name`: its name, its
    /// status and its endpoint; `None` where the name is not registered.
    pub fn get_pattern(&self, name: &str) -> (shown: Option<(String, PatternStatus, Option<String>)>)
        requires
            registry_wf(self@),
        ensures
            match shown {
                Some(s) => Some((s.0@, s.1@, text_view(s.2))),
                None => None,
            } == model::get_pattern(self@, name@),
    {
        match self.find(name) {
            Some(i) => Some(self.patterns[i].snapshot()),
            None => None,
        }
    }

    /// The registered names, in the order in which they were first
    /// registered.
    pub fn list_patterns(&self) -> (listed: Vec<String>)
        ensures
            text_views(listed@) == model::names(self@),
    {
        let mut listed: Vec<String> = Vec::new();
        let mut i: usize = 0;
        while i < self.patterns.len()
            invariant
                i <= self.patterns.len(),
                text_views(listed@) =~= model::names(self@).take(i as int),
            decreases self.patterns.len() - i,
        {
            let ghost before = listed@;
            let name = String::from_str(self.patterns[i].name());
            listed.push(name);
            proof {
                assert(self@[i as int] == self.patterns@[i as int]@);
                assert(text_views(listed@) =~= text_views(before).push(name@));
                assert(model::names(self@).take(i + 1) =~= model::names(self@).take(i as int).push(
                    name@,
                ));
            }
            i += 1;
        }
        assert(model::names(self@).take(i as int) =~= model::names(self@));
        listed
    }

    /// Begins the start sequence of the pattern called `name`. Where the name
    /// is not registered this fails, not found, and nothing changes.
    /// Otherwise the pattern is `Starting` and the first step is to launch
    /// its process on the port that belongs to the name.
    ///
    /// A start does not ask whether another start of the same pattern is
    /// under way, nor whether the pattern holds a process already: the host
    /// serializes the sequences of one pattern, and stops a pattern before
    /// it starts it again.
    pub fn start_pattern(&mut self, name: &str) -> (result: Result<Step, LifecycleError>)
        requires
            registry_wf(old(self)@),
        ensures
            (
                final(self)@,
                match result {
                    Ok(step) => Ok::<StepView, ErrorView>(step@),
                    Err(error) => Err(error@),
                },
            ) == model::start_pattern(old(self)@, name@),
            registry_wf(final(self)@),
    {
        let ghost before = self@;
        match self.find(name) {
            Some(i) => {
                let port = allocate_port(name);
                let step = begin_start(&mut self.patterns[i], port);
                proof {
                    assert(self@ =~= before.update(i as int, self@[i as int]));
                    model::lemma_update_keeps_wf(before, i as int, self@[i as int]);
                }
                Ok(step)
            },
            None => Err(LifecycleError::not_found(name)),
        }
    }

    /// Begins the stop sequence of the pattern called `name`. Where the name
    /// is not registered this fails, not found, and nothing changes.
    /// Otherwise the pattern is `Stopping`, and what follows ends in
    /// `Stopped` whatever the host reports, without process and without
    /// client.
    pub fn stop_pattern(&mut self, name: &str) -> (result: Result<Step, LifecycleError>)
        requires
            registry_wf(old(self)@),
        ensures
            (
                final(self)@,
                match result {
                    Ok(step) => Ok::<StepView, ErrorView>(step@),
                    Err(error) => Err(error@),
                },
            ) == model::stop_pattern(old(self)@, name@),
            registry_wf(final(self)@),
    {
        let ghost before = self@;
        match self.find(name) {
            Some(i) => {
                let step = begin_stop(&mut self.patterns[i]);
                proof {
                    model::lemma_stop_keeps_identity(before[i as int]);
                    assert(self@ =~= before.update(i as int, self@[i as int]));
                    model::lemma_update_keeps_wf(before, i as int, self@[i as int]);
                }
                Ok(step)
            },
            None => Err(LifecycleError::not_found(name)),
        }
    }

    /// Takes the outcome of `step`, performed for the pattern called `name`,
    /// and gives the next step. Where the name is not registered the
    /// sequence ends, not found.
    pub fn advance(&mut self, name: &str, step: Step, outcome: Outcome) -> (next: Step)
        requires
            registry_wf(old(self)@),
        ensures
            (final(self)@, next@) == model::advance(old(self)@, name@, step@, outcome),
            registry_wf(final(self)@),
    {
        let ghost before = self@;
        match self.find(name) {
            Some(i) => {
                let next = drive(&mut self.patterns[i], step, outcome);
                proof {
                    model::lemma_step_keeps_identity(before[i as int], step@, outcome);
                    assert(self@ =~= before.update(i as int, self@[i as int]));
                    model::lemma_update_keeps_wf(before, i as int, self@[i as int]);
                }
                next
            },
            None => Step::Finished(Err(LifecycleError::not_found(name))),
        }
    }

    /// Checks the health of the pattern called `name` as far as no call is
    /// needed. Where the name is not registered this fails, not found. A
    /// pattern that is not `Running` or `Degraded` reports its status as it
    /// is. One that is, but has no client, becomes `Uninitialized` and
    /// reports that. Otherwise a probe is due.
    pub fn health_check(&mut self, name: &str) -> (result: Result<HealthStep, LifecycleError>)
        requires
            registry_wf(old(self)@),
        ensures
            (
                final(self)@,
                match result {
                    Ok(step) => Ok::<HealthStepView, ErrorView>(step@),
                    Err(error) => Err(error@),
                },
            ) == model::health_check(old(self)@, name@),
            registry_wf(final(self)@),
    {
        let ghost before = self@;
        match self.find(name) {
            Some(i) => {
                if !self.patterns[i].is_running() {
                    Ok(HealthStep::Report(self.patterns[i].status().clone()))
                } else if !self.patterns[i].has_client() {
                    self.patterns[i].set_status(PatternStatus::Uninitialized);
                    proof {
                        assert(self@ =~= before.update(i as int, self@[i as int]));
                        model::lemma_update_keeps_wf(before, i as int, self@[i as int]);
                    }
                    Ok(HealthStep::Report(PatternStatus::Uninitialized))
                } else {
                    Ok(HealthStep::Probe)
                }
            },
            None => Err(LifecycleError::not_found(name)),
        }
    }

    /// Records the reply to a health probe of the pattern called `name`.
    /// Where the name is not registered this fails, not found. A probe that
    /// failed is no failure: the recorded status is kept and returned. So it
    /// is where the pattern is not `Running` or `Degraded`. Otherwise the
    /// probed status is recorded and returned.
    pub fn record_health(&mut self, name: &str, reply: Result<HealthCheckResponse, String>) -> (result:
        Result<PatternStatus, LifecycleError>)
        requires
            registry_wf(old(self)@),
        ensures
            (final(self)@, lift_status(result)) == model::record_health(old(self)@, name@, reply),
            registry_wf(final(self)@),
    {
        let ghost before = self@;
        match self.find(name) {
            Some(i) => {
                if !self.patterns[i].is_running() {
                    return Ok(self.patterns[i].status().clone());
                }
                match self.patterns[i].health_check_pattern(reply) {
                    Ok(status) => {
                        self.patterns[i].set_status(status.clone());
                        proof {
                            assert(self@ =~= before.update(i as int, self@[i as int]));
                            model::lemma_update_keeps_wf(before, i as int, self@[i as int]);
                        }
                        Ok(status)
                    },
                    Err(_) => Ok(self.patterns[i].status().clone()),
                }
            },
            None => Err(LifecycleError::not_found(name)),
        }
    }
}

/// Begins `op` on one pattern.
fn begin_op(pattern: &mut Pattern, op: &FleetOp) -> (step: Step)
    ensures
        (final(pattern)@, step@) == model::begin_op(old(pattern)@, op@),
{
    match op {
        FleetOp::Drain { timeout_seconds, reason } => begin_drain(
            pattern,
            *timeout_seconds,
            reason.clone(),
        ),
        FleetOp::Stop => begin_stop(pattern),
    }
}

/// Adds the result of the pattern called `name` to the failures, if it is
/// one.
fn record(failures: &mut Vec<Failure>, name: &str, result: Result<(), LifecycleError>)
    ensures
        failure_views(final(failures)@) == model::record(
            failure_views(old(failures)@),
            name@,
            lift(result),
        ),
{
    match result {
        Ok(_) => {},
        Err(error) => {
            let failure = Failure { name: String::from_str(name), error };
            failures.push(failure);
            assert(failure_views(failures@) =~= failure_views(old(failures)@).push(failure@));
        },
    }
}

impl PatternManager {
    /// Goes on with a run from the pattern at `start`.
    fn seek(&mut self, op: FleetOp, start: usize, known: Vec<Failure>) -> (fleet: FleetStep)
        requires
            registry_wf(old(self)@),
            start <= old(self)@.len(),
        ensures
            (final(self)@, fleet@) == model::seek(
                old(self)@,
                op@,
                start as int,
                failure_views(known@),
            ),
            registry_wf(final(self)@),
    {
        let ghost goal = model::seek(self@, op@, start as int, failure_views(known@));
        let mut cursor = start;
        let mut failures = known;
        while cursor < self.patterns.len()
            invariant
                cursor <= self.patterns.len(),
                registry_wf(self@),
                goal == model::seek(old(self)@, op@, start as int, failure_views(known@)),
                model::seek(self@, op@, cursor as int, failure_views(failures@)) == goal,
            decreases self.patterns.len() - cursor,
        {
            let ghost before = self@;
            let step = begin_op(&mut self.patterns[cursor], &op);
            proof {
                model::lemma_op_keeps_identity(before[cursor as int], op@);
                assert(self@ =~= before.update(cursor as int, self@[cursor as int]));
                model::lemma_update_keeps_wf(before, cursor as int, self@[cursor as int]);
            }
            match step {
                Step::Finished(result) => {
                    record(&mut failures, self.patterns[cursor].name(), result);
                    cursor += 1;
                },
                other => {
                    proof {
                        let began = model::begin_op(before[cursor as int], op@);
                        assert(self@ == before.update(cursor as int, began.0));
                        assert(model::seek(
                            before,
                            op@,
                            cursor as int,
                            failure_views(failures@),
                        ) == (
                            self@,
                            model::FleetView {
                                op: op@,
                                cursor: cursor as int,
                                step: other@,
                                failures: failure_views(failures@),
                            },
                        ));
                    }
                    return FleetStep { op, cursor, step: other, failures };
                },
            }
        }
        FleetStep { op, cursor, step: Step::Finished(Ok(())), failures }
    }

    /// Begins the drain of every pattern: each backend that has a client is
    /// asked to drain within `timeout_seconds`, for `reason`, in the order
    /// of the registry. A pattern without a client is passed over.
    pub fn drain_all_patterns(&mut self, timeout_seconds: i32, reason: String) -> (fleet: FleetStep)
        requires
            registry_wf(old(self)@),
        ensures
            (final(self)@, fleet@) == model::drain_all_patterns(
                old(self)@,
                timeout_seconds,
                reason@,
            ),
            registry_wf(final(self)@),
    {
        let failures: Vec<Failure> = Vec::new();
        assert(failure_views(failures@) =~= Seq::empty());
        self.seek(FleetOp::Drain { timeout_seconds, reason }, 0, failures)
    }

    /// Begins the stop of every pattern, in the order of the registry. Each
    /// pattern goes through its stop sequence and ends `Stopped`.
    pub fn stop_all_patterns(&mut self) -> (fleet: FleetStep)
        requires
            registry_wf(old(self)@),
        ensures
            (final(self)@, fleet@) == model::stop_all_patterns(old(self)@),
            registry_wf(final(self)@),
    {
        let failures: Vec<Failure> = Vec::new();
        assert(failure_views(failures@) =~= Seq::empty());
        self.seek(FleetOp::Stop, 0, failures)
    }

    /// Takes the outcome of the run's step and gives the run's next state.
    /// Where the part of the pattern at the cursor has ended, its failure,
    /// if it is one, is recorded and the run goes on with the patterns
    /// behind it.
    pub fn advance_fleet(&mut self, fleet: FleetStep, outcome: Outcome) -> (next: FleetStep)
        requires
            registry_wf(old(self)@),
        ensures
            (final(self)@, next@) == model::advance_fleet(old(self)@, fleet@, outcome),
            registry_wf(final(self)@),
    {
        let ghost before = self@;
        let FleetStep { op, cursor, step, failures } = fleet;
        if step.is_finished() {
            return FleetStep { op, cursor, step, failures };
        }
        if cursor >= self.patterns.len() {
            return FleetStep { op, cursor, step: Step::Finished(Ok(())), failures };
        }
        let next = drive(&mut self.patterns[cursor], step, outcome);
        proof {
            model::lemma_step_keeps_identity(before[cursor as int], step@, outcome);
            assert(self@ =~= before.update(cursor as int, self@[cursor as int]));
            model::lemma_update_keeps_wf(before, cursor as int, self@[cursor as int]);
        }
        match next {
            Step::Finished(result) => {
                let mut failures = failures;
                record(&mut failures, self.patterns[cursor].name(), result);
                self.seek(op, cursor + 1, failures)
            },
            other => FleetStep { op, cursor, step: other, failures },
        }
    }

    /// The name of the pattern that the run's step is for; `None` once the
    /// run has ended.
    pub fn fleet_target(&self, fleet: &FleetStep) -> (name: Option<String>)
        ensures
            text_view(name) == model::fleet_target(self@, fleet@),
    {
        if !fleet.step.is_finished() && fleet.cursor < self.patterns.len() {
            assert(self@[fleet.cursor as int] == self.patterns@[fleet.cursor as int]@);
            Some(String::from_str(self.patterns[fleet.cursor].name()))
        } else {
            None
        }
    }
}

} // verus!
