//! What holds of a pattern's start and stop sequences, whatever the host
//! reports.

use vstd::prelude::*;
use crate::client::{transport_error, InitializeResponse, StartResponse};
use crate::error::{no_client_error, no_endpoint_error, ErrorKind, ErrorView};
use crate::model::{
    advance, completion, fail, drain_reply, get_pattern, initialize_reply, lemma_step_keeps_identity,
    lemma_stop_keeps_identity, lemma_update_keeps_wf, port_of, position, registered,
    registry_wf, start_pattern, start_reply, step_pattern, stop_pattern, stop_reply,
};
use crate::pattern::{next_backoff, process_error, PatternView};
use crate::status::StatusView;
use crate::step::{
    Outcome, Stage, StepView, FIRST_BACKOFF_MS, MAX_BACKOFF_MS, MAX_CONNECT_ATTEMPTS, SETTLE_MS,
};
use crate::text::endpoint_text;

verus! {

/// Whether the outcome tells how the step went.
pub open spec fn answers(step: StepView, outcome: Outcome) -> bool {
    match step {
        StepView::Spawn { .. } | StepView::Settle { .. } | StepView::Connect { .. }
        | StepView::Backoff { .. } | StepView::GiveUp { .. } | StepView::Kill => completion(
            outcome,
        ) is Some,
        StepView::Initialize { .. } => initialize_reply(outcome) is Some,
        StepView::Start => start_reply(outcome) is Some,
        StepView::Drain { .. } => drain_reply(outcome) is Some,
        StepView::Stop { .. } => stop_reply(outcome) is Some,
        StepView::Finished(_) => false,
    }
}

/// An outcome that does not tell how the step went changes nothing, and the
/// same step is asked again.
pub proof fn law_unanswered_step_stays(p: PatternView, step: StepView, outcome: Outcome)
    requires
        !answers(step, outcome),
    ensures
        step_pattern(p, step, outcome) == (p, step),
{
}

/// Whether the step belongs to a start sequence.
pub open spec fn is_start_step(step: StepView) -> bool {
    step is Spawn || step is Settle || step is Connect || step is Backoff || step is GiveUp
        || step is Initialize || step is Start
}

/// Whether the step belongs to a stop sequence.
pub open spec fn is_stop_step(step: StepView) -> bool {
    step is Stop || step is Kill
}

/// Whether the status and the error both tell of `cause` at `stage`.
pub open spec fn tells_failure(
    status: StatusView,
    error: ErrorView,
    stage: Stage,
    cause: ErrorView,
) -> bool {
    &&& status == StatusView::Failed(stage.status_text() + cause.message)
    &&& error == cause.context(stage.error_text())
}

/// A start sequence ends in one of two ways: in success with the pattern
/// `Running`, or in failure with the pattern `Failed`, where the status and
/// the error tell of the same cause at the same stage. Until then every step
/// is followed by another step of the start sequence.
pub proof fn law_start_ends_running_or_failed(p: PatternView, step: StepView, outcome: Outcome)
    requires
        is_start_step(step),
    ensures
        ({
            let (q, next) = step_pattern(p, step, outcome);
            match next {
                StepView::Finished(Ok(_)) => q.status == StatusView::Running,
                StepView::Finished(Err(error)) => exists|stage: Stage, cause: ErrorView|
                    tells_failure(q.status, error, stage, cause),
                _ => is_start_step(next),
            }
        }),
{
    let (q, next) = step_pattern(p, step, outcome);
    if let StepView::Finished(Err(error)) = next {
        if step is Spawn {
            assert(tells_failure(
                q.status,
                error,
                Stage::Spawn,
                process_error(outcome->Failed_0@),
            ));
        } else if step is Settle || step is Backoff {
            assert(tells_failure(q.status, error, Stage::Connect, no_endpoint_error()));
        } else if step is Connect {
            if p.grpc_endpoint is None {
                assert(tells_failure(q.status, error, Stage::Connect, no_endpoint_error()));
            } else {
                assert(tells_failure(q.status, error, Stage::Initialize, no_client_error()));
            }
        } else if step is GiveUp {
            assert(tells_failure(
                q.status,
                error,
                Stage::Connect,
                transport_error(step->GiveUp_error),
            ));
        } else if step is Initialize {
            let reply = initialize_reply(outcome)->Some_0;
            let result = p.initialize_pattern(reply).1;
            if result is Err {
                assert(tells_failure(q.status, error, Stage::Initialize, result->Err_0));
            } else {
                assert(tells_failure(q.status, error, Stage::Start, no_client_error()));
            }
        } else {
            let reply = start_reply(outcome)->Some_0;
            assert(tells_failure(q.status, error, Stage::Start, p.start_pattern(reply)->Err_0));
        }
    }
}

/// A start whose launch fails ends at once: the caller gets the operating
/// system's message as an error, the pattern is `Failed` with that message,
/// and it is still registered, with the endpoint it had.
pub proof fn law_failed_launch_ends_failed(
    reg: Seq<PatternView>,
    name: Seq<char>,
    message: String,
)
    requires
        registry_wf(reg),
        registered(reg, name),
    ensures
        ({
            let (started, first) = start_pattern(reg, name);
            let (ended, last) = advance(started, name, first->Ok_0, Outcome::Failed(message));
            &&& first is Ok
            &&& first->Ok_0 is Spawn
            &&& last == StepView::Finished(
                Err(process_error(message@).context(Stage::Spawn.error_text())),
            )
            &&& registry_wf(ended)
            &&& get_pattern(ended, name) == Some(
                (
                    name,
                    StatusView::Failed(Stage::Spawn.status_text() + message@),
                    reg[position(reg, name)].grpc_endpoint,
                ),
            )
        }),
{
    let i = position(reg, name);
    let (started, first) = start_pattern(reg, name);
    lemma_update_keeps_wf(reg, i, started[i]);
    let (ended, last) = advance(started, name, first->Ok_0, Outcome::Failed(message));
    lemma_update_keeps_wf(started, i, ended[i]);
}

/// A start in which every step succeeds ends with the pattern `Running`: it
/// holds a process, its endpoint is the one on the port of its name, its
/// client is bound to that endpoint, and its version is the one that the
/// backend reported.
pub proof fn law_start_succeeds(
    reg: Seq<PatternView>,
    name: Seq<char>,
    initialized: InitializeResponse,
    started: StartResponse,
)
    requires
        registry_wf(reg),
        registered(reg, name),
        initialized.success,
        started.success,
    ensures
        ({
            let p = reg[position(reg, name)];
            let endpoint = endpoint_text(port_of(name));
            let (r0, s0) = start_pattern(reg, name);
            let (r1, s1) = advance(r0, name, s0->Ok_0, Outcome::Done);
            let (r2, s2) = advance(r1, name, s1, Outcome::Done);
            let (r3, s3) = advance(r2, name, s2, Outcome::Done);
            let (r4, s4) = advance(r3, name, s3, Outcome::Initialized(initialized));
            let (r5, s5) = advance(r4, name, s4, Outcome::Started(started));
            &&& s0 == Ok::<StepView, ErrorView>(
                StepView::Spawn { binary_path: p.binary_path, port: port_of(name) },
            )
            &&& s1 == StepView::Settle { millis: SETTLE_MS }
            &&& s2 == StepView::Connect { endpoint, attempt: 1, backoff_ms: FIRST_BACKOFF_MS }
            &&& s3 == StepView::Initialize { name, version: p.version, config: p.config }
            &&& s4 == StepView::Start
            &&& s5 == StepView::Finished(Ok(()))
            &&& registry_wf(r5)
            &&& registered(r5, name)
            &&& r5[position(r5, name)] == PatternView {
                status: StatusView::Running,
                process: true,
                grpc_endpoint: Some(endpoint),
                client: Some(endpoint),
                ..p.described(initialized.metadata)
            }
        }),
{
    let i = position(reg, name);
    let (r0, s0) = start_pattern(reg, name);
    lemma_update_keeps_wf(reg, i, r0[i]);
    let (r1, s1) = advance(r0, name, s0->Ok_0, Outcome::Done);
    lemma_update_keeps_wf(r0, i, r1[i]);
    let (r2, s2) = advance(r1, name, s1, Outcome::Done);
    lemma_update_keeps_wf(r1, i, r2[i]);
    let (r3, s3) = advance(r2, name, s2, Outcome::Done);
    lemma_update_keeps_wf(r2, i, r3[i]);
    let (r4, s4) = advance(r3, name, s3, Outcome::Initialized(initialized));
    lemma_update_keeps_wf(r3, i, r4[i]);
    let (r5, s5) = advance(r4, name, s4, Outcome::Started(started));
    lemma_update_keeps_wf(r4, i, r5[i]);
}

/// Every connect attempt that fails is followed by its wait, on a pattern
/// that has an endpoint. The wait between two attempts never exceeds
/// `MAX_BACKOFF_MS`, and no attempt is followed by another once
/// `MAX_CONNECT_ATTEMPTS` were made: the wait of the last one is followed by
/// the end of the start, with that attempt's failure.
pub proof fn law_connect_retries_are_bounded(
    p: PatternView,
    endpoint: Seq<char>,
    attempt: u32,
    backoff_ms: u64,
    outcome: Outcome,
)
    ensures
        ({
            let next = step_pattern(
                p,
                StepView::Connect { endpoint, attempt, backoff_ms },
                outcome,
            ).1;
            &&& outcome is Failed && p.grpc_endpoint is Some ==> next == if attempt
                < MAX_CONNECT_ATTEMPTS {
                StepView::Backoff {
                    millis: backoff_ms,
                    attempt: (attempt + 1) as u32,
                    backoff_ms: next_backoff(backoff_ms),
                }
            } else {
                StepView::GiveUp { millis: backoff_ms, error: outcome->Failed_0@ }
            }
            &&& next is Backoff ==> {
                &&& attempt < MAX_CONNECT_ATTEMPTS
                &&& next->Backoff_attempt == attempt + 1
                &&& next->Backoff_millis == backoff_ms
                &&& next->Backoff_backoff_ms <= MAX_BACKOFF_MS
                &&& next->Backoff_backoff_ms == if 2 * backoff_ms < MAX_BACKOFF_MS {
                    2 * backoff_ms
                } else {
                    MAX_BACKOFF_MS as int
                }
            }
            &&& next is GiveUp ==> attempt >= MAX_CONNECT_ATTEMPTS
        }),
        forall|millis: u64, error: Seq<char>, waited: Outcome|
            answers(StepView::GiveUp { millis, error }, waited) ==> #[trigger] step_pattern(
                p,
                StepView::GiveUp { millis, error },
                waited,
            ) == fail(p, Stage::Connect, transport_error(error)),
{
}

/// The waits of a start, added up: what each `Backoff` and `GiveUp` step
/// asks for.
pub open spec fn backoff_total(steps: Seq<StepView>) -> nat
    decreases steps.len(),
{
    if steps.len() == 0 {
        0
    } else {
        backoff_total(steps.drop_last()) + match steps.last() {
            StepView::Backoff { millis, .. } => millis as nat,
            StepView::GiveUp { millis, .. } => millis as nat,
            _ => 0,
        }
    }
}

/// A pattern with an endpoint whose backend never listens: five connect
/// attempts are made, each followed by its wait, of 100, 200, 400, 800 and
/// 1600 milliseconds, 3100 in all. When the fifth wait is over the start
/// ends: the pattern is `Failed` with the last transport message, and the
/// error tells the same.
pub proof fn law_connect_gives_up_after_five(
    p: PatternView,
    e1: String,
    e2: String,
    e3: String,
    e4: String,
    e5: String,
)
    requires
        p.grpc_endpoint is Some,
    ensures
        ({
            let endpoint = p.grpc_endpoint->Some_0;
            let settled = step_pattern(p, StepView::Settle { millis: SETTLE_MS }, Outcome::Done);
            let failed1 = step_pattern(p, settled.1, Outcome::Failed(e1));
            let waited1 = step_pattern(p, failed1.1, Outcome::Done);
            let failed2 = step_pattern(p, waited1.1, Outcome::Failed(e2));
            let waited2 = step_pattern(p, failed2.1, Outcome::Done);
            let failed3 = step_pattern(p, waited2.1, Outcome::Failed(e3));
            let waited3 = step_pattern(p, failed3.1, Outcome::Done);
            let failed4 = step_pattern(p, waited3.1, Outcome::Failed(e4));
            let waited4 = step_pattern(p, failed4.1, Outcome::Done);
            let failed5 = step_pattern(p, waited4.1, Outcome::Failed(e5));
            let waited5 = step_pattern(p, failed5.1, Outcome::Done);
            &&& settled == (p, StepView::Connect { endpoint, attempt: 1, backoff_ms: 100 })
            &&& failed1 == (p, StepView::Backoff { millis: 100, attempt: 2, backoff_ms: 200 })
            &&& waited1 == (p, StepView::Connect { endpoint, attempt: 2, backoff_ms: 200 })
            &&& failed2 == (p, StepView::Backoff { millis: 200, attempt: 3, backoff_ms: 400 })
            &&& waited2 == (p, StepView::Connect { endpoint, attempt: 3, backoff_ms: 400 })
            &&& failed3 == (p, StepView::Backoff { millis: 400, attempt: 4, backoff_ms: 800 })
            &&& waited3 == (p, StepView::Connect { endpoint, attempt: 4, backoff_ms: 800 })
            &&& failed4 == (p, StepView::Backoff { millis: 800, attempt: 5, backoff_ms: 1600 })
            &&& waited4 == (p, StepView::Connect { endpoint, attempt: 5, backoff_ms: 1600 })
            &&& failed5 == (p, StepView::GiveUp { millis: 1600, error: e5@ })
            &&& backoff_total(seq![failed1.1, failed2.1, failed3.1, failed4.1, failed5.1]) == 3100
            &&& waited5 == (
                p.with_status(StatusView::Failed("gRPC connect failed: "@ + e5@)),
                StepView::Finished(
                    Err(
                        ErrorView {
                            kind: ErrorKind::Transport,
                            message: "Failed to connect gRPC client: "@ + e5@,
                        },
                    ),
                ),
            )
        }),
{
    let settled = step_pattern(p, StepView::Settle { millis: SETTLE_MS }, Outcome::Done);
    let failed1 = step_pattern(p, settled.1, Outcome::Failed(e1));
    let waited1 = step_pattern(p, failed1.1, Outcome::Done);
    let failed2 = step_pattern(p, waited1.1, Outcome::Failed(e2));
    let waited2 = step_pattern(p, failed2.1, Outcome::Done);
    let failed3 = step_pattern(p, waited2.1, Outcome::Failed(e3));
    let waited3 = step_pattern(p, failed3.1, Outcome::Done);
    let failed4 = step_pattern(p, waited3.1, Outcome::Failed(e4));
    let waited4 = step_pattern(p, failed4.1, Outcome::Done);
    let failed5 = step_pattern(p, waited4.1, Outcome::Failed(e5));
    let none = Seq::<StepView>::empty();
    let one = none.push(failed1.1);
    let two = one.push(failed2.1);
    let three = two.push(failed3.1);
    let four = three.push(failed4.1);
    let five = four.push(failed5.1);
    assert(one.drop_last() =~= none);
    assert(two.drop_last() =~= one);
    assert(three.drop_last() =~= two);
    assert(four.drop_last() =~= three);
    assert(five.drop_last() =~= four);
    assert(backoff_total(none) == 0);
    assert(backoff_total(one) == 100);
    assert(backoff_total(two) == 300);
    assert(backoff_total(three) == 700);
    assert(backoff_total(four) == 1500);
    assert(backoff_total(five) == 3100);
    assert(five =~= seq![failed1.1, failed2.1, failed3.1, failed4.1, failed5.1]);
}

/// A stop sequence never fails and never leaves the stop sequence: every
/// step is followed by another step of it or by its end, and at its end the
/// pattern is `Stopped`, holds no process and has no client, whatever the
/// backend and the operating system answered.
pub proof fn law_stop_ends_stopped(p: PatternView, step: StepView, outcome: Outcome)
    requires
        is_stop_step(step),
    ensures
        ({
            let (q, next) = step_pattern(p, step, outcome);
            &&& next is Finished ==> next == StepView::Finished(Ok(())) && q.status
                == StatusView::Stopped && !q.process && q.client is None
            &&& !(next is Finished) ==> is_stop_step(next)
            &&& step is Kill ==> next is Kill || next is Finished
        }),
{
}

/// The stop of a registered pattern always completes, in success: after two
/// answered steps at most the pattern is `Stopped`, holds no process and has
/// no client, whether the backend stopped of its own accord or not, and
/// whether the process could be ended or not.
pub proof fn law_stop_completes(
    reg: Seq<PatternView>,
    name: Seq<char>,
    first: Outcome,
    second: Outcome,
)
    requires
        registry_wf(reg),
        registered(reg, name),
        ({
            let (r0, s0) = stop_pattern(reg, name);
            let (r1, s1) = advance(r0, name, s0->Ok_0, first);
            &&& s0->Ok_0 is Finished || answers(s0->Ok_0, first)
            &&& s1 is Finished || answers(s1, second)
        }),
    ensures
        ({
            let (r0, s0) = stop_pattern(reg, name);
            let (r1, s1) = advance(r0, name, s0->Ok_0, first);
            let (r2, s2) = advance(r1, name, s1, second);
            &&& s0 is Ok
            &&& s2 == StepView::Finished(Ok(()))
            &&& registry_wf(r2)
            &&& get_pattern(r2, name) == Some(
                (name, StatusView::Stopped, reg[position(reg, name)].grpc_endpoint),
            )
            &&& !r2[position(r2, name)].process
            &&& r2[position(r2, name)].client is None
        }),
{
    let i = position(reg, name);
    let (r0, s0) = stop_pattern(reg, name);
    lemma_stop_keeps_identity(reg[i]);
    lemma_update_keeps_wf(reg, i, r0[i]);
    let (r1, s1) = advance(r0, name, s0->Ok_0, first);
    lemma_step_keeps_identity(r0[i], s0->Ok_0, first);
    lemma_update_keeps_wf(r0, i, r1[i]);
    let (r2, s2) = advance(r1, name, s1, second);
    lemma_step_keeps_identity(r1[i], s1, second);
    lemma_update_keeps_wf(r1, i, r2[i]);
}

/// Stopping a pattern that was never started ends at once, in success, with
/// the pattern `Stopped`.
pub proof fn law_stop_of_unstarted(reg: Seq<PatternView>, name: Seq<char>)
    requires
        registry_wf(reg),
        registered(reg, name),
        reg[position(reg, name)].client is None,
        !reg[position(reg, name)].process,
    ensures
        stop_pattern(reg, name).1 == Ok::<StepView, ErrorView>(StepView::Finished(Ok(()))),
        registry_wf(stop_pattern(reg, name).0),
        get_pattern(stop_pattern(reg, name).0, name) == Some(
            (name, StatusView::Stopped, reg[position(reg, name)].grpc_endpoint),
        ),
{
    let i = position(reg, name);
    let stopped = stop_pattern(reg, name).0;
    lemma_update_keeps_wf(reg, i, stopped[i]);
}

} // verus!
