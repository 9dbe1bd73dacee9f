//! What holds of the runs over the registry and of the gateway's shutdown:
//! above all, that the shutdown completes.

use vstd::prelude::*;
use crate::laws::lifecycle::{answers, is_stop_step};
use crate::model::{
    advance_fleet, begin_op, lemma_op_keeps_identity, lemma_update_keeps_wf, names, record,
    registry_wf, seek, step_pattern, stop_all_patterns, FailureView, FleetOpView, FleetView,
};
use crate::pattern::PatternView;
use crate::server::{
    advance_shutdown, deadline_passed, drain_and_shutdown, DrainState, ServerView,
    ShutdownEvent, ShutdownView, POLL_INTERVAL_MS,
};
use crate::status::StatusView;
use crate::step::{Outcome, StepView};

verus! {

/// A run over the registry keeps it well formed and keeps every name at its
/// place, whatever it does to the patterns.
pub proof fn law_run_keeps_names(
    reg: Seq<PatternView>,
    op: FleetOpView,
    cursor: int,
    failures: Seq<FailureView>,
)
    requires
        registry_wf(reg),
    ensures
        registry_wf(seek(reg, op, cursor, failures).0),
        names(seek(reg, op, cursor, failures).0) == names(reg),
    decreases reg.len() - cursor,
{
    if 0 <= cursor < reg.len() {
        let (p, step) = begin_op(reg[cursor], op);
        lemma_op_keeps_identity(reg[cursor], op);
        lemma_update_keeps_wf(reg, cursor, p);
        if let StepView::Finished(result) = step {
            law_run_keeps_names(
                reg.update(cursor, p),
                op,
                cursor + 1,
                record(failures, reg[cursor].name, result),
            );
        }
    }
}

/// A drain only asks: it changes no pattern, whether it begins, goes on or
/// ends, and whatever the backends answer.
pub proof fn law_drain_changes_nothing(
    reg: Seq<PatternView>,
    timeout_seconds: i32,
    reason: Seq<char>,
    cursor: int,
    failures: Seq<FailureView>,
    step: StepView,
    outcome: Outcome,
)
    ensures
        seek(reg, FleetOpView::Drain { timeout_seconds, reason }, cursor, failures).0 == reg,
        step is Drain || step is Finished ==> advance_fleet(
            reg,
            FleetView { op: FleetOpView::Drain { timeout_seconds, reason }, cursor, step, failures },
            outcome,
        ).0 == reg,
    decreases reg.len() - cursor,
{
    let op = FleetOpView::Drain { timeout_seconds, reason };
    if 0 <= cursor < reg.len() {
        let (p, began) = begin_op(reg[cursor], op);
        assert(reg.update(cursor, p) =~= reg);
        law_drain_changes_nothing(
            reg,
            timeout_seconds,
            reason,
            cursor + 1,
            record(failures, reg[cursor].name, began->Finished_0),
            step,
            outcome,
        );
        if step is Drain {
            let (q, next) = step_pattern(reg[cursor], step, outcome);
            assert(reg.update(cursor, q) =~= reg);
            if next is Finished {
                law_drain_changes_nothing(
                    reg,
                    timeout_seconds,
                    reason,
                    cursor + 1,
                    record(failures, reg[cursor].name, next->Finished_0),
                    step,
                    outcome,
                );
            }
        }
    }
}

/// Whether the backend is reaped: the pattern is `Stopped`, holds no process
/// and has no client.
pub open spec fn is_reaped(p: PatternView) -> bool {
    &&& p.status == StatusView::Stopped
    &&& !p.process
    &&& p.client is None
}

/// Whether every pattern that stands before `upto` is reaped.
pub open spec fn reaped_before(reg: Seq<PatternView>, upto: int) -> bool {
    forall|i: int| 0 <= i < reg.len() && i < upto ==> is_reaped(#[trigger] reg[i])
}

/// Whether every pattern of the registry is reaped.
pub open spec fn all_reaped(reg: Seq<PatternView>) -> bool {
    reaped_before(reg, reg.len() as int)
}

/// Whether the run is a stop run in a state that the manager gives out: its
/// step is a step of the stop of the pattern at the cursor, every pattern
/// before the cursor is reaped already, and once the run has ended every
/// pattern is.
pub open spec fn is_stop_run(reg: Seq<PatternView>, fleet: FleetView) -> bool {
    &&& fleet.op is Stop
    &&& fleet.step is Finished || (is_stop_step(fleet.step) && 0 <= fleet.cursor < reg.len())
    &&& reaped_before(reg, fleet.cursor)
    &&& fleet.step is Finished ==> all_reaped(reg)
}

/// How many answered steps a stop run needs at most until it has ended: two
/// for each pattern behind the cursor, and what the step in flight needs.
pub open spec fn stop_run_bound(reg: Seq<PatternView>, fleet: FleetView) -> nat {
    match fleet.step {
        StepView::Stop { .. } => (2 + 2 * (reg.len() - fleet.cursor - 1)) as nat,
        StepView::Kill => (1 + 2 * (reg.len() - fleet.cursor - 1)) as nat,
        _ => 0,
    }
}

/// A stop run that goes on from `cursor`, behind patterns that are reaped,
/// is a stop run, over a registry of the same length, and needs two answered
/// steps for each pattern from the cursor on at most.
pub proof fn law_stop_run_from(reg: Seq<PatternView>, cursor: int, failures: Seq<FailureView>)
    requires
        0 <= cursor <= reg.len(),
        reaped_before(reg, cursor),
    ensures
        ({
            let (stopped, fleet) = seek(reg, FleetOpView::Stop, cursor, failures);
            &&& stopped.len() == reg.len()
            &&& is_stop_run(stopped, fleet)
            &&& stop_run_bound(stopped, fleet) <= 2 * (reg.len() - cursor)
            &&& fleet.failures == failures
        }),
    decreases reg.len() - cursor,
{
    if cursor < reg.len() {
        let (p, step) = begin_op(reg[cursor], FleetOpView::Stop);
        let next = reg.update(cursor, p);
        if let StepView::Finished(result) = step {
            assert(is_reaped(p));
            assert(reaped_before(next, cursor + 1)) by {
                assert forall|i: int| 0 <= i < next.len() && i < cursor + 1 implies is_reaped(
                    #[trigger] next[i],
                ) by {
                    if i < cursor {
                        assert(next[i] == reg[i]);
                    }
                }
            }
            law_stop_run_from(next, cursor + 1, record(failures, reg[cursor].name, result));
        } else {
            assert forall|i: int| 0 <= i < next.len() && i < cursor implies is_reaped(
                #[trigger] next[i],
            ) by {
                assert(next[i] == reg[i]);
            }
        }
    }
}

/// The stop of every pattern begins as a stop run, whatever stands in the
/// registry.
pub proof fn law_stop_all_begins_stop_run(reg: Seq<PatternView>)
    ensures
        is_stop_run(stop_all_patterns(reg).0, stop_all_patterns(reg).1),
        stop_all_patterns(reg).0.len() == reg.len(),
{
    law_stop_run_from(reg, 0, Seq::empty());
}

/// When a stop run has ended, every backend is reaped: each pattern of the
/// registry is `Stopped`, holds no process and has no client.
pub proof fn law_ended_stop_run_has_reaped_all(reg: Seq<PatternView>, fleet: FleetView)
    requires
        is_stop_run(reg, fleet),
        fleet.step is Finished,
    ensures
        forall|i: int|
            0 <= i < reg.len() ==> (#[trigger] reg[i]).status == StatusView::Stopped
                && !reg[i].process && reg[i].client is None,
{
}

/// An answered step of a stop run brings its end nearer, leaves reaped what
/// was reaped, and records no failure: a stop of every pattern cannot fail.
pub proof fn law_stop_run_progresses(reg: Seq<PatternView>, fleet: FleetView, outcome: Outcome)
    requires
        is_stop_run(reg, fleet),
        !(fleet.step is Finished),
        answers(fleet.step, outcome),
    ensures
        ({
            let (stopped, next) = advance_fleet(reg, fleet, outcome);
            &&& stopped.len() == reg.len()
            &&& is_stop_run(stopped, next)
            &&& stop_run_bound(stopped, next) < stop_run_bound(reg, fleet)
            &&& next.failures == fleet.failures
        }),
{
    let (p, step) = step_pattern(reg[fleet.cursor], fleet.step, outcome);
    let next = reg.update(fleet.cursor, p);
    if let StepView::Finished(result) = step {
        assert(is_reaped(p));
        assert forall|i: int| 0 <= i < next.len() && i < fleet.cursor + 1 implies is_reaped(
            #[trigger] next[i],
        ) by {
            if i < fleet.cursor {
                assert(next[i] == reg[i]);
            }
        }
        law_stop_run_from(
            next,
            fleet.cursor + 1,
            record(fleet.failures, reg[fleet.cursor].name, result),
        );
    } else {
        assert forall|i: int| 0 <= i < next.len() && i < fleet.cursor implies is_reaped(
            #[trigger] next[i],
        ) by {
            assert(next[i] == reg[i]);
        }
    }
}

/// The gateway's drain state only moves forward: neither the beginning of a
/// shutdown nor any of its transitions takes it back.
pub proof fn law_drain_state_moves_forward(
    s: ServerView,
    reg: Seq<PatternView>,
    step: ShutdownView,
    event: ShutdownEvent,
    timeout_ms: u64,
    reason: Seq<char>,
    now_ms: u64,
)
    ensures
        advance_shutdown(s, reg, step, event).0.drain_state.rank() >= s.drain_state.rank(),
        drain_and_shutdown(s, reg, timeout_ms, reason, now_ms).0.drain_state.rank()
            >= s.drain_state.rank(),
        drain_and_shutdown(s, reg, timeout_ms, reason, now_ms).0.drain_state.rank() >= 1,
{
}

/// The wait for the frontend connections ends with the first look after the
/// deadline, however many connections are still open; and it ends with the
/// first look that finds none open, however early.
pub proof fn law_wait_ends_at_deadline(
    s: ServerView,
    reg: Seq<PatternView>,
    wait_ms: u64,
    since_ms: u64,
    timeout_ms: u64,
    now_ms: u64,
    active: usize,
)
    requires
        active == 0 || deadline_passed(now_ms, since_ms, timeout_ms),
    ensures
        ({
            let waiting = ShutdownView::AwaitConnections {
                wait_ms,
                since_ms: Some(since_ms),
                timeout_ms,
            };
            let (t, stopped, next) = advance_shutdown(
                s,
                reg,
                waiting,
                ShutdownEvent::Observed { now_ms, active },
            );
            &&& !(next is AwaitConnections)
            &&& !(next is DrainPatterns)
            &&& t.drain_state == DrainState::Stopping
        }),
{
}

/// While the wait for the frontend connections goes on, the deadline has not
/// passed, and the next look is asked for one poll interval later: so the
/// wait overruns the deadline by one poll interval at most.
pub proof fn law_wait_overruns_by_one_poll(
    s: ServerView,
    reg: Seq<PatternView>,
    wait_ms: u64,
    since_ms: Option<u64>,
    timeout_ms: u64,
    now_ms: u64,
    active: usize,
)
    ensures
        ({
            let waiting = ShutdownView::AwaitConnections { wait_ms, since_ms, timeout_ms };
            let (t, same, next) = advance_shutdown(
                s,
                reg,
                waiting,
                ShutdownEvent::Observed { now_ms, active },
            );
            let since = if since_ms is Some {
                since_ms->Some_0
            } else {
                now_ms
            };
            next is AwaitConnections ==> {
                &&& next == ShutdownView::AwaitConnections {
                    wait_ms: POLL_INTERVAL_MS,
                    since_ms: Some(since),
                    timeout_ms,
                }
                &&& active > 0
                &&& now_ms <= since + timeout_ms
                &&& now_ms + POLL_INTERVAL_MS <= since + timeout_ms + POLL_INTERVAL_MS
                &&& t == s
                &&& same == reg
            }
        }),
{
}

/// Whether the shutdown has come to stopping the backends or further, in a
/// state that the gateway gives out: while the backends are being stopped
/// the run is a stop run, and from the listener's turn on every backend is
/// reaped.
pub open spec fn is_stopping(reg: Seq<PatternView>, step: ShutdownView) -> bool {
    match step {
        ShutdownView::StopPatterns { fleet } => is_stop_run(reg, fleet) && !(fleet.step
            is Finished),
        ShutdownView::StopListener | ShutdownView::Settle { .. } | ShutdownView::Finished =>
            all_reaped(reg),
        _ => false,
    }
}

/// How many answered steps the shutdown needs at most until the gateway is
/// stopped, once it has come to stopping the backends.
pub open spec fn shutdown_bound(reg: Seq<PatternView>, step: ShutdownView) -> nat {
    match step {
        ShutdownView::StopPatterns { fleet } => stop_run_bound(reg, fleet) + 2,
        ShutdownView::StopListener => 2,
        ShutdownView::Settle { .. } => 1,
        _ => 0,
    }
}

/// Whether the event tells how the step of the shutdown went.
pub open spec fn answers_shutdown(step: ShutdownView, event: ShutdownEvent) -> bool {
    match step {
        ShutdownView::DrainPatterns { fleet, .. } => event is Pattern && answers(
            fleet.step,
            event->Pattern_0,
        ),
        ShutdownView::StopPatterns { fleet } => event is Pattern && answers(
            fleet.step,
            event->Pattern_0,
        ),
        ShutdownView::AwaitConnections { .. } => event is Observed,
        ShutdownView::StopListener | ShutdownView::Settle { .. } => event is Done,
        ShutdownView::Finished => false,
    }
}

/// When the wait for the frontend connections ends, the shutdown has come to
/// stopping the backends, and needs two answered steps for each pattern and
/// two more at most.
pub proof fn law_wait_is_followed_by_stopping(
    s: ServerView,
    reg: Seq<PatternView>,
    wait_ms: u64,
    since_ms: Option<u64>,
    timeout_ms: u64,
    now_ms: u64,
    active: usize,
)
    ensures
        ({
            let waiting = ShutdownView::AwaitConnections { wait_ms, since_ms, timeout_ms };
            let (t, stopped, next) = advance_shutdown(
                s,
                reg,
                waiting,
                ShutdownEvent::Observed { now_ms, active },
            );
            !(next is AwaitConnections) ==> {
                &&& is_stopping(stopped, next)
                &&& stopped.len() == reg.len()
                &&& shutdown_bound(stopped, next) <= 2 * reg.len() + 2
            }
        }),
{
    law_stop_run_from(reg, 0, Seq::empty());
}

/// Once the shutdown has come to stopping the backends, every answered step
/// brings its end nearer, whatever the answer is: no backend and no listener
/// can hold it up.
pub proof fn law_shutdown_progresses(
    s: ServerView,
    reg: Seq<PatternView>,
    step: ShutdownView,
    event: ShutdownEvent,
)
    requires
        is_stopping(reg, step),
        answers_shutdown(step, event),
    ensures
        ({
            let (t, stopped, next) = advance_shutdown(s, reg, step, event);
            &&& is_stopping(stopped, next)
            &&& stopped.len() == reg.len()
            &&& shutdown_bound(stopped, next) < shutdown_bound(reg, step)
        }),
{
    if let ShutdownView::StopPatterns { fleet } = step {
        law_stop_run_progresses(reg, fleet, event->Pattern_0);
    }
}

/// The shutdown after `count` more steps, each answered by what `host`
/// reports of it.
pub open spec fn shutdown_after(
    s: ServerView,
    reg: Seq<PatternView>,
    step: ShutdownView,
    host: spec_fn(ShutdownView) -> ShutdownEvent,
    count: nat,
) -> (ServerView, Seq<PatternView>, ShutdownView)
    decreases count,
{
    if count == 0 || step is Finished {
        (s, reg, step)
    } else {
        let (t, next_reg, next) = advance_shutdown(s, reg, step, host(step));
        shutdown_after(t, next_reg, next, host, (count - 1) as nat)
    }
}

/// Once the shutdown has come to stopping the backends it completes: with a
/// host that answers every step, whatever its answers are, the gateway is
/// stopped after as many steps as the bound says, and every backend is
/// reaped by then.
pub proof fn law_shutdown_completes(
    s: ServerView,
    reg: Seq<PatternView>,
    step: ShutdownView,
    host: spec_fn(ShutdownView) -> ShutdownEvent,
    count: nat,
)
    requires
        is_stopping(reg, step),
        forall|any: ShutdownView| !(any is Finished) ==> answers_shutdown(any, #[trigger] host(any)),
        count >= shutdown_bound(reg, step),
    ensures
        shutdown_after(s, reg, step, host, count).2 is Finished,
        all_reaped(shutdown_after(s, reg, step, host, count).1),
    decreases count,
{
    if !(step is Finished) {
        law_shutdown_progresses(s, reg, step, host(step));
        let (t, next_reg, next) = advance_shutdown(s, reg, step, host(step));
        law_shutdown_completes(t, next_reg, next, host, (count - 1) as nat);
    }
}

} // verus!
