//! What holds of the registry: registration, lookup and health checks.

use vstd::prelude::*;
use crate::client::HealthCheckResponse;
use crate::error::{not_found_error, ErrorView};
use crate::model::{
    get_pattern, health_check, lemma_position, lemma_update_keeps_wf, names, position,
    record_health, register, registered, registry_wf, start_pattern, stop_pattern,
    HealthStepView,
};
use crate::pattern::{fresh_pattern, PatternView};
use crate::status::StatusView;
use crate::step::StepView;

verus! {

/// Registering a name keeps the registry well formed, and the name is
/// registered afterwards, with a fresh pattern at its place.
pub proof fn law_register_keeps_registry(
    reg: Seq<PatternView>,
    name: Seq<char>,
    binary_path: std::path::PathBuf,
)
    requires
        registry_wf(reg),
    ensures
        registry_wf(register(reg, name, binary_path)),
        registered(register(reg, name, binary_path), name),
        register(reg, name, binary_path)[position(register(reg, name, binary_path), name)]
            == fresh_pattern(name, binary_path),
        register(reg, name, binary_path).len() == if registered(reg, name) {
            reg.len()
        } else {
            reg.len() + 1
        },
{
    let fresh = fresh_pattern(name, binary_path);
    let next = register(reg, name, binary_path);
    if registered(reg, name) {
        let i = position(reg, name);
        lemma_update_keeps_wf(reg, i, fresh);
        lemma_position(next, name, i);
    } else {
        assert forall|i: int, j: int|
            0 <= i < next.len() && 0 <= j < next.len() && i != j implies (#[trigger] next[i]).name
            != (#[trigger] next[j]).name by {
            if i == reg.len() {
                assert(reg[j].name != name);
            } else if j == reg.len() {
                assert(reg[i].name != name);
            }
        }
        assert(next[reg.len() as int].name == name);
        lemma_position(next, name, reg.len() as int);
    }
}

/// A name that was just registered shows as `Uninitialized`, without an
/// endpoint, under that name: whatever stood in the registry before.
pub proof fn law_register_then_get(
    reg: Seq<PatternView>,
    name: Seq<char>,
    binary_path: std::path::PathBuf,
)
    requires
        registry_wf(reg),
    ensures
        get_pattern(register(reg, name, binary_path), name) == Some(
            (name, StatusView::Uninitialized, None::<Seq<char>>),
        ),
{
    law_register_keeps_registry(reg, name, binary_path);
}

/// Registering a name leaves every other name as it was shown before.
pub proof fn law_register_leaves_others(
    reg: Seq<PatternView>,
    name: Seq<char>,
    binary_path: std::path::PathBuf,
    other: Seq<char>,
)
    requires
        registry_wf(reg),
        other != name,
    ensures
        get_pattern(register(reg, name, binary_path), other) == get_pattern(reg, other),
{
    let fresh = fresh_pattern(name, binary_path);
    let next = register(reg, name, binary_path);
    law_register_keeps_registry(reg, name, binary_path);
    if registered(reg, other) {
        let k = position(reg, other);
        assert(next[k] == reg[k]);
        lemma_position(next, other, k);
    } else if registered(next, other) {
        let k = position(next, other);
        if k < reg.len() {
            assert(reg[k].name == other);
        }
    }
}

/// The registry after the names were registered one after the other, each
/// with the path at its place.
pub open spec fn register_all(
    reg: Seq<PatternView>,
    new_names: Seq<Seq<char>>,
    paths: Seq<std::path::PathBuf>,
) -> Seq<PatternView>
    decreases new_names.len(),
{
    if new_names.len() == 0 || paths.len() != new_names.len() {
        reg
    } else {
        register(
            register_all(reg, new_names.drop_last(), paths.drop_last()),
            new_names.last(),
            paths.last(),
        )
    }
}

/// Registering names that differ from each other and from those that are
/// there adds exactly one pattern for each, behind the ones that are there
/// and in the order of registration.
pub proof fn law_distinct_names_all_register(
    reg: Seq<PatternView>,
    new_names: Seq<Seq<char>>,
    paths: Seq<std::path::PathBuf>,
)
    requires
        registry_wf(reg),
        paths.len() == new_names.len(),
        new_names.no_duplicates(),
        forall|k: int| 0 <= k < new_names.len() ==> !registered(reg, #[trigger] new_names[k]),
    ensures
        registry_wf(register_all(reg, new_names, paths)),
        register_all(reg, new_names, paths).len() == reg.len() + new_names.len(),
        names(register_all(reg, new_names, paths)) == names(reg) + new_names,
    decreases new_names.len(),
{
    if new_names.len() == 0 {
        assert(names(reg) + new_names =~= names(reg));
    } else {
        let head_names = new_names.drop_last();
        let head_paths = paths.drop_last();
        let before = register_all(reg, head_names, head_paths);
        assert forall|k: int| 0 <= k < head_names.len() implies !registered(
            reg,
            #[trigger] head_names[k],
        ) by {
            assert(head_names[k] == new_names[k]);
        }
        law_distinct_names_all_register(reg, head_names, head_paths);
        let name = new_names.last();
        if registered(before, name) {
            let i = position(before, name);
            assert(names(before)[i] == name);
            if i < reg.len() {
                assert(reg[i].name == name);
                assert(registered(reg, new_names[new_names.len() - 1]));
            } else {
                assert(head_names[i - reg.len()] == name);
                assert(new_names[i - reg.len()] == new_names[new_names.len() - 1]);
            }
            assert(false);
        }
        law_register_keeps_registry(before, name, paths.last());
        let next = register(before, name, paths.last());
        assert(names(next) =~= names(before).push(name));
        assert(names(reg) + new_names =~= (names(reg) + head_names).push(name));
    }
}

/// In a well-formed registry no name is listed twice.
pub proof fn law_names_are_listed_once(reg: Seq<PatternView>)
    requires
        registry_wf(reg),
    ensures
        names(reg).no_duplicates(),
        names(reg).len() == reg.len(),
        forall|name: Seq<char>| names(reg).contains(name) == registered(reg, name),
{
    assert forall|name: Seq<char>| names(reg).contains(name) == registered(reg, name) by {
        if names(reg).contains(name) {
            let i = choose|i: int| 0 <= i < names(reg).len() && names(reg)[i] == name;
            assert(reg[i].name == name);
        }
        if registered(reg, name) {
            let i = position(reg, name);
            assert(names(reg)[i] == name);
        }
    }
}

/// An operation on a name that is not registered fails, not found, and
/// changes nothing: the start, the stop and the health check alike.
pub proof fn law_unregistered_is_not_found(reg: Seq<PatternView>, name: Seq<char>)
    requires
        !registered(reg, name),
    ensures
        start_pattern(reg, name) == (reg, Err::<StepView, ErrorView>(not_found_error(name))),
        stop_pattern(reg, name) == (reg, Err::<StepView, ErrorView>(not_found_error(name))),
        health_check(reg, name) == (reg, Err::<HealthStepView, ErrorView>(not_found_error(name))),
        get_pattern(reg, name) is None,
{
}

/// The health check of a pattern that is not believed to serve reports the
/// recorded status, asks for no call and changes nothing. So any number of
/// checks, one after the other, report the same.
pub proof fn law_health_without_probe(reg: Seq<PatternView>, name: Seq<char>)
    requires
        registered(reg, name),
        !reg[position(reg, name)].status.is_running(),
    ensures
        health_check(reg, name) == (
            reg,
            Ok::<HealthStepView, ErrorView>(
                HealthStepView::Report(reg[position(reg, name)].status),
            ),
        ),
{
}

/// The reports of `count` health checks of `name`, one after the other.
pub open spec fn health_reports(reg: Seq<PatternView>, name: Seq<char>, count: nat) -> Seq<
    Result<HealthStepView, ErrorView>,
>
    decreases count,
{
    if count == 0 {
        Seq::empty()
    } else {
        let (next, report) = health_check(reg, name);
        seq![report] + health_reports(next, name, (count - 1) as nat)
    }
}

/// Any number of health checks of a pattern that was registered and never
/// started all succeed and all report `Uninitialized`.
pub proof fn law_health_of_unstarted(reg: Seq<PatternView>, name: Seq<char>, count: nat)
    requires
        registered(reg, name),
        reg[position(reg, name)].status == StatusView::Uninitialized,
    ensures
        health_reports(reg, name, count).len() == count,
        forall|k: int|
            0 <= k < count ==> #[trigger] health_reports(reg, name, count)[k] == Ok::<
                HealthStepView,
                ErrorView,
            >(HealthStepView::Report(StatusView::Uninitialized)),
    decreases count,
{
    if count > 0 {
        law_health_without_probe(reg, name);
        law_health_of_unstarted(reg, name, (count - 1) as nat);
        let rest = health_reports(reg, name, (count - 1) as nat);
        let report = health_check(reg, name).1;
        assert(health_reports(reg, name, count) == seq![report] + rest);
        assert forall|k: int| 0 <= k < count implies #[trigger] health_reports(
            reg,
            name,
            count,
        )[k] == Ok::<HealthStepView, ErrorView>(
            HealthStepView::Report(StatusView::Uninitialized),
        ) by {
            if k > 0 {
                assert((seq![report] + rest)[k] == rest[k - 1]);
            }
        }
    }
}

/// A health probe never fails the check of a registered pattern: a probe
/// that did not complete leaves the registry as it was and returns the
/// recorded status.
pub proof fn law_failed_probe_keeps_status(
    reg: Seq<PatternView>,
    name: Seq<char>,
    reply: Result<HealthCheckResponse, String>,
)
    requires
        registered(reg, name),
    ensures
        record_health(reg, name, reply).1 is Ok,
        reply is Err && reg[position(reg, name)].client is Some ==> record_health(reg, name, reply)
            == (reg, Ok::<StatusView, ErrorView>(reg[position(reg, name)].status)),
{
}

} // verus!
