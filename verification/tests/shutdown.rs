use prism_proxy::client::{InitializeResponse, StartResponse, StopResponse};
use prism_proxy::{
    DrainState, Outcome, PatternManager, PatternStatus, ProxyServer, ShutdownEvent, ShutdownStep,
    Step,
};
use std::path::PathBuf;

fn running(names: &[&str]) -> PatternManager {
    let mut manager = PatternManager::new();
    for name in names {
        manager
            .register_pattern(name.to_string(), PathBuf::from(format!("/bin/{}", name)))
            .unwrap();
        let step = manager.start_pattern(name).unwrap();
        let step = manager.advance(name, step, Outcome::Done);
        let step = manager.advance(name, step, Outcome::Done);
        let step = manager.advance(name, step, Outcome::Done);
        let step = manager.advance(
            name,
            step,
            Outcome::Initialized(InitializeResponse {
                success: true,
                error: String::new(),
                metadata: None,
            }),
        );
        let step = manager.advance(
            name,
            step,
            Outcome::Started(StartResponse {
                success: true,
                error: String::new(),
                data_endpoint: String::new(),
            }),
        );
        assert_eq!(step, Step::Finished(Ok(())));
    }
    manager
}

#[test]
fn drain_state_accepts_work_only_while_running() {
    assert!(DrainState::Running.accepts_new_work());
    assert!(!DrainState::Draining { started_at: 0 }.accepts_new_work());
    assert!(!DrainState::Stopping.accepts_new_work());
}

#[test]
fn shutdown_of_an_idle_gateway() {
    let mut manager = PatternManager::new();
    let mut server = ProxyServer::new("0.0.0.0:8980".to_string());
    server.start();

    let step = server.drain_and_shutdown(&mut manager, 30_000, "signal".to_string(), 1_000);
    assert_eq!(server.get_drain_state(), DrainState::Draining { started_at: 1_000 });
    assert_eq!(
        step,
        ShutdownStep::AwaitConnections { wait_ms: 0, since_ms: None, timeout_ms: 30_000 }
    );

    let step = server.advance_shutdown(
        &mut manager,
        step,
        ShutdownEvent::Observed { now_ms: 1_001, active: 0 },
    );
    assert_eq!(step, ShutdownStep::StopListener);
    assert_eq!(server.get_drain_state(), DrainState::Stopping);
    assert!(!server.is_listening());

    let step = server.advance_shutdown(&mut manager, step, ShutdownEvent::Done);
    assert_eq!(step, ShutdownStep::Settle { millis: 100 });
    let step = server.advance_shutdown(&mut manager, step, ShutdownEvent::Done);
    assert_eq!(step, ShutdownStep::Finished);
    let step = server.advance_shutdown(&mut manager, step, ShutdownEvent::Done);
    assert_eq!(step, ShutdownStep::Finished);
    assert_eq!(server.get_drain_state(), DrainState::Stopping);
}

#[test]
fn wait_ends_with_the_first_look_after_the_deadline() {
    let mut manager = PatternManager::new();
    let mut server = ProxyServer::new("0.0.0.0:8980".to_string());

    let mut step = server.drain_and_shutdown(&mut manager, 1_000, "signal".to_string(), 40);
    let mut now = 50;
    let mut looks = 0;
    let mut waited = 0;
    while let ShutdownStep::AwaitConnections { wait_ms, .. } = step {
        now += wait_ms;
        waited += wait_ms;
        looks += 1;
        step = server.advance_shutdown(
            &mut manager,
            step,
            ShutdownEvent::Observed { now_ms: now, active: 7 },
        );
    }
    assert_eq!(looks, 12);
    assert_eq!(waited, 1_100);
    assert_eq!(now, 50 + 1_000 + 100);
    assert_eq!(step, ShutdownStep::Settle { millis: 100 });
    assert_eq!(server.get_drain_state(), DrainState::Stopping);

    let step = server.advance_shutdown(&mut manager, step, ShutdownEvent::Done);
    assert_eq!(step, ShutdownStep::Finished);
}

#[test]
fn wait_goes_on_at_the_deadline_and_ends_after_it() {
    let mut manager = PatternManager::new();
    let mut server = ProxyServer::new("0.0.0.0:8980".to_string());
    let waiting = || ShutdownStep::AwaitConnections {
        wait_ms: 100,
        since_ms: Some(500),
        timeout_ms: 1_000,
    };

    let step = server.advance_shutdown(
        &mut manager,
        waiting(),
        ShutdownEvent::Observed { now_ms: 1_500, active: 1 },
    );
    assert_eq!(step, waiting());
    assert_eq!(server.get_drain_state(), DrainState::Running);

    let step = server.advance_shutdown(
        &mut manager,
        waiting(),
        ShutdownEvent::Observed { now_ms: 1_501, active: 1 },
    );
    assert_eq!(step, ShutdownStep::Settle { millis: 100 });

    let huge = ShutdownStep::AwaitConnections {
        wait_ms: 100,
        since_ms: Some(u64::MAX - 1),
        timeout_ms: u64::MAX,
    };
    let step = server.advance_shutdown(
        &mut manager,
        huge,
        ShutdownEvent::Observed { now_ms: u64::MAX, active: 1 },
    );
    assert!(matches!(step, ShutdownStep::AwaitConnections { .. }));

    let behind = server.advance_shutdown(
        &mut manager,
        waiting(),
        ShutdownEvent::Observed { now_ms: 3, active: 1 },
    );
    assert_eq!(behind, waiting());
}

#[test]
fn shutdown_drains_then_stops_every_backend() {
    let mut manager = running(&["kv1", "kv2"]);
    manager.register_pattern("idle".to_string(), PathBuf::from("/bin/idle")).unwrap();
    let mut server = ProxyServer::new("0.0.0.0:8980".to_string());
    server.start();

    let step = server.drain_and_shutdown(&mut manager, 30_999, "maintenance".to_string(), 0);
    let fleet = match &step {
        ShutdownStep::DrainPatterns { fleet, timeout_ms } => {
            assert_eq!(*timeout_ms, 30_999);
            fleet
        }
        other => panic!("unexpected step {:?}", other),
    };
    assert_eq!(
        fleet.step,
        Step::Drain { timeout_seconds: 30, reason: "maintenance".to_string() }
    );
    assert_eq!(manager.fleet_target(fleet), Some("kv1".to_string()));

    let unanswered = server.advance_shutdown(&mut manager, step, ShutdownEvent::Done);
    assert!(matches!(unanswered, ShutdownStep::DrainPatterns { .. }));

    let step = server.advance_shutdown(
        &mut manager,
        unanswered,
        ShutdownEvent::Pattern(Outcome::Failed("unreachable".to_string())),
    );
    match &step {
        ShutdownStep::DrainPatterns { fleet, .. } => {
            assert_eq!(manager.fleet_target(fleet), Some("kv2".to_string()));
            assert_eq!(fleet.failures.len(), 1);
        }
        other => panic!("unexpected step {:?}", other),
    }
    let step = server.advance_shutdown(
        &mut manager,
        step,
        ShutdownEvent::Pattern(Outcome::Failed("unreachable".to_string())),
    );
    assert_eq!(
        step,
        ShutdownStep::AwaitConnections { wait_ms: 0, since_ms: None, timeout_ms: 30_999 }
    );
    assert_eq!(server.get_drain_state(), DrainState::Draining { started_at: 0 });

    let step = server.advance_shutdown(
        &mut manager,
        step,
        ShutdownEvent::Observed { now_ms: 10, active: 2 },
    );
    assert_eq!(
        step,
        ShutdownStep::AwaitConnections { wait_ms: 100, since_ms: Some(10), timeout_ms: 30_999 }
    );
    let step = server.advance_shutdown(
        &mut manager,
        step,
        ShutdownEvent::Observed { now_ms: 110, active: 0 },
    );
    assert_eq!(server.get_drain_state(), DrainState::Stopping);

    let mut step = step;
    let mut calls = vec![];
    while let ShutdownStep::StopPatterns { ref fleet } = step {
        let target = manager.fleet_target(fleet).unwrap();
        let outcome = match fleet.step {
            Step::Stop { timeout_seconds } => {
                calls.push(format!("stop {} {}", target, timeout_seconds));
                Outcome::Stopped(StopResponse { success: true, error: String::new() })
            }
            Step::Kill => {
                calls.push(format!("kill {}", target));
                Outcome::Done
            }
            ref other => panic!("unexpected step {:?}", other),
        };
        step = server.advance_shutdown(&mut manager, step, ShutdownEvent::Pattern(outcome));
    }
    assert_eq!(calls, vec!["stop kv1 30", "kill kv1", "stop kv2 30", "kill kv2"]);
    for name in ["kv1", "kv2", "idle"] {
        assert_eq!(manager.get_pattern(name).unwrap().1, PatternStatus::Stopped);
    }

    assert_eq!(step, ShutdownStep::StopListener);
    let step = server.advance_shutdown(&mut manager, step, ShutdownEvent::Done);
    let step = server.advance_shutdown(&mut manager, step, ShutdownEvent::Done);
    assert_eq!(step, ShutdownStep::Finished);
}

#[test]
fn a_second_shutdown_does_not_go_back() {
    let mut manager = PatternManager::new();
    let mut server = ProxyServer::new("0.0.0.0:8980".to_string());
    let step = server.drain_and_shutdown(&mut manager, 0, "first".to_string(), 5);
    let _ = server.drain_and_shutdown(&mut manager, 0, "again".to_string(), 9);
    assert_eq!(server.get_drain_state(), DrainState::Draining { started_at: 9 });
    let step = server.advance_shutdown(
        &mut manager,
        step,
        ShutdownEvent::Observed { now_ms: 9, active: 0 },
    );
    assert_eq!(step, ShutdownStep::Settle { millis: 100 });
    assert_eq!(server.get_drain_state(), DrainState::Stopping);
    let _ = server.drain_and_shutdown(&mut manager, 0, "late".to_string(), 11);
    assert_eq!(server.get_drain_state(), DrainState::Stopping);
}

#[test]
fn drain_budget_is_told_in_whole_seconds() {
    let mut manager = running(&["kv1"]);
    let mut server = ProxyServer::new("0.0.0.0:8980".to_string());
    let step = server.drain_and_shutdown(&mut manager, 999, "now".to_string(), 0);
    match step {
        ShutdownStep::DrainPatterns { fleet, .. } => {
            assert_eq!(fleet.step, Step::Drain { timeout_seconds: 0, reason: "now".to_string() });
        }
        other => panic!("unexpected step {:?}", other),
    }
    let step = server.drain_and_shutdown(&mut manager, 4_294_967_296_000 + 7_000, "x".to_string(), 0);
    match step {
        ShutdownStep::DrainPatterns { fleet, .. } => {
            assert_eq!(fleet.step, Step::Drain { timeout_seconds: 7, reason: "x".to_string() });
        }
        other => panic!("unexpected step {:?}", other),
    }
}
