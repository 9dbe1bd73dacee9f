use prism_proxy::{
    HealthStep, LifecycleError, Outcome, PatternManager, PatternStatus, Step,
};
use std::path::PathBuf;

fn nonexistent_binary() -> PathBuf {
    PathBuf::from("/tmp/nonexistent-pattern-binary-12345")
}

fn start_invalid_binary(manager: &mut PatternManager, name: &str) -> Result<(), LifecycleError> {
    let step = manager.start_pattern(name)?;
    let next = manager.advance(
        name,
        step,
        Outcome::Failed("No such file or directory (os error 2)".to_string()),
    );
    next.into_result().expect("a launch that failed ends the start")
}

fn stop_unstarted(manager: &mut PatternManager, name: &str) -> Result<(), LifecycleError> {
    let step = manager.stop_pattern(name)?;
    step.into_result().expect("nothing is left to do for a pattern that never started")
}

fn health(manager: &mut PatternManager, name: &str) -> Result<PatternStatus, LifecycleError> {
    match manager.health_check(name)? {
        HealthStep::Report(status) => Ok(status),
        HealthStep::Probe => panic!("no probe is due for a pattern that does not serve"),
    }
}

#[test]
fn test_pattern_spawn_failure_updates_status() {
    let mut manager = PatternManager::new();

    manager
        .register_pattern("failing-pattern".to_string(), nonexistent_binary())
        .expect("Should register pattern");

    let result = start_invalid_binary(&mut manager, "failing-pattern");
    assert!(result.is_err(), "Should fail to start invalid binary");

    let status = health(&mut manager, "failing-pattern").unwrap();
    assert!(
        matches!(status, PatternStatus::Failed(_)),
        "Status should be Failed, got: {:?}",
        status
    );
}

#[test]
fn test_health_check_on_uninitialized_pattern() {
    let mut manager = PatternManager::new();

    manager
        .register_pattern("uninitialized".to_string(), nonexistent_binary())
        .unwrap();

    let status = health(&mut manager, "uninitialized").unwrap();
    assert_eq!(status, PatternStatus::Uninitialized);
}

#[test]
fn test_concurrent_pattern_registration() {
    let mut manager = PatternManager::new();

    let mut results = vec![];
    for i in 0..10 {
        let name = format!("pattern-{}", i);
        let path = PathBuf::from(format!("/tmp/pattern-{}", i));
        results.push(manager.register_pattern(name, path));
    }

    for result in results {
        assert!(result.is_ok(), "Concurrent registration should succeed");
    }

    let patterns = manager.list_patterns();
    assert_eq!(patterns.len(), 10, "Should have 10 patterns registered");
}

#[test]
fn test_concurrent_health_checks() {
    let mut manager = PatternManager::new();

    manager
        .register_pattern("test".to_string(), nonexistent_binary())
        .unwrap();

    let mut results = vec![];
    for _ in 0..20 {
        results.push(health(&mut manager, "test"));
    }

    for result in results {
        assert!(result.is_ok(), "Concurrent health checks should succeed");
        assert_eq!(result.unwrap(), PatternStatus::Uninitialized);
    }
}

#[test]
fn test_stop_pattern_that_never_started() {
    let mut manager = PatternManager::new();

    manager
        .register_pattern("never-started".to_string(), nonexistent_binary())
        .unwrap();

    let result = stop_unstarted(&mut manager, "never-started");
    assert!(
        result.is_ok(),
        "Should gracefully handle stopping unstarted pattern"
    );

    let status = health(&mut manager, "never-started").unwrap();
    assert_eq!(status, PatternStatus::Stopped);
}

#[test]
fn test_multiple_start_attempts() {
    let mut manager = PatternManager::new();

    manager
        .register_pattern("multi-start".to_string(), nonexistent_binary())
        .unwrap();

    let result1 = start_invalid_binary(&mut manager, "multi-start");
    assert!(result1.is_err(), "First start should fail (invalid binary)");

    let result2 = start_invalid_binary(&mut manager, "multi-start");
    assert!(result2.is_err(), "Second start should also fail");

    let status = health(&mut manager, "multi-start").unwrap();
    assert!(matches!(status, PatternStatus::Failed(_)));
}

#[test]
fn test_pattern_not_found_operations() {
    let mut manager = PatternManager::new();

    let start_result = manager.start_pattern("ghost");
    assert!(
        start_result.is_err(),
        "Start should fail for non-existent pattern"
    );

    let stop_result = manager.stop_pattern("ghost");
    assert!(
        stop_result.is_err(),
        "Stop should fail for non-existent pattern"
    );

    let health_result = manager.health_check("ghost");
    assert!(
        health_result.is_err(),
        "Health check should fail for non-existent pattern"
    );
}

#[test]
fn test_empty_pattern_name() {
    let mut manager = PatternManager::new();

    manager
        .register_pattern("".to_string(), nonexistent_binary())
        .expect("Should allow empty name registration");

    let result = manager.get_pattern("");
    assert!(result.is_some(), "Should find pattern with empty name");
}

#[test]
fn test_duplicate_pattern_registration() {
    let mut manager = PatternManager::new();
    let path = nonexistent_binary();

    manager
        .register_pattern("duplicate".to_string(), path.clone())
        .unwrap();

    manager
        .register_pattern("duplicate".to_string(), path)
        .unwrap();

    let patterns = manager.list_patterns();
    assert_eq!(patterns.len(), 1, "Should have only one pattern (overwritten)");
}

#[test]
fn test_very_long_pattern_name() {
    let mut manager = PatternManager::new();

    let long_name = "a".repeat(1000);

    manager
        .register_pattern(long_name.clone(), nonexistent_binary())
        .expect("Should handle long pattern names");

    let result = manager.get_pattern(&long_name);
    assert!(result.is_some(), "Should find pattern with long name");
}

#[test]
fn test_special_characters_in_pattern_name() {
    let mut manager = PatternManager::new();

    let names = vec![
        "pattern-with-dashes",
        "pattern_with_underscores",
        "pattern.with.dots",
        "pattern:with:colons",
        "pattern/with/slashes",
        "pattern with spaces",
        "pattern\nwith\nnewlines",
        "pattern\twith\ttabs",
    ];

    for name in names {
        let result = manager.register_pattern(name.to_string(), nonexistent_binary());
        assert!(
            result.is_ok(),
            "Should handle special characters in name: {}",
            name
        );
    }

    let patterns = manager.list_patterns();
    assert_eq!(patterns.len(), 8, "Should register all patterns");
}

#[test]
fn test_concurrent_start_attempts_on_same_pattern() {
    let mut manager = PatternManager::new();

    manager
        .register_pattern("concurrent-start".to_string(), nonexistent_binary())
        .unwrap();

    let mut results = vec![];
    for _ in 0..5 {
        results.push(start_invalid_binary(&mut manager, "concurrent-start"));
    }

    for result in results {
        assert!(result.is_err());
    }
}

#[test]
fn test_pattern_list_is_consistent() {
    let mut manager = PatternManager::new();

    for i in 0..5 {
        manager
            .register_pattern(format!("pattern-{}", i), nonexistent_binary())
            .unwrap();
    }

    let list1 = manager.list_patterns();
    let list2 = manager.list_patterns();
    let list3 = manager.list_patterns();

    assert_eq!(list1, list2);
    assert_eq!(list2, list3);
    assert_eq!(list1.len(), 5);
}

#[test]
fn test_health_check_timeout_handling() {
    let mut manager = PatternManager::new();

    manager
        .register_pattern("timeout-test".to_string(), nonexistent_binary())
        .unwrap();

    let result = manager.health_check("timeout-test");

    assert!(
        matches!(result, Ok(HealthStep::Report(_))),
        "Health check should complete within timeout"
    );
}

#[test]
fn test_get_pattern_returns_correct_metadata() {
    let mut manager = PatternManager::new();
    let path = nonexistent_binary();

    manager
        .register_pattern("metadata-test".to_string(), path.clone())
        .unwrap();

    let result = manager.get_pattern("metadata-test");
    assert!(result.is_some());

    let (name, status, endpoint) = result.unwrap();
    assert_eq!(name, "metadata-test");
    assert_eq!(status, PatternStatus::Uninitialized);
    assert_eq!(endpoint, None);
}

#[test]
fn test_pattern_manager_is_send_and_sync() {
    fn assert_send<T: Send>() {}
    fn assert_sync<T: Sync>() {}

    assert_send::<PatternManager>();
    assert_sync::<PatternManager>();
}

#[test]
fn failed_launch_keeps_the_entry_and_names_the_cause() {
    let mut manager = PatternManager::new();
    manager
        .register_pattern("kv1".to_string(), nonexistent_binary())
        .unwrap();

    let step = manager.start_pattern("kv1").unwrap();
    assert_eq!(step, Step::Spawn { binary_path: nonexistent_binary(), port: 9274 });
    assert_eq!(
        manager.get_pattern("kv1"),
        Some(("kv1".to_string(), PatternStatus::Starting, None))
    );

    let next = manager.advance("kv1", step, Outcome::Failed("os error 2".to_string()));
    let error = next.into_result().unwrap().unwrap_err();
    assert_eq!(error.kind(), prism_proxy::ErrorKind::Process);
    assert_eq!(error.message(), "Failed to spawn pattern: os error 2");
    assert_eq!(
        manager.get_pattern("kv1"),
        Some((
            "kv1".to_string(),
            PatternStatus::Failed("Spawn failed: os error 2".to_string()),
            None
        ))
    );
    assert_eq!(manager.list_patterns(), vec!["kv1".to_string()]);
}

#[test]
fn not_found_errors_name_the_pattern() {
    let mut manager = PatternManager::new();
    let error = manager.start_pattern("ghost").unwrap_err();
    assert_eq!(error.kind(), prism_proxy::ErrorKind::NotFound);
    assert_eq!(error.message(), "Pattern not found: ghost");
    assert_eq!(manager.stop_pattern("ghost").unwrap_err().message(), "Pattern not found: ghost");
    assert_eq!(manager.health_check("ghost").unwrap_err().message(), "Pattern not found: ghost");
    assert_eq!(
        manager.record_health("ghost", Err("down".to_string())).unwrap_err().message(),
        "Pattern not found: ghost"
    );
    let next = manager.advance("ghost", Step::Start, Outcome::Done);
    let error = next.into_result().unwrap().unwrap_err();
    assert_eq!(error.kind(), prism_proxy::ErrorKind::NotFound);
    assert_eq!(error.message(), "Pattern not found: ghost");
    assert_eq!(manager.get_pattern("ghost"), None);
}

#[test]
fn registration_replaces_and_keeps_the_place() {
    let mut manager = PatternManager::new();
    manager.register_pattern("a".to_string(), PathBuf::from("/a")).unwrap();
    manager.register_pattern("b".to_string(), PathBuf::from("/b")).unwrap();
    let _ = start_invalid_binary(&mut manager, "a");
    assert!(matches!(
        manager.get_pattern("a"),
        Some((_, PatternStatus::Failed(_), None))
    ));
    manager.register_pattern("a".to_string(), PathBuf::from("/a2")).unwrap();
    assert_eq!(
        manager.get_pattern("a"),
        Some(("a".to_string(), PatternStatus::Uninitialized, None))
    );
    assert_eq!(manager.list_patterns(), vec!["a".to_string(), "b".to_string()]);
    let step = manager.start_pattern("a").unwrap();
    assert_eq!(step, Step::Spawn { binary_path: PathBuf::from("/a2"), port: 9097 });
}
