use prism_proxy::client::{HealthCheckResponse, InitializeResponse, PatternMetadata, StartResponse};
use prism_proxy::pattern::ConnectProgress;
use prism_proxy::{
    ErrorKind, HealthStatus, HealthStep, LifecycleError, Outcome, Pattern, PatternClient,
    PatternManager, PatternStatus, ProxyConfig, Step,
};
use std::path::PathBuf;

const MISSING: &str = "No such file or directory (os error 2)";

fn start_with_missing_binary(manager: &mut PatternManager, name: &str) -> Result<(), LifecycleError> {
    let step = manager.start_pattern(name)?;
    assert!(matches!(step, Step::Spawn { .. }));
    let next = manager.advance(name, step, Outcome::Failed(MISSING.to_string()));
    next.into_result().expect("a launch that failed ends the start")
}

fn recorded_status(manager: &mut PatternManager, name: &str) -> Result<PatternStatus, LifecycleError> {
    match manager.health_check(name)? {
        HealthStep::Report(status) => Ok(status),
        HealthStep::Probe => panic!("no probe is due for a pattern that does not serve"),
    }
}

#[test]
fn test_default_config() {
    let config = ProxyConfig::default();
    assert_eq!(config.listen_address, "0.0.0.0:8980");
    assert!(config.patterns.is_empty());
}

#[test]
fn test_client_connection_failure() {
    let result = PatternClient::connect(
        "http://localhost:9999".to_string(),
        Err("transport error".to_string()),
    );
    assert!(
        result.is_err(),
        "Should fail to connect to non-existent endpoint"
    );
    let error = result.unwrap_err();
    assert_eq!(error.kind(), ErrorKind::Transport);
    assert_eq!(error.message(), "transport error");
}

#[test]
fn test_pattern_manager_creation() {
    let manager = PatternManager::new();
    let patterns = manager.list_patterns();
    assert!(patterns.is_empty(), "New manager should have no patterns");
}

#[test]
fn test_register_pattern() {
    let mut manager = PatternManager::new();
    let path = PathBuf::from("/path/to/memstore");

    manager
        .register_pattern("memstore".to_string(), path.clone())
        .expect("Failed to register pattern");

    let patterns = manager.list_patterns();
    assert_eq!(patterns.len(), 1, "Should have one pattern registered");
    assert_eq!(patterns[0], "memstore");
}

#[test]
fn test_get_pattern() {
    let mut manager = PatternManager::new();
    let path = PathBuf::from("/path/to/memstore");

    manager
        .register_pattern("memstore".to_string(), path.clone())
        .unwrap();

    let result = manager.get_pattern("memstore");
    assert!(result.is_some(), "Should find registered pattern");

    let (name, status, endpoint) = result.unwrap();
    assert_eq!(name, "memstore");
    assert_eq!(status, PatternStatus::Uninitialized);
    assert_eq!(endpoint, None);
}

#[test]
fn test_pattern_lifecycle_without_real_binary() {
    let mut manager = PatternManager::new();
    let path = PathBuf::from("/nonexistent/path");

    manager
        .register_pattern("test-pattern".to_string(), path)
        .unwrap();

    let status = recorded_status(&mut manager, "test-pattern").unwrap();
    assert_eq!(status, PatternStatus::Uninitialized);

    let result = start_with_missing_binary(&mut manager, "test-pattern");
    assert!(result.is_err(), "Should fail to start non-existent binary");

    let status = recorded_status(&mut manager, "test-pattern").unwrap();
    assert!(
        matches!(status, PatternStatus::Failed(_)),
        "Status should be Failed after spawn failure"
    );
}

#[test]
fn test_pattern_not_found() {
    let mut manager = PatternManager::new();

    let result = manager.start_pattern("nonexistent");
    assert!(result.is_err(), "Should fail to start nonexistent pattern");

    let result = manager.health_check("nonexistent");
    assert!(
        result.is_err(),
        "Should fail health check for nonexistent pattern"
    );
}

#[test]
fn test_pattern_status_transitions() {
    let pattern = Pattern::new("test".to_string(), PathBuf::from("/test"));

    assert_eq!(pattern.status(), &PatternStatus::Uninitialized);
    assert!(!pattern.is_running());
}

#[test]
fn test_pattern_spawn_with_invalid_binary() {
    let mut pattern = Pattern::new("test".to_string(), PathBuf::from("/nonexistent"));

    let result = pattern.spawn(9999, Err(MISSING.to_string()));
    assert!(result.is_err(), "Should fail to spawn non-existent binary");
    let error = result.unwrap_err();
    assert_eq!(error.kind(), ErrorKind::Process);
    assert_eq!(error.message(), MISSING);
    assert!(!pattern.has_process());
    assert_eq!(pattern.grpc_endpoint(), None);
}

#[test]
fn test_pattern_with_config() {
    let mut members = serde_json::Map::new();
    members.insert("max_keys".to_string(), serde_json::Value::from(1000));
    members.insert("cleanup_period".to_string(), serde_json::Value::from("60s"));
    let config = serde_json::Value::Object(members);

    let pattern =
        Pattern::new("test".to_string(), PathBuf::from("/test")).with_config(config.clone());

    assert_eq!(pattern.config(), &config);
}

#[test]
fn new_pattern_is_configured_with_an_empty_object() {
    let pattern = Pattern::new("test".to_string(), PathBuf::from("/test"));
    assert_eq!(
        pattern.config(),
        &serde_json::Value::Object(serde_json::Map::new())
    );
    assert_eq!(pattern.config().to_string(), "{}");
    assert_eq!(pattern.name(), "test");
    assert_eq!(pattern.version(), "");
    assert_eq!(pattern.binary_path(), &PathBuf::from("/test"));
    assert!(!pattern.has_process());
    assert!(!pattern.has_client());
    assert_eq!(pattern.grpc_endpoint(), None);
}

#[test]
fn spawn_records_process_and_endpoint() {
    let mut pattern = Pattern::new("test".to_string(), PathBuf::from("/test"));
    assert!(pattern.spawn(9274, Ok(())).is_ok());
    assert!(pattern.has_process());
    assert_eq!(
        pattern.grpc_endpoint(),
        Some("http://localhost:9274".to_string())
    );
    assert_eq!(pattern.status(), &PatternStatus::Uninitialized);
    let (name, status, endpoint) = pattern.snapshot();
    assert_eq!(name, "test");
    assert_eq!(status, PatternStatus::Uninitialized);
    assert_eq!(endpoint, Some("http://localhost:9274".to_string()));
}

#[test]
fn connect_without_endpoint_is_refused() {
    let mut pattern = Pattern::new("test".to_string(), PathBuf::from("/test"));
    let request = pattern.connect_request(1, 100);
    let error = request.unwrap_err();
    assert_eq!(error.kind(), ErrorKind::NotReady);
    assert_eq!(error.message(), "No gRPC endpoint available");

    let error = pattern.connect_client(1, 100, Ok(())).unwrap_err();
    assert_eq!(error.kind(), ErrorKind::NotReady);
    assert_eq!(error.message(), "No gRPC endpoint available");
    assert!(!pattern.has_client());
}

#[test]
fn calls_without_client_are_refused() {
    let mut pattern = Pattern::new("test".to_string(), PathBuf::from("/test"));
    pattern.spawn(9001, Ok(())).unwrap();

    let error = pattern.initialize_request().unwrap_err();
    assert_eq!(error.kind(), ErrorKind::NotReady);
    assert_eq!(error.message(), "No gRPC client available");

    let reply = InitializeResponse { success: true, error: String::new(), metadata: None };
    let error = pattern.initialize_pattern(Ok(reply)).unwrap_err();
    assert_eq!(error.message(), "No gRPC client available");

    let error = pattern.start_request().unwrap_err();
    assert_eq!(error.message(), "No gRPC client available");

    let reply = StartResponse { success: true, error: String::new(), data_endpoint: String::new() };
    let error = pattern.start_pattern(Ok(reply)).unwrap_err();
    assert_eq!(error.kind(), ErrorKind::NotReady);
    assert_eq!(error.message(), "No gRPC client available");

    assert_eq!(pattern.stop_request(), None);
    assert_eq!(pattern.drain_request(5, "bye".to_string()), None);
}

#[test]
fn health_of_pattern_without_client_is_uninitialized() {
    let pattern = Pattern::new("test".to_string(), PathBuf::from("/test"));
    let reply = HealthCheckResponse { status: HealthStatus::Healthy, message: String::new() };
    assert_eq!(
        pattern.health_check_pattern(Ok(reply)),
        Ok(PatternStatus::Uninitialized)
    );
    assert_eq!(
        pattern.health_check_pattern(Err("unreachable".to_string())),
        Ok(PatternStatus::Uninitialized)
    );
}

#[test]
fn connect_retries_with_doubling_waits() {
    let mut pattern = Pattern::new("test".to_string(), PathBuf::from("/test"));
    pattern.spawn(9001, Ok(())).unwrap();

    let down = || Err("connection refused".to_string());
    assert_eq!(
        pattern.connect_client(1, 100, down()),
        Ok(ConnectProgress::Retry { wait_ms: 100, attempt: 2, backoff_ms: 200 })
    );
    assert_eq!(
        pattern.connect_client(4, 800, down()),
        Ok(ConnectProgress::Retry { wait_ms: 800, attempt: 5, backoff_ms: 1600 })
    );
    assert_eq!(
        pattern.connect_client(2, 1000, down()),
        Ok(ConnectProgress::Retry { wait_ms: 1000, attempt: 3, backoff_ms: 2000 })
    );
    assert_eq!(
        pattern.connect_client(3, 1600, down()),
        Ok(ConnectProgress::Retry { wait_ms: 1600, attempt: 4, backoff_ms: 2000 })
    );
    assert_eq!(
        pattern.connect_client(2, u64::MAX, down()),
        Ok(ConnectProgress::Retry { wait_ms: u64::MAX, attempt: 3, backoff_ms: 2000 })
    );
    assert_eq!(
        pattern.connect_client(5, 1600, down()),
        Ok(ConnectProgress::GiveUp { wait_ms: 1600 })
    );
    assert_eq!(
        pattern.connect_client(6, 2000, down()),
        Ok(ConnectProgress::GiveUp { wait_ms: 2000 })
    );
    assert_eq!(
        pattern.connect_client(u32::MAX, 7, down()),
        Ok(ConnectProgress::GiveUp { wait_ms: 7 })
    );
    assert!(!pattern.has_client());
    let error = pattern.connect_failure("connection refused".to_string());
    assert_eq!(error.kind(), ErrorKind::Transport);
    assert_eq!(error.message(), "connection refused");

    assert_eq!(
        pattern.connect_client(5, 1600, Ok(())),
        Ok(ConnectProgress::Connected)
    );
    assert!(pattern.has_client());
}

#[test]
fn initialize_keeps_the_reported_version() {
    let mut pattern = Pattern::new("test".to_string(), PathBuf::from("/test"));
    pattern.spawn(9001, Ok(())).unwrap();
    pattern.connect_client(1, 100, Ok(())).unwrap();

    let request = pattern.initialize_request().unwrap();
    assert_eq!(
        request,
        Step::Initialize {
            name: "test".to_string(),
            version: String::new(),
            config: serde_json::Value::Object(serde_json::Map::new()),
        }
    );

    let refused = InitializeResponse {
        success: false,
        error: "bad config".to_string(),
        metadata: Some(PatternMetadata { name: "test".to_string(), version: "9".to_string() }),
    };
    let error = pattern.initialize_pattern(Ok(refused)).unwrap_err();
    assert_eq!(error.kind(), ErrorKind::Logical);
    assert_eq!(error.message(), "Initialize failed: bad config");
    assert_eq!(pattern.version(), "");

    let silent = InitializeResponse { success: true, error: String::new(), metadata: None };
    assert_eq!(pattern.initialize_pattern(Ok(silent)), Ok(()));
    assert_eq!(pattern.version(), "");

    let told = InitializeResponse {
        success: true,
        error: String::new(),
        metadata: Some(PatternMetadata { name: "test".to_string(), version: "1.2.3".to_string() }),
    };
    assert_eq!(pattern.initialize_pattern(Ok(told)), Ok(()));
    assert_eq!(pattern.version(), "1.2.3");
}

#[test]
fn initialize_step_carries_the_configuration() {
    let mut members = serde_json::Map::new();
    members.insert("max_keys".to_string(), serde_json::Value::from(1000));
    let config = serde_json::Value::Object(members);
    let mut pattern =
        Pattern::new("kv".to_string(), PathBuf::from("/kv")).with_config(config.clone());
    pattern.spawn(9001, Ok(())).unwrap();
    pattern.connect_client(1, 100, Ok(())).unwrap();
    match pattern.initialize_request().unwrap() {
        Step::Initialize { name, version, config: carried } => {
            assert_eq!(name, "kv");
            assert_eq!(version, "");
            assert_eq!(carried, config);
            assert_eq!(carried.to_string(), "{\"max_keys\":1000}");
        }
        other => panic!("unexpected step {:?}", other),
    }
}

#[test]
fn drop_client_leaves_the_endpoint() {
    let mut pattern = Pattern::new("test".to_string(), PathBuf::from("/test"));
    pattern.spawn(9001, Ok(())).unwrap();
    pattern.connect_client(1, 100, Ok(())).unwrap();
    assert!(pattern.has_client());
    pattern.drop_client();
    assert!(!pattern.has_client());
    assert_eq!(pattern.grpc_endpoint(), Some("http://localhost:9001".to_string()));
    assert!(pattern.has_process());
    assert_eq!(pattern.stop_request(), None);
    pattern.drop_client();
    assert!(!pattern.has_client());
}

#[test]
fn take_process_gives_the_process_up_once() {
    let mut pattern = Pattern::new("test".to_string(), PathBuf::from("/test"));
    assert!(!pattern.take_process());
    pattern.spawn(9001, Ok(())).unwrap();
    assert!(pattern.take_process());
    assert!(!pattern.has_process());
    assert!(!pattern.take_process());
}

#[test]
fn default_manager_is_empty() {
    let manager = PatternManager::default();
    assert!(manager.list_patterns().is_empty());
    assert_eq!(manager.get_pattern("anything"), None);
}

#[test]
fn a_step_has_a_result_once_it_is_finished() {
    assert!(!Step::Start.is_finished());
    assert_eq!(Step::Start.into_result(), None);
    assert_eq!(Step::Kill.into_result(), None);
    assert!(Step::Finished(Ok(())).is_finished());
    assert_eq!(Step::Finished(Ok(())).into_result(), Some(Ok(())));
    let failed = Step::Finished(Err(LifecycleError::no_client()));
    assert!(failed.is_finished());
    assert_eq!(failed.into_result(), Some(Err(LifecycleError::no_client())));
}
