use prism_proxy::client::{
    DrainResponse, HealthCheckResponse, InitializeResponse, PatternMetadata, StartResponse,
    StopResponse,
};
use prism_proxy::step::Stage;
use prism_proxy::text::{decimal_string, endpoint_for, prefixed};
use prism_proxy::{ErrorKind, HealthStatus, LifecycleError, PatternClient, PatternStatus};

fn client() -> PatternClient {
    PatternClient::connect("http://localhost:9001".to_string(), Ok(())).unwrap()
}

#[test]
fn connect_binds_the_endpoint() {
    assert_eq!(client().endpoint(), "http://localhost:9001");
}

#[test]
fn initialize_reads_the_reply() {
    let metadata = PatternMetadata { name: "kv".to_string(), version: "1".to_string() };
    let ok = InitializeResponse {
        success: true,
        error: "ignored".to_string(),
        metadata: Some(metadata.clone()),
    };
    assert_eq!(client().initialize(Ok(ok)), Ok(Some(metadata)));

    let bare = InitializeResponse { success: true, error: String::new(), metadata: None };
    assert_eq!(client().initialize(Ok(bare)), Ok(None));

    let refused =
        InitializeResponse { success: false, error: "no schema".to_string(), metadata: None };
    let error = client().initialize(Ok(refused)).unwrap_err();
    assert_eq!(error.kind(), ErrorKind::Logical);
    assert_eq!(error.message(), "Initialize failed: no schema");

    let error = client().initialize(Err("status: Unavailable".to_string())).unwrap_err();
    assert_eq!(error.kind(), ErrorKind::Transport);
    assert_eq!(error.message(), "status: Unavailable");
}

#[test]
fn start_gives_the_data_endpoint() {
    let ok = StartResponse {
        success: true,
        error: String::new(),
        data_endpoint: "localhost:7000".to_string(),
    };
    assert_eq!(client().start(Ok(ok)), Ok("localhost:7000".to_string()));

    let refused = StartResponse {
        success: false,
        error: "not initialized".to_string(),
        data_endpoint: "localhost:7000".to_string(),
    };
    let error = client().start(Ok(refused)).unwrap_err();
    assert_eq!(error.kind(), ErrorKind::Logical);
    assert_eq!(error.message(), "Start failed: not initialized");

    let error = client().start(Err("reset".to_string())).unwrap_err();
    assert_eq!(error.kind(), ErrorKind::Transport);
    assert_eq!(error.message(), "reset");
}

#[test]
fn drain_and_stop_read_the_reply() {
    let ok = DrainResponse { success: true, error: String::new() };
    assert_eq!(client().drain(Ok(ok)), Ok(()));
    let refused = DrainResponse { success: false, error: "busy".to_string() };
    assert_eq!(client().drain(Ok(refused)).unwrap_err().message(), "Drain failed: busy");
    assert_eq!(
        client().drain(Err("reset".to_string())).unwrap_err().kind(),
        ErrorKind::Transport
    );

    let ok = StopResponse { success: true, error: String::new() };
    assert_eq!(client().stop(Ok(ok)), Ok(()));
    let refused = StopResponse { success: false, error: "busy".to_string() };
    let error = client().stop(Ok(refused)).unwrap_err();
    assert_eq!(error.kind(), ErrorKind::Logical);
    assert_eq!(error.message(), "Stop failed: busy");
    assert_eq!(client().stop(Err("reset".to_string())).unwrap_err().message(), "reset");
}

#[test]
fn health_check_maps_the_report() {
    let report = |status, message: &str| Ok(HealthCheckResponse { status, message: message.to_string() });
    assert_eq!(
        client().health_check(report(HealthStatus::Healthy, "fine")),
        Ok(PatternStatus::Running)
    );
    assert_eq!(
        client().health_check(report(HealthStatus::Degraded, "slow")),
        Ok(PatternStatus::Degraded)
    );
    assert_eq!(
        client().health_check(report(HealthStatus::Unhealthy, "disk full")),
        Ok(PatternStatus::Failed("disk full".to_string()))
    );
    assert_eq!(
        client().health_check(report(HealthStatus::Unknown, "whatever")),
        Ok(PatternStatus::Failed("unknown".to_string()))
    );
    let error = client().health_check(Err("timeout".to_string())).unwrap_err();
    assert_eq!(error.kind(), ErrorKind::Transport);
    assert_eq!(error.message(), "timeout");
}

#[test]
fn status_from_health_and_running_family() {
    assert!(PatternStatus::Running.is_running());
    assert!(PatternStatus::Degraded.is_running());
    assert!(!PatternStatus::Uninitialized.is_running());
    assert!(!PatternStatus::Starting.is_running());
    assert!(!PatternStatus::Stopping.is_running());
    assert!(!PatternStatus::Stopped.is_running());
    assert!(!PatternStatus::Failed("x".to_string()).is_running());
    assert_eq!(
        PatternStatus::from_health(HealthStatus::Unhealthy, "m".to_string()),
        PatternStatus::Failed("m".to_string())
    );
    let status = PatternStatus::Failed("why".to_string());
    assert_eq!(status.clone(), status);
}

#[test]
fn errors_carry_kind_and_message() {
    let error = LifecycleError::not_found("kv1");
    assert_eq!(error.kind(), ErrorKind::NotFound);
    assert_eq!(error.message(), "Pattern not found: kv1");
    assert_eq!(error.clone(), error);

    let error = LifecycleError::no_endpoint();
    assert_eq!(error.kind(), ErrorKind::NotReady);
    assert_eq!(error.message(), "No gRPC endpoint available");

    let error = LifecycleError::no_client();
    assert_eq!(error.kind(), ErrorKind::NotReady);
    assert_eq!(error.message(), "No gRPC client available");

    let error = LifecycleError::new(ErrorKind::Process, "os error 13".to_string())
        .context("Failed to spawn pattern: ");
    assert_eq!(error.kind(), ErrorKind::Process);
    assert_eq!(error.message(), "Failed to spawn pattern: os error 13");
}

#[test]
fn stages_name_themselves() {
    assert_eq!(Stage::Spawn.status_prefix(), "Spawn failed: ");
    assert_eq!(Stage::Connect.status_prefix(), "gRPC connect failed: ");
    assert_eq!(Stage::Initialize.status_prefix(), "Initialize failed: ");
    assert_eq!(Stage::Start.status_prefix(), "Start failed: ");
    assert_eq!(Stage::Spawn.error_prefix(), "Failed to spawn pattern: ");
    assert_eq!(Stage::Connect.error_prefix(), "Failed to connect gRPC client: ");
    assert_eq!(Stage::Initialize.error_prefix(), "Failed to initialize pattern: ");
    assert_eq!(Stage::Start.error_prefix(), "Failed to start pattern: ");
}

#[test]
fn numbers_and_endpoints_are_written_in_decimal() {
    assert_eq!(decimal_string(0), "0");
    assert_eq!(decimal_string(7), "7");
    assert_eq!(decimal_string(10), "10");
    assert_eq!(decimal_string(9274), "9274");
    assert_eq!(decimal_string(65535), "65535");
    assert_eq!(decimal_string(1000), "1000");
    assert_eq!(endpoint_for(9000), "http://localhost:9000");
    assert_eq!(endpoint_for(9999), "http://localhost:9999");
    assert_eq!(endpoint_for(0), "http://localhost:0");
    assert_eq!(prefixed("a: ", "b"), "a: b");
    assert_eq!(prefixed("", ""), "");
}
