use grpc_connect::client::ApiVersion;
use grpc_connect::error::ExporterError;
use grpc_connect::grpc_client::{
    ClientHandle, ConnectOutcome, ConnectStep, GrpcClient, GrpcContext, MayaClientV1,
    RetryReason, Timeouts,
};
use std::time::Duration;

fn timeouts() -> Timeouts {
    Timeouts::new(Duration::from_secs(1), Duration::from_secs(5))
}

fn context(version: ApiVersion) -> GrpcContext {
    GrpcContext::new("localhost:10124", timeouts(), version).unwrap()
}

fn connect(
    version: ApiVersion,
    outcome: ConnectOutcome<u32, String>,
) -> ConnectStep<u32, String> {
    GrpcClient::connect_step(context(version), outcome)
}

fn ready(step: ConnectStep<u32, String>) -> GrpcClient<u32, String> {
    match step {
        ConnectStep::Ready(client) => client,
        ConnectStep::Retry { .. } => panic!("expected a connected client"),
    }
}

#[test]
fn timeouts_keep_configured_values() {
    let t = Timeouts::new(Duration::from_millis(250), Duration::from_secs(7));
    assert_eq!(t.connect(), Duration::from_millis(250));
    assert_eq!(t.request(), Duration::from_secs(7));
}

#[test]
fn context_derives_channel_timeouts() {
    let ctx = GrpcContext::new("localhost:10124", timeouts(), ApiVersion::V0).unwrap();
    assert_eq!(ctx.channel_connect_timeout(), Duration::from_millis(1500));
    assert_eq!(ctx.channel_request_timeout(), Duration::from_secs(5));
    assert_eq!(ctx.attempt_deadline(), Duration::from_secs(1));
    assert_eq!(ctx.api_version(), ApiVersion::V0);
}

#[test]
fn context_margin_on_zero_connect_timeout() {
    let t = Timeouts::new(Duration::ZERO, Duration::ZERO);
    let ctx = GrpcContext::new("10.1.0.7:10124", t, ApiVersion::V1).unwrap();
    assert_eq!(ctx.channel_connect_timeout(), Duration::from_millis(500));
    assert_eq!(ctx.channel_request_timeout(), Duration::ZERO);
    assert_eq!(ctx.api_version(), ApiVersion::V1);
}

#[test]
fn context_endpoint_has_http_scheme() {
    let ctx = context(ApiVersion::V0);
    assert_eq!(ctx.endpoint().uri().to_string(), "http://localhost:10124/");
}

#[test]
fn context_rejects_invalid_character() {
    match GrpcContext::new("bad host:10124", timeouts(), ApiVersion::V0) {
        Err(ExporterError::InvalidURI(message)) => {
            assert_eq!(message, "Invalid uri: bad host:10124")
        }
        _ => panic!("expected InvalidURI"),
    }
}

#[test]
fn context_rejects_two_ports() {
    let r = GrpcContext::new("localhost:8080:3030", timeouts(), ApiVersion::V1);
    assert!(matches!(r, Err(ExporterError::InvalidURI(_))));
}

#[test]
fn context_from_parsed_error() {
    let parsed = "http://a b".parse::<actix_web::http::Uri>();
    assert!(parsed.is_err());
    let r = GrpcContext::from_parsed("a b", parsed, timeouts(), ApiVersion::V0);
    assert!(matches!(r, Err(ExporterError::InvalidURI(_))));
}

#[test]
fn v0_client_ready_on_first_attempt() {
    let client = ready(connect(ApiVersion::V0, ConnectOutcome::Connected(ClientHandle::V0(7))));
    assert_eq!(client.client_v0().unwrap(), 7);
    match client.client_v1() {
        Err(ExporterError::GrpcClientError(message)) => {
            assert_eq!(message, "Could not get v1 client")
        }
        _ => panic!("expected GrpcClientError"),
    }
    assert_eq!(client.api_version(), ApiVersion::V0);
}

#[test]
fn v1_client_ready_on_first_attempt() {
    let pool = MayaClientV1 { pool: "pool".to_string() };
    let client = ready(connect(ApiVersion::V1, ConnectOutcome::Connected(ClientHandle::V1(pool))));
    assert_eq!(client.client_v1().unwrap().pool, "pool");
    match client.client_v0() {
        Err(ExporterError::GrpcClientError(message)) => {
            assert_eq!(message, "Could not get v0 client")
        }
        _ => panic!("expected GrpcClientError"),
    }
    assert_eq!(client.api_version(), ApiVersion::V1);
}

#[test]
fn accessors_repeat_the_same_answer() {
    let client = ready(connect(ApiVersion::V0, ConnectOutcome::Connected(ClientHandle::V0(3))));
    assert_eq!(client.client_v0().unwrap(), 3);
    assert_eq!(client.client_v0().unwrap(), 3);
    assert!(client.client_v1().is_err());
    assert!(client.client_v1().is_err());
    assert_eq!(client.api_version(), ApiVersion::V0);
    assert_eq!(client.api_version(), ApiVersion::V0);
}

#[test]
fn timeout_is_retried_after_backoff() {
    match connect(ApiVersion::V0, ConnectOutcome::TimedOut) {
        ConnectStep::Retry { context, reason, backoff } => {
            assert_eq!(reason, RetryReason::ConnectTimeout);
            assert_eq!(backoff, Duration::from_secs(10));
            assert_eq!(context.api_version(), ApiVersion::V0);
        }
        ConnectStep::Ready(_) => panic!("expected a retry"),
    }
}

#[test]
fn connection_error_is_retried_after_backoff() {
    match connect(ApiVersion::V1, ConnectOutcome::Failed) {
        ConnectStep::Retry { context, reason, backoff } => {
            assert_eq!(reason, RetryReason::ConnectionError);
            assert_eq!(backoff, Duration::from_secs(10));
            assert_eq!(context.api_version(), ApiVersion::V1);
        }
        ConnectStep::Ready(_) => panic!("expected a retry"),
    }
}

#[test]
fn retry_messages() {
    assert_eq!(
        RetryReason::ConnectTimeout.message(),
        "Grpc connection timeout, retrying after 10s"
    );
    assert_eq!(
        RetryReason::ConnectionError.message(),
        "Grpc client connection error, retrying after 10s"
    );
}

#[test]
fn loop_waits_until_endpoint_reachable() {
    let mut outcomes: Vec<ConnectOutcome<u32, String>> = vec![
        ConnectOutcome::Failed,
        ConnectOutcome::TimedOut,
        ConnectOutcome::Connected(ClientHandle::V0(11)),
    ];
    outcomes.reverse();
    let mut ctx = context(ApiVersion::V0);
    let mut waited = Duration::ZERO;
    let mut attempts = 0;
    let client = loop {
        attempts += 1;
        match GrpcClient::connect_step(ctx, outcomes.pop().unwrap()) {
            ConnectStep::Retry { context, backoff, .. } => {
                waited += backoff;
                ctx = context;
            }
            ConnectStep::Ready(client) => break client,
        }
    };
    assert_eq!(attempts, 3);
    assert_eq!(waited, Duration::from_secs(20));
    assert_eq!(client.client_v0().unwrap(), 11);
    assert_eq!(client.api_version(), ApiVersion::V0);
}

