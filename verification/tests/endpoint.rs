use aperture_grpc_client::{endpoint_plan, ApertureClientConfig, ApertureGrpcClientError};
use std::time::Duration;

#[test]
fn default_config_plans_tls_with_its_settings() {
    let config = ApertureClientConfig::default();
    let plan = endpoint_plan(&config).expect("default endpoint is valid");
    assert_eq!(plan.uri, config.endpoint);
    assert!(plan.use_tls);
    assert_eq!(plan.connect_timeout, Duration::from_secs(3));
    assert_eq!(plan.request_timeout, None);
    assert!(plan.tcp_nodelay);
    assert!(plan.http2_adaptive_window);
    assert!(plan.keep_alive_while_idle);
    assert_eq!(plan.http2_keep_alive_interval, Some(Duration::from_secs(10)));
    assert_eq!(plan.http2_keep_alive_timeout, Some(Duration::from_secs(3)));
    assert_eq!(plan.initial_stream_window_size, Some(16 * 1024 * 1024));
    assert_eq!(plan.initial_connection_window_size, Some(16 * 1024 * 1024));
    assert_eq!(plan.http2_max_header_list_size, None);
    assert_eq!(plan.user_agent.as_deref(), Some("aperture-grpc-client/0.6.1"));
}

#[test]
fn plain_http_endpoint_plans_no_tls() {
    let mut config = ApertureClientConfig::new("http://127.0.0.1:10000");
    config.request_timeout = Some(Duration::from_secs(7));
    config.http2_max_header_list_size = Some(4096);
    config.user_agent = None;
    let plan = endpoint_plan(&config).expect("valid endpoint");
    assert!(!plan.use_tls);
    assert_eq!(plan.request_timeout, Some(Duration::from_secs(7)));
    assert_eq!(plan.http2_max_header_list_size, Some(4096));
    assert_eq!(plan.user_agent, None);
}

#[test]
fn uppercase_https_plans_tls() {
    let plan = endpoint_plan(&ApertureClientConfig::new("HTTPS://example.com:443")).expect("valid");
    assert!(plan.use_tls);
}

#[test]
fn unix_socket_endpoint_is_accepted() {
    let plan = endpoint_plan(&ApertureClientConfig::new("unix:/tmp/aperture.sock")).expect("unix path");
    assert!(!plan.use_tls);
}

#[test]
fn empty_endpoint_is_a_transport_error() {
    assert!(matches!(
        endpoint_plan(&ApertureClientConfig::new("")),
        Err(ApertureGrpcClientError::Transport(_))
    ));
}

#[test]
fn user_agent_with_newline_is_a_transport_error() {
    let mut config = ApertureClientConfig::new("http://127.0.0.1:10000");
    config.user_agent = Some("agent\nbad".to_string());
    assert!(matches!(endpoint_plan(&config), Err(ApertureGrpcClientError::Transport(_))));
}
