use aperture_grpc_client::{
    apply_x_token, ApertureClientConfig, ApertureGrpcClient, ApertureGrpcClientError,
    DEFAULT_MAX_MESSAGE_SIZE, X_TOKEN_METADATA_KEY,
};
use std::time::Duration;

#[test]
fn default_config_matches_documented_defaults() {
    let config = ApertureClientConfig::default();
    assert_eq!(config.endpoint, "https://aperture-txstream.rpcfast.com:443");
    assert_eq!(config.connect_timeout, Duration::from_secs(3));
    assert_eq!(config.request_timeout, None);
    assert!(config.tcp_nodelay);
    assert_eq!(config.http2_keep_alive_interval, Some(Duration::from_secs(10)));
    assert_eq!(config.http2_keep_alive_timeout, Some(Duration::from_secs(3)));
    assert!(config.keep_alive_while_idle);
    assert!(config.http2_adaptive_window);
    assert_eq!(config.initial_stream_window_size, Some(16 * 1024 * 1024));
    assert_eq!(config.initial_connection_window_size, Some(16 * 1024 * 1024));
    assert_eq!(config.http2_max_header_list_size, None);
    assert_eq!(config.max_decoding_message_size, DEFAULT_MAX_MESSAGE_SIZE);
    assert_eq!(config.max_encoding_message_size, 16 * 1024 * 1024);
    assert_eq!(config.user_agent.as_deref(), Some("aperture-grpc-client/0.6.1"));
    assert_eq!(config.x_token, None);
    assert!(config.reconnect.enabled);
    assert_eq!(config.reconnect.max_attempts, None);
}

#[test]
fn new_config_keeps_defaults_with_given_endpoint() {
    let config = ApertureClientConfig::new("http://127.0.0.1:10000");
    assert_eq!(config.endpoint, "http://127.0.0.1:10000");
    assert_eq!(config.connect_timeout, Duration::from_secs(3));
    assert_eq!(config.user_agent.as_deref(), Some("aperture-grpc-client/0.6.1"));
    assert_eq!(config.x_token, None);
}

#[test]
fn with_x_token_sets_only_the_token() {
    let config = ApertureClientConfig::new("http://localhost:1").with_x_token("rpcfast-token");
    assert_eq!(config.x_token.as_deref(), Some("rpcfast-token"));
    assert_eq!(config.endpoint, "http://localhost:1");
    assert_eq!(config.connect_timeout, Duration::from_secs(3));
}

#[test]
fn client_keeps_its_config() {
    let client = ApertureGrpcClient::new(ApertureClientConfig::new("http://localhost:2"));
    assert_eq!(client.config().endpoint, "http://localhost:2");
    let copy = client.clone();
    assert_eq!(copy.config().endpoint, "http://localhost:2");
}

#[test]
fn no_token_sends_no_metadata() {
    let metadata = apply_x_token(None).expect("no token");
    assert!(metadata.is_empty());
}

#[test]
fn token_with_control_character_is_rejected() {
    match apply_x_token(Some("bad\ntoken")) {
        Err(ApertureGrpcClientError::InvalidXTokenMetadata(message)) => {
            assert_eq!(message, "failed to parse metadata value");
        }
        other => panic!("unexpected result {:?}", other),
    }
    assert!(apply_x_token(Some("del\u{7f}")).is_err());
}

#[test]
fn token_with_tab_and_high_bytes_is_accepted() {
    let metadata = apply_x_token(Some("a\tb é")).expect("valid header bytes");
    assert_eq!(metadata, vec![(X_TOKEN_METADATA_KEY.to_string(), "a\tb é".to_string())]);
}
