use aperture_grpc_client::{
    apply_x_token, endpoint_uses_https, ApertureClientConfig, ReconnectConfig, SubscribeFilters,
    SubscribeRequest, VoteFilter, X_TOKEN_METADATA_KEY,
};
use std::time::Duration;

#[test]
fn filters_convert_to_proto_request() {
    let request = SubscribeRequest::from_filters(
        SubscribeFilters::default()
            .vote(VoteFilter::NonVoteOnly)
            .signature([1; 64])
            .include_account([2; 32])
            .exclude_account([3; 32])
            .require_account([4; 32])
            .signatures_only()
            .include_simulation(),
    );

    assert_eq!(request.vote, VoteFilter::NonVoteOnly as i32);
    assert_eq!(request.signature, vec![1; 64]);
    assert_eq!(request.account_include, vec![vec![2; 32]]);
    assert_eq!(request.account_exclude, vec![vec![3; 32]]);
    assert_eq!(request.account_required, vec![vec![4; 32]]);
    assert!(request.signatures_only);
    assert!(request.include_simulation);
}

#[test]
fn reconnect_backoff_caps_at_max_delay() {
    let reconnect = ReconnectConfig {
        min_delay: Duration::from_millis(100),
        max_delay: Duration::from_millis(350),
        ..ReconnectConfig::default()
    };

    assert_eq!(reconnect.delay_for_attempt(1), Duration::from_millis(100));
    assert_eq!(reconnect.delay_for_attempt(2), Duration::from_millis(200));
    assert_eq!(reconnect.delay_for_attempt(3), Duration::from_millis(350));
    assert_eq!(reconnect.delay_for_attempt(20), Duration::from_millis(350));
}

#[test]
fn endpoint_scheme_detection_is_https_only() {
    assert!(endpoint_uses_https("https://aperture-grpc.rpcfast.com:443"));
    assert!(endpoint_uses_https("HTTPS://aperture-grpc.rpcfast.com:443"));
    assert!(!endpoint_uses_https("http://127.0.0.1:10000"));
    assert!(!endpoint_uses_https("grpc://aperture-grpc.rpcfast.com:443"));
}

#[test]
fn x_token_is_the_only_configured_metadata() {
    let config = ApertureClientConfig::default().with_x_token("secret-token");

    let metadata = apply_x_token(config.x_token.as_deref()).expect("valid token");

    assert_eq!(
        metadata
            .iter()
            .find(|(key, _)| key == X_TOKEN_METADATA_KEY)
            .map(|(_, value)| value.as_str())
            .expect("x-token set"),
        "secret-token"
    );
    assert_eq!(metadata.len(), 1);
}
