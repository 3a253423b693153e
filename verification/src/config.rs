//! Client configuration: connection tuning, authentication and reconnect policy.

use crate::duration::{duration_as_nanos, duration_from_secs, nanos_per_sec};
use crate::reconnect::ReconnectConfig;
use std::time::Duration;
use vstd::prelude::*;
use vstd::string::StringSliceAdditionalSpecFns;

verus! {

/// Default limit on encoded and decoded protobuf messages, and default initial
/// HTTP/2 flow-control window: 16 MiB.
pub const DEFAULT_MAX_MESSAGE_SIZE: usize = 16 * 1024 * 1024;

/// The endpoint a default configuration connects to.
pub open spec fn default_endpoint() -> Seq<char> {
    "https://aperture-txstream.rpcfast.com:443"@
}

/// The user agent a default configuration sends.
pub open spec fn default_user_agent() -> Seq<char> {
    "aperture-grpc-client/0.6.1"@
}

/// Client configuration for Aperture's lightweight decoded transaction stream.
#[derive(Debug, Clone)]
pub struct ApertureClientConfig {
    /// Endpoint URI, for example `https://aperture-grpc.rpcfast.com:443`.
    pub endpoint: String,
    /// TCP/connect timeout.
    pub connect_timeout: Duration,
    /// Optional per-request timeout. Keep this unset for long-lived streams.
    pub request_timeout: Option<Duration>,
    /// Enable TCP_NODELAY.
    pub tcp_nodelay: bool,
    /// HTTP/2 keepalive PING interval.
    pub http2_keep_alive_interval: Option<Duration>,
    /// HTTP/2 keepalive PING ack timeout.
    pub http2_keep_alive_timeout: Option<Duration>,
    /// Send HTTP/2 keepalives even when the connection is idle.
    pub keep_alive_while_idle: bool,
    /// Enable HTTP/2 adaptive flow-control window.
    pub http2_adaptive_window: bool,
    /// Initial per-stream HTTP/2 flow-control window.
    pub initial_stream_window_size: Option<u32>,
    /// Initial connection-level HTTP/2 flow-control window.
    pub initial_connection_window_size: Option<u32>,
    /// Optional max received HTTP/2 header list size.
    pub http2_max_header_list_size: Option<u32>,
    /// Max decoded protobuf message size.
    pub max_decoding_message_size: usize,
    /// Max encoded protobuf message size.
    pub max_encoding_message_size: usize,
    /// Optional user-agent.
    pub user_agent: Option<String>,
    /// Optional `X-Token` authentication header sent as gRPC metadata `x-token`.
    pub x_token: Option<String>,
    /// Automatic reconnection policy of the reconnecting subscriptions.
    pub reconnect: ReconnectConfig,
}

impl ApertureClientConfig {
    /// The settings every fresh configuration holds, whatever its endpoint:
    /// 3 s connect timeout, no request timeout, TCP_NODELAY, 10 s keepalive
    /// interval with 3 s timeout also while idle, adaptive window, 16 MiB
    /// windows and message limits, the crate's user agent, no `x-token`, and
    /// the default reconnect policy.
    pub open spec fn has_default_settings(&self) -> bool {
        &&& duration_as_nanos(self.connect_timeout) == 3 * nanos_per_sec()
        &&& self.request_timeout is None
        &&& self.tcp_nodelay
        &&& self.http2_keep_alive_interval matches Some(d) && duration_as_nanos(d) == 10 * nanos_per_sec()
        &&& self.http2_keep_alive_timeout matches Some(d) && duration_as_nanos(d) == 3 * nanos_per_sec()
        &&& self.keep_alive_while_idle
        &&& self.http2_adaptive_window
        &&& self.initial_stream_window_size == Some(DEFAULT_MAX_MESSAGE_SIZE as u32)
        &&& self.initial_connection_window_size == Some(DEFAULT_MAX_MESSAGE_SIZE as u32)
        &&& self.http2_max_header_list_size is None
        &&& self.max_decoding_message_size == DEFAULT_MAX_MESSAGE_SIZE
        &&& self.max_encoding_message_size == DEFAULT_MAX_MESSAGE_SIZE
        &&& self.user_agent matches Some(agent) && agent@ == default_user_agent()
        &&& self.x_token is None
        &&& self.reconnect.has_default_settings()
    }

    /// A default configuration that connects to `endpoint`.
    pub fn new(endpoint: &str) -> (config: ApertureClientConfig)
        ensures
            config.endpoint@ == endpoint@,
            config.has_default_settings(),
    {
        let mut config = ApertureClientConfig::default();
        config.endpoint = endpoint.to_owned();
        config
    }

    /// This configuration, sending `token` as the `x-token` metadata.
    pub fn with_x_token(self, token: &str) -> (config: ApertureClientConfig)
        ensures
            config.x_token matches Some(t) && t@ == token@,
            config == (ApertureClientConfig { x_token: config.x_token, ..self }),
    {
        let mut config = self;
        config.x_token = Some(token.to_owned());
        config
    }
}

impl Default for ApertureClientConfig {
    fn default() -> (config: ApertureClientConfig)
        ensures
            config.endpoint@ == default_endpoint(),
            config.has_default_settings(),
    {
        ApertureClientConfig {
            endpoint: "https://aperture-txstream.rpcfast.com:443".to_owned(),
            connect_timeout: duration_from_secs(3),
            request_timeout: None,
            tcp_nodelay: true,
            http2_keep_alive_interval: Some(duration_from_secs(10)),
            http2_keep_alive_timeout: Some(duration_from_secs(3)),
            keep_alive_while_idle: true,
            http2_adaptive_window: true,
            initial_stream_window_size: Some(DEFAULT_MAX_MESSAGE_SIZE as u32),
            initial_connection_window_size: Some(DEFAULT_MAX_MESSAGE_SIZE as u32),
            http2_max_header_list_size: None,
            max_decoding_message_size: DEFAULT_MAX_MESSAGE_SIZE,
            max_encoding_message_size: DEFAULT_MAX_MESSAGE_SIZE,
            user_agent: Some("aperture-grpc-client/0.6.1".to_owned()),
            x_token: None,
            reconnect: ReconnectConfig::default(),
        }
    }
}

/// The bytes of the scheme prefix `https://` (ASCII `h t t p s : / /`).
pub open spec fn https_prefix() -> Seq<u8> {
    seq![104u8, 116u8, 116u8, 112u8, 115u8, 58u8, 47u8, 47u8]
}

/// The ASCII lower-case form of a byte: `A`..`Z` (65..=90) become `a`..`z`,
/// every other byte stays as it is.
pub open spec fn ascii_lowercase(b: u8) -> u8 {
    if 65 <= b <= 90 {
        (b + 32) as u8
    } else {
        b
    }
}

/// Whether `bytes` starts with `https://`, ignoring ASCII case.
pub open spec fn starts_with_https(bytes: Seq<u8>) -> bool {
    &&& bytes.len() >= https_prefix().len()
    &&& forall|i: int| 0 <= i < https_prefix().len() ==> ascii_lowercase(#[trigger] bytes[i]) == https_prefix()[i]
}

/// Whether an endpoint URI uses the `https` scheme, in any ASCII case.
pub fn endpoint_uses_https(endpoint: &str) -> (https: bool)
    ensures
        https == starts_with_https(endpoint.spec_bytes()),
{
    let bytes = endpoint.as_bytes();
    let prefix: [u8; 8] = [104, 116, 116, 112, 115, 58, 47, 47];
    assert(prefix@ == https_prefix());
    if bytes.len() < 8 {
        return false;
    }
    let mut i: usize = 0;
    while i < 8
        invariant
            i <= 8,
            bytes@ == endpoint.spec_bytes(),
            bytes@.len() >= 8,
            prefix@ == https_prefix(),
            forall|j: int| 0 <= j < i ==> ascii_lowercase(#[trigger] bytes@[j]) == https_prefix()[j],
        decreases 8 - i,
    {
        let b: u8 = bytes[i];
        let lower: u8 = if 65 <= b && b <= 90 { b + 32 } else { b };
        if lower != prefix[i] {
            return false;
        }
        i = i + 1;
    }
    true
}


/// Law of `endpoint_uses_https`: true exactly when the first eight bytes of the
/// endpoint spell `https://` with each letter in either case.
pub proof fn law_endpoint_uses_https(endpoint: &str, https: bool)
    requires
        call_ensures(endpoint_uses_https, (endpoint,), https),
    ensures
        ({
            let bytes = endpoint.spec_bytes();
            let lower = seq![104u8, 116u8, 116u8, 112u8, 115u8, 58u8, 47u8, 47u8];
            let upper = seq![72u8, 84u8, 84u8, 80u8, 83u8, 58u8, 47u8, 47u8];
            https <==> (bytes.len() >= 8 && forall|i: int|
                0 <= i < 8 ==> #[trigger] bytes[i] == lower[i] || bytes[i] == upper[i])
        }),
{
    let bytes = endpoint.spec_bytes();
    let lower = seq![104u8, 116u8, 116u8, 112u8, 115u8, 58u8, 47u8, 47u8];
    let upper = seq![72u8, 84u8, 84u8, 80u8, 83u8, 58u8, 47u8, 47u8];
    assert(lower == https_prefix());
    assert forall|i: int| 0 <= i < 8 implies (ascii_lowercase(#[trigger] bytes[i]) == lower[i] <==> (bytes[i]
        == lower[i] || bytes[i] == upper[i])) by {
        assert(lower[i] == https_prefix()[i]);
    }
}

/// Law of the documented defaults, for `ApertureClientConfig::default` and for
/// `ApertureClientConfig::new` alike: 3 s connect timeout, no request timeout,
/// TCP_NODELAY, keepalive every 10 s with a 3 s timeout, also while idle,
/// adaptive window, 16 MiB windows and message limits, no header list limit,
/// the crate's user agent, no `x-token`, and reconnects enabled forever with
/// backoff from 100 ms to 5 s. `default` connects to the documented endpoint,
/// `new` to the one it is given.
pub proof fn law_documented_defaults(endpoint: &str, fresh: ApertureClientConfig, default: ApertureClientConfig)
    requires
        call_ensures(ApertureClientConfig::new, (endpoint,), fresh),
        call_ensures(<ApertureClientConfig as Default>::default, (), default),
    ensures
        fresh.endpoint@ == endpoint@,
        default.endpoint@ == "https://aperture-txstream.rpcfast.com:443"@,
        forall|c: ApertureClientConfig| #![trigger c.reconnect] c == fresh || c == default ==> {
            &&& duration_as_nanos(c.connect_timeout) == 3_000_000_000
            &&& c.request_timeout is None
            &&& c.tcp_nodelay
            &&& c.http2_keep_alive_interval is Some
            &&& duration_as_nanos(c.http2_keep_alive_interval->0) == 10_000_000_000
            &&& c.http2_keep_alive_timeout is Some
            &&& duration_as_nanos(c.http2_keep_alive_timeout->0) == 3_000_000_000
            &&& c.keep_alive_while_idle
            &&& c.http2_adaptive_window
            &&& c.initial_stream_window_size == Some(16_777_216u32)
            &&& c.initial_connection_window_size == Some(16_777_216u32)
            &&& c.http2_max_header_list_size is None
            &&& c.max_decoding_message_size == 16_777_216
            &&& c.max_encoding_message_size == 16_777_216
            &&& c.user_agent is Some
            &&& c.user_agent->0@ == "aperture-grpc-client/0.6.1"@
            &&& c.x_token is None
            &&& c.reconnect.enabled
            &&& duration_as_nanos(c.reconnect.min_delay) == 100_000_000
            &&& duration_as_nanos(c.reconnect.max_delay) == 5_000_000_000
            &&& c.reconnect.max_attempts is None
        },
{
}


/// Law of `with_x_token`: the token is set to the given string and every other
/// setting stays as it was.
pub proof fn law_with_x_token(config: ApertureClientConfig, token: &str, result: ApertureClientConfig)
    requires
        call_ensures(ApertureClientConfig::with_x_token, (config, token), result),
    ensures
        result.x_token is Some,
        result.x_token->0@ == token@,
        result.endpoint == config.endpoint,
        result.connect_timeout == config.connect_timeout,
        result.request_timeout == config.request_timeout,
        result.tcp_nodelay == config.tcp_nodelay,
        result.http2_keep_alive_interval == config.http2_keep_alive_interval,
        result.http2_keep_alive_timeout == config.http2_keep_alive_timeout,
        result.keep_alive_while_idle == config.keep_alive_while_idle,
        result.http2_adaptive_window == config.http2_adaptive_window,
        result.initial_stream_window_size == config.initial_stream_window_size,
        result.initial_connection_window_size == config.initial_connection_window_size,
        result.http2_max_header_list_size == config.http2_max_header_list_size,
        result.max_decoding_message_size == config.max_decoding_message_size,
        result.max_encoding_message_size == config.max_encoding_message_size,
        result.user_agent == config.user_agent,
        result.reconnect == config.reconnect,
{
}

} // verus!
