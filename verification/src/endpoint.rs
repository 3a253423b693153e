//! The endpoint a client connects to: the URI and user agent checked with
//! tonic, the tuning settings taken from the configuration, and whether TLS applies.

use crate::client::{is_valid_metadata_value, ApertureGrpcClientError};
use crate::config::{ascii_lowercase, endpoint_uses_https, https_prefix, starts_with_https, ApertureClientConfig};
use std::time::Duration;
use tonic::transport::Endpoint;
use vstd::prelude::*;
use vstd::string::StringSliceAdditionalSpecFns;
use vstd::utf8::encode_utf8;

verus! {

/// A tonic endpoint: a URI with its connection settings.
#[verifier::external_type_specification]
#[verifier::external_body]
pub struct ExEndpoint(Endpoint);

/// Whether tonic's `Endpoint::from_shared` accepts these bytes as an endpoint URI.
pub uninterp spec fn endpoint_uri_accepted(uri: Seq<u8>) -> bool;

/// Calls tonic's `Endpoint::from_shared` on the URI. It succeeds exactly when
/// the URI is accepted; the source rejects the empty URI (`http::Uri` reports
/// it as empty) and accepts every URI that starts with `unix:` (a Unix socket path).
#[verifier::external_body]
fn parse_endpoint_uri(uri: &str) -> (r: Result<Endpoint, tonic::transport::Error>)
    ensures
        r is Ok <==> endpoint_uri_accepted(uri.spec_bytes()),
        uri.spec_bytes().len() == 0 ==> r is Err,
        uri.spec_bytes().len() >= 5 && uri.spec_bytes().take(5) == seq![117u8, 110u8, 105u8, 120u8, 58u8]
            ==> r is Ok,
{
    Endpoint::from_shared(uri.to_string())
}

/// Calls tonic's `Endpoint::user_agent` with `agent` on a copy of `endpoint`,
/// keeping only whether it succeeded. tonic converts the string into an
/// `http::HeaderValue`, which accepts it exactly when every byte is a tab or
/// at least 32 and not 127; otherwise it reports an invalid user agent.
#[verifier::external_body]
fn check_user_agent(endpoint: &Endpoint, agent: &str) -> (r: Result<(), tonic::transport::Error>)
    ensures
        r is Ok <==> is_valid_metadata_value(agent.spec_bytes()),
{
    match endpoint.clone().user_agent(agent.to_string()) {
        Ok(_) => Ok(()),
        Err(err) => Err(err),
    }
}

/// Everything a connection is built from: the endpoint URI, the tuning
/// settings, the user agent, and whether the connection uses TLS with the
/// native trust roots.
#[derive(Debug, Clone)]
pub struct EndpointPlan {
    pub uri: String,
    pub connect_timeout: Duration,
    pub request_timeout: Option<Duration>,
    pub tcp_nodelay: bool,
    pub http2_adaptive_window: bool,
    pub keep_alive_while_idle: bool,
    pub http2_keep_alive_interval: Option<Duration>,
    pub http2_keep_alive_timeout: Option<Duration>,
    pub initial_stream_window_size: Option<u32>,
    pub initial_connection_window_size: Option<u32>,
    pub http2_max_header_list_size: Option<u32>,
    pub user_agent: Option<String>,
    pub use_tls: bool,
}

/// Whether the configured user agent, if any, is a valid header value.
pub open spec fn user_agent_valid(config: ApertureClientConfig) -> bool {
    config.user_agent matches Some(agent) ==> is_valid_metadata_value(encode_utf8(agent@))
}

/// Whether `plan` carries the settings of `config`, with TLS exactly for `https` endpoints.
pub open spec fn plan_follows_config(plan: EndpointPlan, config: ApertureClientConfig) -> bool {
    &&& plan.uri@ == config.endpoint@
    &&& plan.connect_timeout == config.connect_timeout
    &&& plan.request_timeout == config.request_timeout
    &&& plan.tcp_nodelay == config.tcp_nodelay
    &&& plan.http2_adaptive_window == config.http2_adaptive_window
    &&& plan.keep_alive_while_idle == config.keep_alive_while_idle
    &&& plan.http2_keep_alive_interval == config.http2_keep_alive_interval
    &&& plan.http2_keep_alive_timeout == config.http2_keep_alive_timeout
    &&& plan.initial_stream_window_size == config.initial_stream_window_size
    &&& plan.initial_connection_window_size == config.initial_connection_window_size
    &&& plan.http2_max_header_list_size == config.http2_max_header_list_size
    &&& match (plan.user_agent, config.user_agent) {
        (Some(p), Some(c)) => p@ == c@,
        (None, None) => true,
        _ => false,
    }
    &&& plan.use_tls == starts_with_https(encode_utf8(config.endpoint@))
}

/// The endpoint plan of a configuration: a transport error where tonic rejects
/// the endpoint URI or the user agent, and otherwise the configuration's
/// settings, with TLS exactly when the endpoint uses `https`.
pub fn endpoint_plan(config: &ApertureClientConfig) -> (r: Result<EndpointPlan, ApertureGrpcClientError>)
    ensures
        r is Ok <==> endpoint_uri_accepted(encode_utf8(config.endpoint@)) && user_agent_valid(*config),
        r matches Err(e) ==> e is Transport,
        r matches Ok(plan) ==> plan_follows_config(plan, *config),
{
    let uri = config.endpoint.as_str();
    let endpoint = match parse_endpoint_uri(uri) {
        Ok(endpoint) => endpoint,
        Err(err) => return Err(ApertureGrpcClientError::Transport(err)),
    };
    let user_agent = match &config.user_agent {
        Some(agent) => {
            match check_user_agent(&endpoint, agent.as_str()) {
                Ok(()) => {},
                Err(err) => return Err(ApertureGrpcClientError::Transport(err)),
            }
            Some(agent.clone())
        },
        None => None,
    };
    Ok(EndpointPlan {
        uri: config.endpoint.clone(),
        connect_timeout: config.connect_timeout,
        request_timeout: config.request_timeout,
        tcp_nodelay: config.tcp_nodelay,
        http2_adaptive_window: config.http2_adaptive_window,
        keep_alive_while_idle: config.keep_alive_while_idle,
        http2_keep_alive_interval: config.http2_keep_alive_interval,
        http2_keep_alive_timeout: config.http2_keep_alive_timeout,
        initial_stream_window_size: config.initial_stream_window_size,
        initial_connection_window_size: config.initial_connection_window_size,
        http2_max_header_list_size: config.http2_max_header_list_size,
        user_agent,
        use_tls: endpoint_uses_https(uri),
    })
}


/// Law of `endpoint_plan`: the plan exists exactly when tonic accepts the
/// endpoint URI and the user agent, if any, is a valid header value; a refusal
/// is a transport error; and the plan carries each setting of the
/// configuration into the field of the same name.
pub proof fn law_endpoint_plan_copies_settings(
    config: ApertureClientConfig,
    r: Result<EndpointPlan, ApertureGrpcClientError>,
)
    requires
        call_ensures(endpoint_plan, (&config,), r),
    ensures
        r is Ok <==> (endpoint_uri_accepted(encode_utf8(config.endpoint@)) && (config.user_agent is Some
            ==> is_valid_metadata_value(encode_utf8(config.user_agent->0@)))),
        r is Err ==> r->Err_0 is Transport,
        r is Ok ==> r->Ok_0.uri@ == config.endpoint@,
        r is Ok ==> r->Ok_0.connect_timeout == config.connect_timeout,
        r is Ok ==> r->Ok_0.request_timeout == config.request_timeout,
        r is Ok ==> r->Ok_0.tcp_nodelay == config.tcp_nodelay,
        r is Ok ==> r->Ok_0.http2_adaptive_window == config.http2_adaptive_window,
        r is Ok ==> r->Ok_0.keep_alive_while_idle == config.keep_alive_while_idle,
        r is Ok ==> r->Ok_0.http2_keep_alive_interval == config.http2_keep_alive_interval,
        r is Ok ==> r->Ok_0.http2_keep_alive_timeout == config.http2_keep_alive_timeout,
        r is Ok ==> r->Ok_0.initial_stream_window_size == config.initial_stream_window_size,
        r is Ok ==> r->Ok_0.initial_connection_window_size == config.initial_connection_window_size,
        r is Ok ==> r->Ok_0.http2_max_header_list_size == config.http2_max_header_list_size,
        r is Ok ==> (r->Ok_0.user_agent is Some <==> config.user_agent is Some),
        r is Ok && config.user_agent is Some ==> r->Ok_0.user_agent->0@ == config.user_agent->0@,
{
}

/// Law of `endpoint_plan`: the plan uses TLS exactly when the endpoint's first
/// eight bytes spell `https://` with each letter in either case.
pub proof fn law_endpoint_plan_tls_iff_https(
    config: ApertureClientConfig,
    r: Result<EndpointPlan, ApertureGrpcClientError>,
)
    requires
        call_ensures(endpoint_plan, (&config,), r),
        r is Ok,
    ensures
        ({
            let bytes = encode_utf8(config.endpoint@);
            let lower = seq![104u8, 116u8, 116u8, 112u8, 115u8, 58u8, 47u8, 47u8];
            let upper = seq![72u8, 84u8, 84u8, 80u8, 83u8, 58u8, 47u8, 47u8];
            r->Ok_0.use_tls <==> (bytes.len() >= 8 && forall|i: int|
                0 <= i < 8 ==> #[trigger] bytes[i] == lower[i] || bytes[i] == upper[i])
        }),
{
    let bytes = encode_utf8(config.endpoint@);
    let lower = seq![104u8, 116u8, 116u8, 112u8, 115u8, 58u8, 47u8, 47u8];
    let upper = seq![72u8, 84u8, 84u8, 80u8, 83u8, 58u8, 47u8, 47u8];
    assert(lower == https_prefix());
    assert forall|i: int| 0 <= i < 8 implies (ascii_lowercase(#[trigger] bytes[i]) == lower[i] <==> (bytes[i]
        == lower[i] || bytes[i] == upper[i])) by {
        assert(lower[i] == https_prefix()[i]);
    }
}

} // verus!
