//! The client handle, its errors, and the `x-token` authentication metadata.

use crate::config::ApertureClientConfig;
use std::sync::Arc;
use vstd::prelude::*;
use vstd::string::StringSliceAdditionalSpecFns;

verus! {

/// A transport error of tonic (a failure to parse the endpoint or to connect).
#[verifier::external_type_specification]
#[verifier::external_body]
pub struct ExTransportError(tonic::transport::Error);

/// A gRPC status of tonic (a failed call or stream).
#[verifier::external_type_specification]
#[verifier::external_body]
pub struct ExStatus(tonic::Status);

/// Errors of the client.
#[derive(Debug)]
pub enum ApertureGrpcClientError {
    /// Transport error.
    Transport(tonic::transport::Error),
    /// gRPC status.
    Status(tonic::Status),
    /// Invalid `X-Token` metadata value, with the reason.
    InvalidXTokenMetadata(String),
    /// Reconnect attempts exhausted after `attempts` attempts.
    ReconnectAttemptsExhausted { attempts: u32 },
}

/// The gRPC metadata key that carries the `X-Token` authentication header.
pub const X_TOKEN_METADATA_KEY: &'static str = "x-token";

/// Whether a byte may stand in an HTTP header value: tab, or any byte from 32
/// upwards except DEL (127).
pub open spec fn is_header_value_byte(b: u8) -> bool {
    (b >= 32 && b != 127) || b == 9
}

/// Whether `bytes` form a valid gRPC ASCII metadata value: each byte may stand
/// in an HTTP header value.
pub open spec fn is_valid_metadata_value(bytes: Seq<u8>) -> bool {
    forall|i: int| 0 <= i < bytes.len() ==> is_header_value_byte(#[trigger] bytes[i])
}

/// The message of tonic's `InvalidMetadataValue` error.
pub open spec fn invalid_metadata_message() -> Seq<char> {
    "failed to parse metadata value"@
}

/// Parses `value` as a tonic ASCII metadata value (`str::parse::<MetadataValue<Ascii>>`)
/// and keeps only whether that succeeded. tonic hands the string to
/// `http::HeaderValue::from_str`, which accepts it exactly when every byte is a
/// tab or at least 32 and not 127; the error, `InvalidMetadataValue`, displays
/// as "failed to parse metadata value".
#[verifier::external_body]
fn parse_ascii_metadata_value(value: &str) -> (r: Result<(), String>)
    ensures
        r is Ok <==> is_valid_metadata_value(value.spec_bytes()),
        r matches Err(message) ==> message@ == invalid_metadata_message(),
{
    match value.parse::<tonic::metadata::MetadataValue<tonic::metadata::Ascii>>() {
        Ok(_) => Ok(()),
        Err(err) => Err(err.to_string()),
    }
}

/// The gRPC metadata that a subscription sends: the `x-token` entry carrying
/// `x_token` where there is one, and nothing else; an error where the token is
/// not a valid metadata value.
pub fn apply_x_token(x_token: Option<&str>) -> (r: Result<Vec<(String, String)>, ApertureGrpcClientError>)
    ensures
        match x_token {
            None => r matches Ok(entries) && entries@.len() == 0,
            Some(token) => if is_valid_metadata_value(token.spec_bytes()) {
                &&& r matches Ok(entries)
                &&& entries@.len() == 1
                &&& entries@[0].0@ == X_TOKEN_METADATA_KEY@
                &&& entries@[0].1@ == token@
            } else {
                r matches Err(ApertureGrpcClientError::InvalidXTokenMetadata(message))
                    && message@ == invalid_metadata_message()
            },
        },
{
    let mut entries: Vec<(String, String)> = Vec::new();
    match x_token {
        Some(token) => {
            match parse_ascii_metadata_value(token) {
                Ok(()) => {
                    entries.push((X_TOKEN_METADATA_KEY.to_owned(), token.to_owned()));
                },
                Err(message) => {
                    return Err(ApertureGrpcClientError::InvalidXTokenMetadata(message));
                },
            }
        },
        None => {},
    }
    Ok(entries)
}

/// Calls `Arc::clone` on the shared configuration. Its documentation: makes
/// another pointer to the same allocation, so the pointee is the same value.
#[verifier::external_body]
fn share_config(config: &Arc<ApertureClientConfig>) -> (shared: Arc<ApertureClientConfig>)
    ensures
        *shared == **config,
{
    Arc::clone(config)
}

/// High-level Aperture gRPC client with tuned HTTP/2 defaults and reconnects.
#[derive(Debug)]
pub struct ApertureGrpcClient {
    config: Arc<ApertureClientConfig>,
}

impl ApertureGrpcClient {
    /// The configuration this client was made with.
    pub closed spec fn configuration(&self) -> ApertureClientConfig {
        *self.config
    }

    /// A client that connects with `config`.
    pub fn new(config: ApertureClientConfig) -> (client: ApertureGrpcClient)
        ensures
            client.configuration() == config,
    {
        ApertureGrpcClient { config: Arc::new(config) }
    }

    /// The configuration this client connects with.
    pub fn config(&self) -> (config: &ApertureClientConfig)
        ensures
            *config == self.configuration(),
    {
        &self.config
    }
}

impl Clone for ApertureGrpcClient {
    /// Another handle on the same configuration.
    fn clone(&self) -> (client: ApertureGrpcClient)
        ensures
            client.configuration() == self.configuration(),
    {
        ApertureGrpcClient { config: share_config(&self.config) }
    }
}


/// Law of `apply_x_token`: without a token no metadata is sent; a token whose
/// bytes are all tabs or at least 32 and not 127 is sent as the single entry
/// `x-token`; any other token is refused with tonic's message "failed to parse
/// metadata value".
pub proof fn law_x_token_metadata(
    x_token: Option<&str>,
    r: Result<Vec<(String, String)>, ApertureGrpcClientError>,
)
    requires
        call_ensures(apply_x_token, (x_token,), r),
    ensures
        x_token is None ==> r is Ok && r->Ok_0@.len() == 0,
        ({
            let valid = x_token is Some && forall|i: int|
                0 <= i < x_token->0.spec_bytes().len() ==> {
                    let b = #[trigger] x_token->0.spec_bytes()[i];
                    (b >= 32 && b != 127) || b == 9
                };
            &&& valid ==> r is Ok && r->Ok_0@.len() == 1 && r->Ok_0@[0].0@ == "x-token"@
                && r->Ok_0@[0].1@ == x_token->0@
            &&& (x_token is Some && !valid) ==> (r is Err && r->Err_0 is InvalidXTokenMetadata
                && r->Err_0->InvalidXTokenMetadata_0@ == "failed to parse metadata value"@)
        }),
{
    reveal_strlit("x-token");
}

/// Law of the client handle: a client made from a configuration hands back that
/// configuration, and so does every clone of it.
pub proof fn law_client_keeps_config(
    config: ApertureClientConfig,
    client: ApertureGrpcClient,
    seen: &ApertureClientConfig,
    copy: ApertureGrpcClient,
    seen_in_copy: &ApertureClientConfig,
)
    requires
        call_ensures(ApertureGrpcClient::new, (config,), client),
        call_ensures(ApertureGrpcClient::config, (&client,), seen),
        call_ensures(<ApertureGrpcClient as Clone>::clone, (&client,), copy),
        call_ensures(ApertureGrpcClient::config, (&copy,), seen_in_copy),
    ensures
        *seen == config,
        *seen_in_copy == config,
{
}

} // verus!
