//! Verified core of a client for Aperture's decoded transaction gRPC stream:
//! reconnect backoff and the reconnect decision machine, client configuration,
//! byte-level subscription filters and the request they make, endpoint scheme
//! detection, and the `x-token` authentication metadata.

pub mod client;
pub mod config;
pub mod duration;
pub mod endpoint;
pub mod filters;
pub mod reconnect;

pub use aperture_grpc_proto::{
    aperture_client, aperture_server, CompiledInstruction, DecodedTransaction,
    DecodedTransactionBatch, MessageHeader, SimulationStatus, SubscribeTransactionsRequest,
    TransactionReturnData, TransactionSimulation, TransactionVersion, VoteFilter,
};
pub use client::{apply_x_token, ApertureGrpcClient, ApertureGrpcClientError, X_TOKEN_METADATA_KEY};
pub use config::{endpoint_uses_https, ApertureClientConfig, DEFAULT_MAX_MESSAGE_SIZE};
pub use endpoint::{endpoint_plan, EndpointPlan};
pub use filters::{SubscribeFilters, SubscribeRequest};
pub use reconnect::{ReconnectAction, ReconnectConfig, ReconnectState, StreamEvent};
