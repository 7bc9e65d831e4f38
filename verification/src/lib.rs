//! Verified core of the stdio Bus client, the transport for AI agents that
//! talk JSON-RPC to worker processes: the lifecycle state machine, the error
//! model, configuration and its validation, JSON-RPC framing, and the
//! bookkeeping that matches responses and streamed text to waiting requests.
#![allow(non_camel_case_types)]

pub mod backends;
pub mod builder;
pub mod client;
pub mod duration;
pub mod error;
pub mod ffi;
pub mod ids;
pub mod json;
pub mod lifecycle;
pub mod message;
pub mod pending;
pub mod state;
pub mod stats;
pub mod text;
pub mod types;

pub use backends::{resolve_backend, BackendKind, BackendPlan};
pub use builder::{BuildPlan, StdioBusBuilder};
pub use client::{IncomingAction, OutgoingRequest, RequestOutcome, StdioBus};
pub use error::{Error, ErrorCode};
pub use ids::generate_client_session_id;
pub use json::JsonValue;
pub use lifecycle::{state_to_u8, u8_to_state, BackendCore, BusPtr};
pub use message::{BusMessage, JsonRpcError, JsonRpcMessage, JsonRpcRequest, JsonRpcResponse};
pub use state::BusState;
pub use stats::BusStats;
pub use types::{
    BackendMode, BusConfig, ConfigSource, DockerOptions, ExtensionInfo, Extensions, Identity,
    LimitsConfig, PoolConfig, RequestOptions,
};
