//! Lifecycle management for a local anonymizing-network service endpoint.
//!
//! The crate models the service registry (a context object holding the one
//! live service handle), derives deterministic hidden-service keys from
//! seeds, orchestrates batch hidden-service creation, and prepares HTTP
//! requests routed through the service's local SOCKS proxy.  Calls into the
//! network engine itself are performed by the embedding layer: each
//! operation here takes the engine's reply as a plain value and is verified
//! for every possible reply.

pub mod hidden;
pub mod http;
pub mod json;
pub mod keys;
pub mod registry;
pub mod startup;

pub use hidden::batch_needs_fallback;
pub use hidden::BatchResult;
pub use hidden::EngineRequest;
pub use hidden::HiddenServiceKeySpec;
pub use hidden::HiddenServiceResponse;
pub use http::finish_http_request;
pub use http::HttpMethod;
pub use http::HttpResponse;
pub use http::PreparedHttpRequest;
pub use http::TransportReply;
pub use json::parse_key_specs;
pub use keys::expand_seed_to_secret;
pub use registry::PhaseReport;
pub use registry::ServiceHandle;
pub use registry::ServiceRegistry;
pub use registry::StatusCode;
pub use startup::StartTorResponse;
