//! An in-process request/response correlation engine.
//!
//! Callers issue requests that are fulfilled asynchronously by an out-of-band
//! completer; the engine guarantees that each caller receives exactly the
//! response matching its own request.  The pieces: an identifier allocator, a
//! lock-protected registry of in-flight requests, a one-shot completion
//! channel per request, and a background completer that delivers responses.

pub mod client;
pub mod registry;

mod channel;

pub use client::{await_response, MyRpc};
pub use registry::{InFlightMessage, Registry, Response, RpcError};
