//! Host-side runtime for sandboxed extension modules.
//!
//! The library holds the verified core of the runtime: the handle table that
//! maps opaque integer handles to host-owned objects, the token-bucket rate
//! limiter, the typed settings store, the HTTP response objects with their
//! header rules, the rate-limited client, and the two-phase call-bridge
//! protocol with its per-instance state. The embedding around it supplies
//! what the core deliberately leaves outside: module instantiation, the
//! network transport, and the asynchronous plumbing.

pub mod bridge;
pub mod client;
pub mod headers;
pub mod limiter;
pub mod resource_table;
pub mod response;
pub mod settings;
pub mod state;
pub mod types;
