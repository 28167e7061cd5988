//! Protocol core of a client for SurrealDB's REST interface.
//!
//! The crate builds the HTTP requests of each database operation, decodes the
//! statement replies that the server sends back, and reduces them to the value
//! a caller asked for. It performs no I/O itself: every operation takes the
//! transport as a function from a request to the raw response.

pub mod auth;
pub mod client;
pub mod context;
pub mod envelope;
pub mod error;
pub mod json;
pub mod laws;
pub mod reply;
pub mod transport;

pub use client::SurrealDbClient;
pub use envelope::{
    DynamicSurrealResult, DynamicSurrealStatementReply, SurrealResult, SurrealStatementReply,
};
pub use error::{DecodeFailure, ShapeFault, SurrealDbError, SurrealStatus};
pub use json::DynamicValue;
pub use transport::{HttpMethod, HttpRequest};
