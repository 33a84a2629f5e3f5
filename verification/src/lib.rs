//! An in-memory relay of JSON events between connected clients: the registry
//! of live connections, the per-connection session protocol, the envelopes
//! that travel between them and the admission rules of the upgrade endpoint.

pub mod auth;
pub mod envelope;
pub mod error;
pub mod history;
pub mod json;
pub mod lifecycle;
pub mod server;
pub mod session;
pub mod text;

pub use error::RelayError;
pub use server::{BroadcastRequest, Connect, Disconnect, EventServer, SendMessageRequest};
pub use session::WsSession;
