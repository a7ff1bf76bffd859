//! Client-side integration: the adapter that exposes one established
//! HTTP/1.1 connection to a poll-based middleware stack.

pub mod connection;

pub use connection::CallError;
pub use connection::CloseError;
pub use connection::ConnectionAdapter;
