//! Bridges a single HTTP/1.1 client connection to a poll-based service
//! interface, together with a request body that can be duplicated before it
//! is consumed, so that retry middleware can resend an equivalent request.

pub mod client;

mod body;
mod poll;
mod transport;

pub use body::Body;
pub use body::BodyError;
pub use poll::Poll;
pub use transport::Driver;
pub use transport::ResponseHandle;
