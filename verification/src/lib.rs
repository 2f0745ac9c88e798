//! The request handling core of a minimal network service.
//!
//! One connection is served by one read: the bytes that it brings are decoded
//! as text, the target is taken from the first line, the route table gives the
//! response for that target, and the response is written out. The listener
//! itself, and everything else that touches a socket, lives outside this
//! library and hands it plain values.

pub mod config;
pub mod connection;
pub mod decimal;
pub mod error;
pub mod request;
pub mod response;
pub mod text;
pub mod user;

pub use config::ListenConfig;
pub use error::AppError;
pub use response::Response;
pub use user::User;
