//! A client for the subscription API of gpodder.net.
//!
//! The library builds the requests of the three subscription operations and
//! interprets what comes back. It never touches the network itself: every
//! operation is handed a transport, a function from a request to a response
//! or an error, which it calls once.

pub mod base64;
pub mod client;
pub mod decode;
pub mod error;
pub mod json;
pub mod request;
pub mod subscription;

pub use client::Client;
pub use error::{DecodeError, Error};
pub use json::{Json, Member};
pub use request::{Method, Request, Response};
pub use subscription::Subscription;
