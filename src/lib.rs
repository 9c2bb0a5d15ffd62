//! Client library for the Aegis licensing and security service.
//!
//! The library prepares every call to the service as a plain [`Request`]
//! value whose URL, headers and body are fixed by verified contracts; a host
//! application performs the transport and hands the outcome back to
//! [`finish`].
pub mod client;
pub mod header;
pub mod json;
pub mod models;
pub mod request;

pub use client::{Client, ClientView};
pub use header::check_header_value;
pub use json::{encode_license_body, frame_key_body};
pub use models::{License, SystemStatus, User, Webhook};
pub use request::{finish, ClientError, Header, Method, Request, Response};
