//! A small client for a JSON REST resource: it plans the four requests
//! (read, create, replace, remove) against a base URL and interprets what the
//! server sends back. Sending and receiving are left to the caller.
pub mod client;
pub mod error;
pub mod payload;
pub mod request;
pub mod response;
