//! A small multi-host static file server core.
//!
//! The crate holds the verified heart of the server: resolving host
//! configurations to their defaults, turning a looked-up file into an HTTP
//! response (optionally rendering Markdown to HTML and gzip-compressing the
//! body), and the certificate-provisioning state machine that runs once per
//! host before it serves. Listening sockets, file reads and the calls to the
//! certificate authority live outside, and hand this crate plain values.

pub mod compress;
pub mod config;
pub mod pipeline;
pub mod provision;
pub mod render;
