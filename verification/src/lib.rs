//! ghx: a local web front end for viewing changes in GitHub repositories.
//!
//! This crate holds the verified core of the tool: the startup
//! configuration and its JSON form, token resolution decisions, port
//! selection, the construction of proxied GitHub requests, and the
//! translation of upstream responses into local ones.  The thin shell
//! around it (command-line parsing, the HTTP server, the actual network
//! and process calls) lives outside the library.

pub mod args;
pub mod auth;
pub mod errors;
pub mod json;
pub mod port;
pub mod proxy;
pub mod server;
pub mod textfmt;
pub mod types;
