//! A TLS-intercepting HTTP proxy whose request and response transformations are
//! driven by user-supplied hook modules; this crate holds its verified logic.
pub mod abi;
pub mod ca;
pub mod config;
pub mod header;
pub mod hostname;
pub mod intercept;
pub mod message;
pub mod once;
pub mod pattern;
pub mod pipeline;
pub mod redirect;
pub mod rewrite;
pub mod text;
pub mod uri;
