//! Server-side core of a small federated social-networking actor:
//! parsing and verifying HTTP message signatures on inbound requests,
//! and queueing and dispatching the activities they deliver.

pub mod config;
pub mod error;
pub mod json;
pub mod models;
pub mod parser;
pub mod queue;
pub mod sig;
pub mod text;
pub mod webfinger;
