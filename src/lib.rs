//! Typed client for a feature-flag management REST API.
//!
//! The library plans every HTTP exchange (URL, headers, query, JSON body) and
//! classifies its outcome; sending the request and decoding typed replies is
//! left to the transport around it.
//!
//! Request bodies are JSON objects whose members follow the field order of
//! each request type; fields that only name the path are not sent, and
//! optional members are left out where absent.
pub mod api;
pub mod auth;
pub mod context;
pub mod dispatch;
pub mod error;
pub mod evaluation;
pub mod json;
pub mod meta;
pub mod pagination;
pub mod timestamp;

pub use dispatch::{AuthScheme, Config};
