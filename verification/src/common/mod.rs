//! Shared infrastructure: configuration, transport, errors, text and JSON
//! helpers.

pub mod api;
pub mod cloning;
pub mod config;
pub mod error;
pub mod json;
pub mod text;
