//! Client library for Grafana
//!
//! Provides a simple library to use for interacting with Grafana 10+.
//!
//! The library is organised around three layers: a [`common::config::Config`]
//! value that resolves host and token settings, a thin transport description
//! ([`common::api::Api`]) that composes request URLs, and per-resource API
//! types under [`community`] that build request paths, decode responses and
//! carry resource models produced by builder types.  The [`client::Client`]
//! facade owns the configuration and transport and hands out lazily
//! constructed resource APIs.

/// Common modules
pub mod client;
pub mod common;

/// Community modules, included by default
pub mod community;
