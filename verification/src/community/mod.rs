//! This module contains all of the Community APIs

pub mod alerting_provisioning;
pub mod annotations;
pub mod authentication;
pub mod dashboard;
pub mod data_source;
pub mod folder;
pub mod organization;
pub mod search;
