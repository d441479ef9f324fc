//! Cluster resources.

pub mod api;
pub mod schemas;
