//! Kubernetes-version resources.

pub mod api;
pub mod schemas;
