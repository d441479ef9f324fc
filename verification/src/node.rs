//! Node resources.

pub mod api;
pub mod schemas;
