//! From syntax trees to schemas and graphs.

pub mod pg_actions;
pub mod pg_builder;
pub mod pgs_actions;
pub mod pgs_builder;
