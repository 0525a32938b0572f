//! Function signatures and overload tables.
pub mod decl;
pub mod overload;
pub mod laws;
pub mod registry;
pub mod plan;
pub mod activation;
