//! Expression trees for macro expansion.
pub mod expr;
