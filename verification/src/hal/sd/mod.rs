//! SD host controller building blocks.
pub mod adma;
