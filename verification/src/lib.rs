//! Incremental artifact export over a memoized computation graph, and the
//! position synchronisation of a live preview session.

pub mod actor;
pub mod document;
pub mod error;
pub mod export;
pub mod graph;
pub mod jump;
pub mod project;
pub mod timing;
