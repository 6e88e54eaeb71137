//! A query plan compiler: translates a backend-agnostic internal
//! representation (IR) of a data query — selected fields, relationship
//! traversals, filters, ordering, aggregates, pagination — into a structured
//! execution plan expressed in a standardized query protocol.
//!
//! The compiler threads two pieces of shared mutable state through one
//! compilation: a registry of relationship definitions and a monotonic
//! counter that issues unique identifiers for remote-join placeholders.

pub mod aggregates;
pub mod counter;
pub mod ir;
pub mod join_tree;
pub mod order_by;
pub mod outside;
pub mod plan;
pub mod protocol;
pub mod types;

pub use counter::MonotonicCounter;
pub use join_tree::JoinLocations;
