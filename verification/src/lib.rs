//! Verified core of a physical query-execution plan.
//!
//! A plan is a tree of operator nodes. Each node declares a fixed output
//! schema, an ordered list of children, and a partitioning of its output;
//! executing one partition yields an ordered stream of schema-conformant
//! batches. A tagged-union wire form and a registry of node tags let a plan
//! be shipped to a process that does not know the concrete node kind in
//! advance. The explain operator is the worked leaf node: it renders the
//! optimizer's stringified plans as a single two-column batch.

pub mod batch;
pub mod error;
pub mod explain;
pub mod feed;
pub mod partitioning;
pub mod plan;
pub mod registry;
pub mod schema;
pub mod stream;
