//! A verified model of a passive-skill-tree document: a numeric coercion
//! layer for its loosely typed textual fields, a classifier that maps raw
//! key-value records onto a closed set of node variants, an orbit-based
//! geometry engine, and the graph builder and queries on top of them.

pub mod classify;
pub mod data;
pub mod error;
pub mod fields;
pub mod graph;
pub mod node;
pub mod parsing;
pub mod query;
pub mod raw;
pub mod table;
