//! Planner and query-execution core of a Doris-compatible frontend:
//! plan fragments, their distribution over backends, cost-based and
//! partition-based optimizations, and the query queue.

use vstd::prelude::*;

pub mod arrow_parser;
pub mod bucket_shuffle;
pub mod cost_model;
pub mod error;
pub mod feature_flags;
pub mod fragment_executor;
pub mod fragment_splitter;
pub mod ipc_check;
pub mod mysql;
pub mod partition_pruner;
pub mod plan_converter;
pub mod plan_fragment;
pub mod query;
pub mod runtime_filters;
pub mod sql_syntax;
pub mod text;

verus! {

} // verus!
