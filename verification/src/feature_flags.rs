//! Feature flags for distributed query execution enhancements.
//!
//! Each experimental optimization can be toggled independently to measure
//! its performance impact and validate correctness.

use vstd::prelude::*;
use crate::text::{parse_bool, parse_nat, parse_u64, parse_usize, str_eq};

verus! {

/// Feature flags for distributed query execution.
#[derive(Debug, Clone, Copy, PartialEq, Eq, Structural)]
pub struct QueryFeatureFlags {
    /// Cost-based join strategy selection (broadcast vs. shuffle); when
    /// disabled the right side of every join is broadcast.
    pub cost_based_join_strategy: bool,
    /// Prune partitions based on query predicates before execution.
    pub advanced_partition_pruning: bool,
    /// Parse Arrow IPC results from the backends.
    pub arrow_result_parsing: bool,
    /// Propagate filters from the join build side to the probe side.
    pub runtime_filter_propagation: bool,
    /// Bucket-aware shuffle that colocates data by bucket id.
    pub bucket_shuffle_optimization: bool,
    /// Execute independent fragments concurrently.
    pub parallel_fragment_execution: bool,
    /// Push aggregation down to the storage layer when possible.
    pub local_aggregation_pushdown: bool,
    /// Tables smaller than this many bytes are broadcast (default 10MB).
    pub broadcast_threshold_bytes: u64,
    /// Maximum parallelism for fragment execution.
    pub max_fragment_parallelism: usize,
}

pub fn default_false() -> (r: bool)
    ensures
        r == false,
{
    false
}

pub fn default_true() -> (r: bool)
    ensures
        r == true,
{
    true
}

/// 10MB.
pub fn default_broadcast_threshold() -> (r: u64)
    ensures
        r == 10 * 1024 * 1024,
{
    10 * 1024 * 1024
}

pub fn default_max_parallelism() -> (r: usize)
    ensures
        r == 16,
{
    16
}

/// The default flags: every experiment off, parallel fragment execution on,
/// a 10MB broadcast threshold and a parallelism of 16.
pub open spec fn default_flags() -> QueryFeatureFlags {
    QueryFeatureFlags {
        cost_based_join_strategy: false,
        advanced_partition_pruning: false,
        arrow_result_parsing: false,
        runtime_filter_propagation: false,
        bucket_shuffle_optimization: false,
        parallel_fragment_execution: true,
        local_aggregation_pushdown: false,
        broadcast_threshold_bytes: 10485760u64,
        max_fragment_parallelism: 16,
    }
}

impl Default for QueryFeatureFlags {
    fn default() -> (r: Self)
        ensures
            r == default_flags(),
    {
        QueryFeatureFlags {
            cost_based_join_strategy: false,
            advanced_partition_pruning: false,
            arrow_result_parsing: false,
            runtime_filter_propagation: false,
            bucket_shuffle_optimization: false,
            parallel_fragment_execution: true,
            local_aggregation_pushdown: false,
            broadcast_threshold_bytes: default_broadcast_threshold(),
            max_fragment_parallelism: default_max_parallelism(),
        }
    }
}


/// Every experiment on, with the default threshold and parallelism.
pub open spec fn all_enabled_flags() -> QueryFeatureFlags {
    QueryFeatureFlags {
        cost_based_join_strategy: true,
        advanced_partition_pruning: true,
        arrow_result_parsing: true,
        runtime_filter_propagation: true,
        bucket_shuffle_optimization: true,
        parallel_fragment_execution: true,
        local_aggregation_pushdown: true,
        broadcast_threshold_bytes: 10485760u64,
        max_fragment_parallelism: 16,
    }
}

/// Everything off, parallelism 1, the default threshold.
pub open spec fn conservative_flags() -> QueryFeatureFlags {
    QueryFeatureFlags {
        cost_based_join_strategy: false,
        advanced_partition_pruning: false,
        arrow_result_parsing: false,
        runtime_filter_propagation: false,
        bucket_shuffle_optimization: false,
        parallel_fragment_execution: false,
        local_aggregation_pushdown: false,
        broadcast_threshold_bytes: 10485760u64,
        max_fragment_parallelism: 1,
    }
}

/// The flags of a named preset: the defaults with that experiment's flags
/// turned on; an unknown name gives the defaults.
pub open spec fn preset_flags(name: Seq<char>) -> QueryFeatureFlags {
    let d = default_flags();
    if name == "join-optimization"@ {
        QueryFeatureFlags { cost_based_join_strategy: true, ..d }
    } else if name == "partition-pruning"@ {
        QueryFeatureFlags { advanced_partition_pruning: true, ..d }
    } else if name == "arrow-format"@ {
        QueryFeatureFlags { arrow_result_parsing: true, ..d }
    } else if name == "runtime-filters"@ {
        QueryFeatureFlags { runtime_filter_propagation: true, ..d }
    } else if name == "bucket-shuffle"@ {
        QueryFeatureFlags { bucket_shuffle_optimization: true, ..d }
    } else if name == "all-execution"@ {
        QueryFeatureFlags {
            cost_based_join_strategy: true,
            advanced_partition_pruning: true,
            runtime_filter_propagation: true,
            bucket_shuffle_optimization: true,
            parallel_fragment_execution: true,
            ..d
        }
    } else {
        d
    }
}

/// Every preset, known or not, keeps parallel fragment execution on, and
/// only `all-execution` turns on more than one experiment; no preset turns
/// on Arrow result parsing but `arrow-format`.
pub proof fn lemma_presets_keep_parallel_execution(name: Seq<char>)
    ensures
        preset_flags(name).parallel_fragment_execution,
        preset_flags(name).arrow_result_parsing ==> name == "arrow-format"@,
        preset_flags(name).broadcast_threshold_bytes == default_flags().broadcast_threshold_bytes,
        preset_flags(name).max_fragment_parallelism == default_flags().max_fragment_parallelism,
{
}

/// The value of `key` among environment variables given as (name, value)
/// pairs: that of the first pair with that name.
pub open spec fn env_value(vars: Seq<(String, String)>, key: Seq<char>) -> Option<Seq<char>> {
    if exists|i: int| 0 <= i < vars.len() && (#[trigger] vars[i]).0@ == key {
        let i = choose|i: int|
            0 <= i < vars.len() && (#[trigger] vars[i]).0@ == key && forall|j: int|
                0 <= j < i ==> (#[trigger] vars[j]).0@ != key;
        Some(vars[i].1@)
    } else {
        None
    }
}

/// A boolean variable: its value when it reads as `true` or `false`, else
/// the default.
pub open spec fn env_bool_value(v: Option<Seq<char>>, default: bool) -> bool {
    match v {
        Some(s) => if s == "true"@ {
            true
        } else if s == "false"@ {
            false
        } else {
            default
        },
        None => default,
    }
}

/// An unsigned variable: its value when it reads as a number that fits in
/// `max`, else the default.
pub open spec fn env_nat_value(v: Option<Seq<char>>, default: nat, max: nat) -> nat {
    match v {
        Some(s) => match parse_nat(s) {
            Some(n) => if n <= max {
                n
            } else {
                default
            },
            None => default,
        },
        None => default,
    }
}

/// The flags that a set of environment variables selects.
pub open spec fn env_flags(vars: Seq<(String, String)>) -> QueryFeatureFlags {
    QueryFeatureFlags {
        cost_based_join_strategy: env_bool_value(env_value(vars, "DORIS_COST_BASED_JOIN"@), false),
        advanced_partition_pruning: env_bool_value(
            env_value(vars, "DORIS_PARTITION_PRUNING"@),
            false,
        ),
        arrow_result_parsing: env_bool_value(env_value(vars, "DORIS_ARROW_PARSING"@), false),
        runtime_filter_propagation: env_bool_value(
            env_value(vars, "DORIS_RUNTIME_FILTERS"@),
            false,
        ),
        bucket_shuffle_optimization: env_bool_value(env_value(vars, "DORIS_BUCKET_SHUFFLE"@), false),
        parallel_fragment_execution: env_bool_value(
            env_value(vars, "DORIS_PARALLEL_EXECUTION"@),
            true,
        ),
        local_aggregation_pushdown: env_bool_value(
            env_value(vars, "DORIS_LOCAL_AGG_PUSHDOWN"@),
            false,
        ),
        broadcast_threshold_bytes: env_nat_value(
            env_value(vars, "DORIS_BROADCAST_THRESHOLD"@),
            10485760,
            u64::MAX as nat,
        ) as u64,
        max_fragment_parallelism: env_nat_value(
            env_value(vars, "DORIS_MAX_PARALLELISM"@),
            16,
            usize::MAX as nat,
        ) as usize,
    }
}

impl QueryFeatureFlags {
    /// Feature flags with all optimizations enabled (experimental mode).
    pub fn all_enabled() -> (r: Self)
        ensures
            r == all_enabled_flags(),
    {
        QueryFeatureFlags {
            cost_based_join_strategy: true,
            advanced_partition_pruning: true,
            arrow_result_parsing: true,
            runtime_filter_propagation: true,
            bucket_shuffle_optimization: true,
            parallel_fragment_execution: true,
            local_aggregation_pushdown: true,
            broadcast_threshold_bytes: default_broadcast_threshold(),
            max_fragment_parallelism: default_max_parallelism(),
        }
    }

    /// Conservative feature flags (all optimizations disabled).
    pub fn conservative() -> (r: Self)
        ensures
            r == conservative_flags(),
    {
        QueryFeatureFlags {
            cost_based_join_strategy: false,
            advanced_partition_pruning: false,
            arrow_result_parsing: false,
            runtime_filter_propagation: false,
            bucket_shuffle_optimization: false,
            parallel_fragment_execution: false,
            local_aggregation_pushdown: false,
            broadcast_threshold_bytes: default_broadcast_threshold(),
            max_fragment_parallelism: 1,
        }
    }

    /// Flags from the process environment, given as (name, value) pairs:
    /// `DORIS_COST_BASED_JOIN`, `DORIS_PARTITION_PRUNING`,
    /// `DORIS_ARROW_PARSING`, `DORIS_RUNTIME_FILTERS`, `DORIS_BUCKET_SHUFFLE`,
    /// `DORIS_PARALLEL_EXECUTION`, `DORIS_LOCAL_AGG_PUSHDOWN`,
    /// `DORIS_BROADCAST_THRESHOLD` and `DORIS_MAX_PARALLELISM`; a variable
    /// that is unset or does not parse leaves its flag at the default.
    pub fn from_env(vars: &Vec<(String, String)>) -> (r: Self)
        ensures
            r == env_flags(vars@),
    {
        QueryFeatureFlags {
            cost_based_join_strategy: env_bool(vars, "DORIS_COST_BASED_JOIN", false),
            advanced_partition_pruning: env_bool(vars, "DORIS_PARTITION_PRUNING", false),
            arrow_result_parsing: env_bool(vars, "DORIS_ARROW_PARSING", false),
            runtime_filter_propagation: env_bool(vars, "DORIS_RUNTIME_FILTERS", false),
            bucket_shuffle_optimization: env_bool(vars, "DORIS_BUCKET_SHUFFLE", false),
            parallel_fragment_execution: env_bool(vars, "DORIS_PARALLEL_EXECUTION", true),
            local_aggregation_pushdown: env_bool(vars, "DORIS_LOCAL_AGG_PUSHDOWN", false),
            broadcast_threshold_bytes: env_u64(
                vars,
                "DORIS_BROADCAST_THRESHOLD",
                default_broadcast_threshold(),
            ),
            max_fragment_parallelism: env_usize(
                vars,
                "DORIS_MAX_PARALLELISM",
                default_max_parallelism(),
            ),
        }
    }

    /// A preset for a specific optimization experiment.
    pub fn preset(name: &str) -> (r: Self)
        ensures
            r == preset_flags(name@),
    {
        let d = QueryFeatureFlags::default();
        if str_eq(name, "join-optimization") {
            QueryFeatureFlags { cost_based_join_strategy: true, ..d }
        } else if str_eq(name, "partition-pruning") {
            QueryFeatureFlags { advanced_partition_pruning: true, ..d }
        } else if str_eq(name, "arrow-format") {
            QueryFeatureFlags { arrow_result_parsing: true, ..d }
        } else if str_eq(name, "runtime-filters") {
            QueryFeatureFlags { runtime_filter_propagation: true, ..d }
        } else if str_eq(name, "bucket-shuffle") {
            QueryFeatureFlags { bucket_shuffle_optimization: true, ..d }
        } else if str_eq(name, "all-execution") {
            QueryFeatureFlags {
                cost_based_join_strategy: true,
                advanced_partition_pruning: true,
                runtime_filter_propagation: true,
                bucket_shuffle_optimization: true,
                parallel_fragment_execution: true,
                ..d
            }
        } else {
            d
        }
    }
}

/// The value of `key` among the (name, value) pairs.
pub fn env_var<'a>(vars: &'a Vec<(String, String)>, key: &str) -> (r: Option<&'a String>)
    ensures
        match r {
            Some(v) => env_value(vars@, key@) == Some(v@),
            None => env_value(vars@, key@) is None,
        },
{
    let mut i: usize = 0;
    while i < vars.len()
        invariant
            i <= vars@.len(),
            forall|j: int| 0 <= j < i ==> (#[trigger] vars@[j]).0@ != key@,
        decreases vars@.len() - i,
    {
        if str_eq(&vars[i].0, key) {
            proof {
                let k = choose|k: int|
                    0 <= k < vars@.len() && (#[trigger] vars@[k]).0@ == key@ && forall|j: int|
                        0 <= j < k ==> (#[trigger] vars@[j]).0@ != key@;
                assert(vars@[i as int].0@ == key@);
                if k < i {
                    assert(vars@[k].0@ != key@);
                } else if k > i {
                    assert(vars@[i as int].0@ != key@);
                }
            }
            return Some(&vars[i].1);
        }
        i = i + 1;
    }
    None
}

/// A boolean flag from the environment, or `default`.
pub fn env_bool(vars: &Vec<(String, String)>, key: &str, default: bool) -> (r: bool)
    ensures
        r == env_bool_value(env_value(vars@, key@), default),
{
    match env_var(vars, key) {
        Some(v) => match parse_bool(v) {
            Some(b) => b,
            None => default,
        },
        None => default,
    }
}

/// An unsigned 64-bit setting from the environment, or `default`.
pub fn env_u64(vars: &Vec<(String, String)>, key: &str, default: u64) -> (r: u64)
    ensures
        r == env_nat_value(env_value(vars@, key@), default as nat, u64::MAX as nat),
{
    match env_var(vars, key) {
        Some(v) => match parse_u64(v) {
            Some(n) => n,
            None => default,
        },
        None => default,
    }
}

/// An unsigned machine-word setting from the environment, or `default`.
pub fn env_usize(vars: &Vec<(String, String)>, key: &str, default: usize) -> (r: usize)
    ensures
        r == env_nat_value(env_value(vars@, key@), default as nat, usize::MAX as nat),
{
    match env_var(vars, key) {
        Some(v) => match parse_usize(v) {
            Some(n) => n,
            None => default,
        },
        None => default,
    }
}

} // verus!
