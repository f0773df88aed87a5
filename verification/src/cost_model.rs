//! Cost-based query optimization: statistics and cost estimates for the
//! execution strategies of a join.
//!
//! Costs are exact integers in tenths of a cost unit: broadcasting costs
//! 2.0 units per byte (20 tenths), shuffling 1.5 units per byte (15 tenths),
//! reading the probe side locally 0.1 unit per byte, building a hash table
//! 1 unit per row and probing it 0.5 unit per row.

use vstd::prelude::*;
use crate::plan_fragment::{PlanModel, PlanNode};
use crate::text::{contains_seq, str_contains};

verus! {

/// Statistics for a table or intermediate result.
#[derive(Debug, Clone)]
pub struct TableStatistics {
    pub row_count: u64,
    pub total_bytes: u64,
    pub column_stats: Vec<ColumnStatistics>,
}

#[derive(Debug, Clone)]
pub struct ColumnStatistics {
    pub column_name: String,
    pub distinct_count: u64,
    pub null_count: u64,
    pub min_value: Option<String>,
    pub max_value: Option<String>,
}

impl TableStatistics {
    /// Statistics with estimated values: `row_count` rows of `avg_row_bytes` bytes.
    pub fn estimated(row_count: u64, avg_row_bytes: u64) -> (r: Self)
        requires
            row_count * avg_row_bytes <= u64::MAX,
        ensures
            r.row_count == row_count,
            r.total_bytes == row_count * avg_row_bytes,
            r.column_stats@.len() == 0,
    {
        TableStatistics {
            row_count,
            total_bytes: row_count * avg_row_bytes,
            column_stats: Vec::new(),
        }
    }

    /// The table is small enough to be broadcast: strictly below the threshold.
    pub fn is_broadcast_eligible(&self, threshold_bytes: u64) -> (r: bool)
        ensures
            r == (self.total_bytes < threshold_bytes),
    {
        self.total_bytes < threshold_bytes
    }
}

/// Cost model for join strategies.
pub struct JoinCostModel {
    /// Cost of broadcasting data per byte, in tenths (network + serialization)
    broadcast_cost_per_byte: u64,
    /// Cost of shuffling data per byte, in tenths (hash + network)
    shuffle_cost_per_byte: u64,
    /// Number of executor nodes
    num_executors: usize,
}

/// Join execution strategy.
#[derive(Debug, Clone, PartialEq)]
pub enum JoinStrategy {
    /// Broadcast one side to all nodes
    Broadcast { broadcast_side: JoinSide },
    /// Shuffle (partition) both sides
    Shuffle { partition_keys: Vec<String> },
}

#[derive(Debug, Clone, Copy, PartialEq, Eq, Structural)]
pub enum JoinSide {
    Left,
    Right,
}

/// `(row_count, total_bytes)` of some statistics.
pub open spec fn stats_pair(t: TableStatistics) -> (int, int) {
    (t.row_count as int, t.total_bytes as int)
}

/// Cost (in tenths) of broadcasting the build side to every executor,
/// probing locally and building a hash table on each executor; statistics
/// are `(rows, bytes)`.
pub open spec fn broadcast_cost(num_executors: int, build: (int, int), probe: (int, int)) -> int {
    build.1 * 20 * num_executors + probe.1 + build.0 * num_executors * 10
}

/// Cost (in tenths) of shuffling both sides, building one distributed hash
/// table and probing it; statistics are `(rows, bytes)`.
pub open spec fn shuffle_cost(build: (int, int), probe: (int, int)) -> int {
    build.1 * 15 + probe.1 * 15 + build.0 * 10 + probe.0 * 5
}

/// A cost as returned by the estimators: exact up to `u128::MAX`, where it saturates.
pub open spec fn saturated(c: int) -> int {
    if c > u128::MAX {
        u128::MAX as int
    } else {
        c
    }
}

/// The side to broadcast, or `None` for a shuffle join.
pub open spec fn chosen_side(
    num_executors: int,
    left: (int, int),
    right: (int, int),
    threshold: u64,
) -> Option<JoinSide> {
    if right.1 < threshold {
        Some(JoinSide::Right)
    } else if left.1 < threshold {
        Some(JoinSide::Left)
    } else {
        let br = saturated(broadcast_cost(num_executors, right, left));
        let bl = saturated(broadcast_cost(num_executors, left, right));
        let sh = saturated(shuffle_cost(left, right));
        if br < bl && br < sh {
            Some(JoinSide::Right)
        } else if bl < sh {
            Some(JoinSide::Left)
        } else {
            None
        }
    }
}

/// A side whose size is below the threshold is always broadcast, the right
/// side first; a shuffle happens only when both sides reach the threshold.
pub proof fn lemma_small_side_is_broadcast(
    num_executors: int,
    left: (int, int),
    right: (int, int),
    threshold: u64,
)
    ensures
        right.1 < threshold ==> chosen_side(num_executors, left, right, threshold) == Some(
            JoinSide::Right,
        ),
        left.1 < threshold && right.1 >= threshold ==> chosen_side(
            num_executors,
            left,
            right,
            threshold,
        ) == Some(JoinSide::Left),
        chosen_side(num_executors, left, right, threshold) is None ==> left.1 >= threshold
            && right.1 >= threshold,
{
}

/// When both sides reach the threshold the strategy of least estimated
/// cost is chosen: broadcasting a side (with that side as the build side of
/// the broadcast estimate) only when it costs less than shuffling, the right
/// side exactly when its broadcast is strictly cheaper than both other
/// strategies, and a shuffle only when neither broadcast is cheaper.
pub proof fn lemma_large_sides_choose_least_cost(
    num_executors: int,
    left: (int, int),
    right: (int, int),
    threshold: u64,
)
    requires
        left.1 >= threshold,
        right.1 >= threshold,
    ensures
        ({
            let right_cost = saturated(broadcast_cost(num_executors, right, left));
            let left_cost = saturated(broadcast_cost(num_executors, left, right));
            let shuffle = saturated(shuffle_cost(left, right));
            let side = chosen_side(num_executors, left, right, threshold);
            &&& side == Some(JoinSide::Right) <==> (right_cost < left_cost && right_cost < shuffle)
            &&& side == Some(JoinSide::Left) ==> left_cost < shuffle && left_cost <= right_cost
            &&& side is None ==> shuffle <= left_cost && shuffle <= right_cost
        }),
{
}

fn sat_mul(a: u128, b: u128) -> (r: u128)
    ensures
        r == saturated(a * b),
{
    match a.checked_mul(b) {
        Some(v) => v,
        None => u128::MAX,
    }
}

fn sat_add(a: u128, b: u128) -> (r: u128)
    ensures
        r == saturated(a + b),
{
    match a.checked_add(b) {
        Some(v) => v,
        None => u128::MAX,
    }
}

proof fn lemma_saturated_mul(a: int, b: int)
    requires
        0 <= a,
        0 <= b,
    ensures
        saturated(saturated(a) * b) == saturated(a * b),
{
    if a > u128::MAX && b > 0 {
        assert(u128::MAX * b >= u128::MAX) by (nonlinear_arith)
            requires
                b >= 1,
        ;
        assert(a * b >= u128::MAX * b) by (nonlinear_arith)
            requires
                a >= u128::MAX,
                b >= 0,
        ;
    }
}

proof fn lemma_saturated_add(a: int, b: int)
    requires
        0 <= a,
        0 <= b,
    ensures
        saturated(saturated(a) + saturated(b)) == saturated(a + b),
{
}

impl JoinCostModel {
    pub fn new(num_executors: usize) -> (r: Self)
        ensures
            r.num_executors() == num_executors,
            r.well_formed(),
    {
        JoinCostModel { broadcast_cost_per_byte: 20, shuffle_cost_per_byte: 15, num_executors }
    }

    pub closed spec fn num_executors(&self) -> usize {
        self.num_executors
    }

    pub closed spec fn well_formed(&self) -> bool {
        self.broadcast_cost_per_byte == 20 && self.shuffle_cost_per_byte == 15
    }

    /// Estimated cost of a broadcast join (in tenths of a cost unit).
    pub fn estimate_broadcast_join(
        &self,
        build_side_stats: &TableStatistics,
        probe_side_stats: &TableStatistics,
    ) -> (r: u128)
        requires
            self.well_formed(),
        ensures
            r == saturated(
                broadcast_cost(
                    self.num_executors() as int,
                    stats_pair(*build_side_stats),
                    stats_pair(*probe_side_stats),
                ),
            ),
    {
        let n = self.num_executors as u128;
        // Broadcast build side to all executors
        let broadcast_cost = sat_mul(
            sat_mul(build_side_stats.total_bytes as u128, self.broadcast_cost_per_byte as u128),
            n,
        );
        // Process probe side locally (no shuffle)
        let probe_cost = probe_side_stats.total_bytes as u128;
        // Hash build cost (creating hash table on each executor)
        let hash_build_cost = sat_mul(sat_mul(build_side_stats.row_count as u128, n), 10);
        proof {
            let b = build_side_stats.total_bytes as int;
            let rows = build_side_stats.row_count as int;
            lemma_saturated_mul(b * 20, n as int);
            lemma_saturated_mul(rows * n, 10);
            assert(b * 20 <= u128::MAX);
            assert(rows * n <= u128::MAX) by (nonlinear_arith)
                requires
                    0 <= rows <= u64::MAX,
                    0 <= n <= u64::MAX,
            ;
            lemma_saturated_add(b * 20 * n, probe_side_stats.total_bytes as int);
            lemma_saturated_add(b * 20 * n + probe_side_stats.total_bytes, rows * n * 10);
            assert(b * 20 * n >= 0 && rows * n * 10 >= 0) by (nonlinear_arith)
                requires
                    b >= 0,
                    rows >= 0,
                    n >= 0,
            ;
            assert(saturated(probe_side_stats.total_bytes as int) == probe_side_stats.total_bytes);
        }
        sat_add(sat_add(broadcast_cost, probe_cost), hash_build_cost)
    }

    /// Estimated cost of a shuffle (partitioned) join (in tenths of a cost unit).
    pub fn estimate_shuffle_join(
        &self,
        build_side_stats: &TableStatistics,
        probe_side_stats: &TableStatistics,
    ) -> (r: u128)
        requires
            self.well_formed(),
        ensures
            r == saturated(shuffle_cost(stats_pair(*build_side_stats), stats_pair(*probe_side_stats))),
    {
        let per_byte = self.shuffle_cost_per_byte as u128;
        let build_bytes = build_side_stats.total_bytes as u128;
        let probe_bytes = probe_side_stats.total_bytes as u128;
        assert(build_bytes * per_byte == build_bytes * 15 && probe_bytes * per_byte == probe_bytes
            * 15) by (nonlinear_arith)
            requires
                per_byte == 15,
        ;
        // Shuffle both sides
        let build_shuffle_cost = build_bytes * per_byte;
        let probe_shuffle_cost = probe_bytes * per_byte;
        // Hash build cost (distributed across executors)
        let hash_build_cost = (build_side_stats.row_count as u128) * 10;
        // Probe cost (distributed)
        let probe_cost = (probe_side_stats.row_count as u128) * 5;
        build_shuffle_cost + probe_shuffle_cost + hash_build_cost + probe_cost
    }

    /// Chooses the join strategy: broadcast a side that is below the
    /// threshold (the right side first), else the strategy of least cost,
    /// where ties go to broadcasting the left side over shuffling, and to
    /// shuffling over broadcasting the right side.
    pub fn choose_join_strategy(
        &self,
        left_stats: &TableStatistics,
        right_stats: &TableStatistics,
        broadcast_threshold: u64,
    ) -> (r: JoinStrategy)
        requires
            self.well_formed(),
        ensures
            match r {
                JoinStrategy::Broadcast { broadcast_side } => chosen_side(
                    self.num_executors() as int,
                    stats_pair(*left_stats),
                    stats_pair(*right_stats),
                    broadcast_threshold,
                ) == Some(broadcast_side),
                JoinStrategy::Shuffle { partition_keys } => chosen_side(
                    self.num_executors() as int,
                    stats_pair(*left_stats),
                    stats_pair(*right_stats),
                    broadcast_threshold,
                ) is None && partition_keys@.len() == 0,
            },
    {
        // If right side is small, always broadcast
        if right_stats.is_broadcast_eligible(broadcast_threshold) {
            return JoinStrategy::Broadcast { broadcast_side: JoinSide::Right };
        }
        // If left side is small, broadcast left
        if left_stats.is_broadcast_eligible(broadcast_threshold) {
            return JoinStrategy::Broadcast { broadcast_side: JoinSide::Left };
        }
        // Both sides are large - compare costs
        let broadcast_right_cost = self.estimate_broadcast_join(right_stats, left_stats);
        let broadcast_left_cost = self.estimate_broadcast_join(left_stats, right_stats);
        let shuffle_cost = self.estimate_shuffle_join(left_stats, right_stats);
        // Choose minimum cost strategy
        if broadcast_right_cost < broadcast_left_cost && broadcast_right_cost < shuffle_cost {
            JoinStrategy::Broadcast { broadcast_side: JoinSide::Right }
        } else if broadcast_left_cost < shuffle_cost {
            JoinStrategy::Broadcast { broadcast_side: JoinSide::Left }
        } else {
            JoinStrategy::Shuffle { partition_keys: Vec::new() }
        }
    }
}

/// Statistics `(row_count, total_bytes)` derived from `row_count` rows of
/// `avg` bytes.
pub open spec fn estimated_stats(rows: int, avg: int) -> (int, int) {
    (rows, rows * avg)
}

/// The (simplified) statistics estimated for a plan node: scans by their
/// table name, aggregation keeps a tenth of the rows and selection half,
/// both at the child's average row width; projection keeps the rows at 100
/// bytes each; anything else is 10000 rows of 100 bytes.
pub open spec fn node_stats(n: PlanModel) -> (int, int)
    decreases n,
{
    match n {
        PlanModel::OlapScan { table_name, .. } => {
            if contains_seq(table_name, "dim_"@) || contains_seq(table_name, "small"@) {
                estimated_stats(1000, 100)
            } else if contains_seq(table_name, "fact_"@) || contains_seq(table_name, "large"@) {
                estimated_stats(10_000_000, 200)
            } else {
                estimated_stats(100_000, 150)
            }
        },
        PlanModel::Aggregation { child, .. } => {
            let (rows, bytes) = node_stats(*child);
            estimated_stats(rows / 10, bytes / (if rows > 1 { rows } else { 1 }))
        },
        PlanModel::Select { child, .. } => {
            let (rows, bytes) = node_stats(*child);
            estimated_stats(rows / 2, bytes / (if rows > 1 { rows } else { 1 }))
        },
        PlanModel::Project { child, .. } => {
            let (rows, _bytes) = node_stats(*child);
            estimated_stats(rows, 100)
        },
        _ => estimated_stats(10_000, 100),
    }
}

proof fn lemma_reduced_bytes(rows: int, bytes: int, k: int)
    requires
        0 <= rows,
        0 <= bytes,
        1 <= k,
    ensures
        0 <= (rows / k) * (bytes / (if rows > 1 { rows } else { 1 })) <= bytes,
{
    let d = if rows > 1 { rows } else { 1 };
    assert(0 <= rows / k <= d) by (nonlinear_arith)
        requires
            0 <= rows,
            1 <= k,
            d >= 1,
            d >= rows,
    ;
    assert(0 <= (rows / k) * (bytes / d) <= d * (bytes / d)) by (nonlinear_arith)
        requires
            0 <= rows / k <= d,
            bytes / d >= 0,
    ;
    assert(d * (bytes / d) <= bytes) by (nonlinear_arith)
        requires
            d >= 1,
            bytes >= 0,
    ;
}

/// The estimated statistics stay within 10^7 rows and 2 * 10^9 bytes.
pub proof fn lemma_node_stats_bounds(n: PlanModel)
    ensures
        0 <= node_stats(n).0 <= 10_000_000,
        0 <= node_stats(n).1 <= 2_000_000_000,
    decreases n,
{
    match n {
        PlanModel::Aggregation { child, .. } => {
            lemma_node_stats_bounds(*child);
            lemma_reduced_bytes(node_stats(*child).0, node_stats(*child).1, 10);
        },
        PlanModel::Select { child, .. } => {
            lemma_node_stats_bounds(*child);
            lemma_reduced_bytes(node_stats(*child).0, node_stats(*child).1, 2);
        },
        PlanModel::Project { child, .. } => {
            lemma_node_stats_bounds(*child);
        },
        _ => {},
    }
}

/// Estimates statistics of a plan node (see `node_stats`).
pub fn estimate_node_statistics(node: &PlanNode) -> (r: TableStatistics)
    ensures
        (r.row_count as int, r.total_bytes as int) == node_stats(node@),
        r.column_stats@.len() == 0,
    decreases node,
{
    proof {
        lemma_node_stats_bounds(node@);
    }
    match node {
        PlanNode::OlapScan { table_name, .. } => {
            // Heuristics based on the table name
            if str_contains(table_name.as_str(), "dim_") || str_contains(table_name.as_str(), "small") {
                TableStatistics::estimated(1000, 100)
            } else if str_contains(table_name.as_str(), "fact_") || str_contains(
                table_name.as_str(),
                "large",
            ) {
                TableStatistics::estimated(10_000_000, 200)
            } else {
                TableStatistics::estimated(100_000, 150)
            }
        },
        PlanNode::Aggregation { child, .. } => {
            let child_stats = estimate_node_statistics(child);
            proof {
                lemma_node_stats_bounds(child@);
                lemma_reduced_bytes(child_stats.row_count as int, child_stats.total_bytes as int, 10);
            }
            // Aggregation typically reduces rows
            let d = if child_stats.row_count > 1 { child_stats.row_count } else { 1 };
            TableStatistics::estimated(child_stats.row_count / 10, child_stats.total_bytes / d)
        },
        PlanNode::Select { child, .. } => {
            let child_stats = estimate_node_statistics(child);
            proof {
                lemma_node_stats_bounds(child@);
                lemma_reduced_bytes(child_stats.row_count as int, child_stats.total_bytes as int, 2);
            }
            // Selection reduces rows by ~50% (heuristic)
            let d = if child_stats.row_count > 1 { child_stats.row_count } else { 1 };
            TableStatistics::estimated(child_stats.row_count / 2, child_stats.total_bytes / d)
        },
        PlanNode::Project { child, .. } => {
            let child_stats = estimate_node_statistics(child);
            proof {
                lemma_node_stats_bounds(child@);
            }
            // Projection may reduce bytes per row
            TableStatistics::estimated(child_stats.row_count, 100)
        },
        _ => TableStatistics::estimated(10_000, 100),
    }
}

} // verus!
