//! Bucket shuffle optimization: joins and aggregations over tables that are
//! bucketed the same way can run where the data already lies, with no
//! shuffle in between.

use vstd::prelude::*;
use crate::plan_fragment::{
    exprs_model, lemma_exprs_model_index, lemma_exprs_model_len, BinaryOperator, DataType,
    ExchangeModel, ExchangeType, Expr, ExprModel, PlanModel, PlanNode,
};
use crate::runtime_filters::column_of;
use crate::text::{contains_seq, str_contains, string_of};

verus! {

/// How the rows of a table are spread over its buckets.
#[derive(Debug, Clone, Copy, PartialEq, Eq, Structural)]
pub enum BucketType {
    Hash,
    Random,
}

/// Bucket information for a table.
#[derive(Debug, Clone)]
pub struct BucketInfo {
    pub table_name: String,
    pub bucket_column: String,
    pub num_buckets: u32,
    pub bucket_type: BucketType,
}

/// Bucket shuffle optimizer.
pub struct BucketShuffleOptimizer;

/// Two tables can be colocated: the same number of buckets, both hashed.
pub open spec fn colocatable(left: BucketInfo, right: BucketInfo) -> bool {
    &&& left.num_buckets == right.num_buckets
    &&& left.bucket_type == BucketType::Hash
    &&& right.bucket_type == BucketType::Hash
}

/// The columns of an equality `a = b` of two columns (seen through casts)
/// name the two bucket columns, in either order.
pub open spec fn on_bucket_columns(p: ExprModel, lb: Seq<char>, rb: Seq<char>) -> bool {
    match p {
        ExprModel::BinaryOp { op: BinaryOperator::Eq, left, right } => match (
            column_of(*left),
            column_of(*right),
        ) {
            (Some(lc), Some(rc)) => (contains_seq(lc, lb) && contains_seq(rc, rb)) || (
            contains_seq(lc, rb) && contains_seq(rc, lb)),
            _ => false,
        },
        _ => false,
    }
}

/// Some join predicate equates the two bucket columns.
pub open spec fn joins_on_bucket_columns(preds: Seq<ExprModel>, lb: Seq<char>, rb: Seq<char>) -> bool {
    exists|i: int| 0 <= i < preds.len() && #[trigger] on_bucket_columns(preds[i], lb, rb)
}

/// The bucket information that a scan's table name suggests: tables whose
/// name holds "bucketed" or "distributed" are hashed on `id` into 16
/// buckets.
pub open spec fn scan_buckets(table_name: Seq<char>) -> bool {
    contains_seq(table_name, "bucketed"@) || contains_seq(table_name, "distributed"@)
}

/// `p` is a power of two.
pub open spec fn is_pow2(p: nat) -> bool
    decreases p,
{
    if p == 1 {
        true
    } else if p >= 2 && p % 2 == 0 {
        is_pow2(p / 2)
    } else {
        false
    }
}

/// The least power of two that is at least `t`.
pub open spec fn is_next_pow2(p: nat, t: nat) -> bool {
    is_pow2(p) && t <= p && (p == 1 || p / 2 < t)
}

/// Some grouping expression is a column whose name holds the bucket column.
pub open spec fn groups_on_bucket_column(group_by: Seq<ExprModel>, bucket: Seq<char>) -> bool {
    exists|i: int|
        0 <= i < group_by.len() && (#[trigger] group_by[i] matches ExprModel::Column { name, .. }
            && contains_seq(name, bucket))
}

impl BucketShuffleOptimizer {
    /// Checks if two tables can be colocated based on bucket information.
    pub fn can_colocate(left: &BucketInfo, right: &BucketInfo) -> (r: bool)
        ensures
            r == colocatable(*left, *right),
    {
        left.num_buckets == right.num_buckets && left.bucket_type == BucketType::Hash
            && right.bucket_type == BucketType::Hash
    }

    /// Optimizes a join by bucket colocation: the plan comes back as it
    /// was, with `true` when the join can run without a shuffle.
    pub fn optimize_join(
        join_node: &PlanNode,
        left_bucket_info: Option<&BucketInfo>,
        right_bucket_info: Option<&BucketInfo>,
    ) -> (r: (PlanNode, bool))
        ensures
            r.0@ == join_node@,
            r.1 == (match (join_node@, left_bucket_info, right_bucket_info) {
                (PlanModel::HashJoin { join_predicates, .. }, Some(l), Some(rt)) => colocatable(
                    *l,
                    *rt,
                ) && joins_on_bucket_columns(join_predicates, l.bucket_column@, rt.bucket_column@),
                _ => false,
            }),
    {
        match join_node {
            PlanNode::HashJoin { join_predicates, .. } => {
                // Check if tables can be colocated
                if let (Some(left_info), Some(right_info)) = (left_bucket_info, right_bucket_info) {
                    if Self::can_colocate(left_info, right_info) && Self::join_on_bucket_columns(
                        join_predicates,
                        left_info,
                        right_info,
                    ) {
                        // No exchange needed - data is already colocated
                        return (join_node.deep_copy(), true);
                    }
                }
                // Cannot colocate - use standard shuffle
                (join_node.deep_copy(), false)
            },
            _ => (join_node.deep_copy(), false),
        }
    }

    /// Checks if some join predicate equates the two bucket columns.
    pub fn join_on_bucket_columns(
        predicates: &Vec<Expr>,
        left_info: &BucketInfo,
        right_info: &BucketInfo,
    ) -> (r: bool)
        ensures
            r == joins_on_bucket_columns(
                exprs_model(predicates@),
                left_info.bucket_column@,
                right_info.bucket_column@,
            ),
    {
        let ghost preds = exprs_model(predicates@);
        let ghost lb = left_info.bucket_column@;
        let ghost rb = right_info.bucket_column@;
        proof {
            lemma_exprs_model_len(predicates@);
        }
        let mut i: usize = 0;
        while i < predicates.len()
            invariant
                i <= predicates@.len(),
                preds == exprs_model(predicates@),
                preds.len() == predicates@.len(),
                lb == left_info.bucket_column@,
                rb == right_info.bucket_column@,
                forall|j: int| 0 <= j < i ==> !#[trigger] on_bucket_columns(preds[j], lb, rb),
            decreases predicates@.len() - i,
        {
            proof {
                lemma_exprs_model_index(predicates@, i as int);
            }
            if let Expr::BinaryOp { op, left, right } = &predicates[i] {
                if *op == BinaryOperator::Eq {
                    if let (Some(left_col), Some(right_col)) = (
                        Self::extract_column(left),
                        Self::extract_column(right),
                    ) {
                        if (str_contains(&left_col, &left_info.bucket_column) && str_contains(
                            &right_col,
                            &right_info.bucket_column,
                        )) || (str_contains(&left_col, &right_info.bucket_column) && str_contains(
                            &right_col,
                            &left_info.bucket_column,
                        )) {
                            assert(on_bucket_columns(preds[i as int], lb, rb));
                            return true;
                        }
                    }
                }
            }
            i = i + 1;
        }
        false
    }

    /// The column an expression reads, seen through casts.
    pub fn extract_column(expr: &Expr) -> (r: Option<String>)
        ensures
            match r {
                Some(s) => column_of(expr@) == Some(s@),
                None => column_of(expr@) is None,
            },
        decreases expr,
    {
        match expr {
            Expr::Column { name, .. } => Some(name.clone()),
            Expr::Cast { expr, .. } => Self::extract_column(expr),
            _ => None,
        }
    }

    /// A bucket-aware exchange over `child`: none when the target bucket
    /// count is the table's own, else a hash partition on the bucket column.
    pub fn create_bucket_exchange(
        child: Box<PlanNode>,
        bucket_info: &BucketInfo,
        target_buckets: u32,
    ) -> (r: PlanNode)
        ensures
            target_buckets == bucket_info.num_buckets ==> r@ == child@,
            target_buckets != bucket_info.num_buckets ==> r@ == (PlanModel::Exchange {
                child: Box::new(child@),
                exchange_type: ExchangeModel::HashPartition {
                    partition_keys: seq![
                        ExprModel::Column {
                            name: bucket_info.bucket_column@,
                            data_type: DataType::Int,
                        },
                    ],
                },
            }),
    {
        // If target buckets match source buckets, can avoid shuffle
        if target_buckets == bucket_info.num_buckets {
            return *child;
        }
        // Otherwise, create hash partition exchange on bucket column
        let keys = vec![Expr::Column { name: bucket_info.bucket_column.clone(), data_type: DataType::Int }];
        let r = PlanNode::Exchange {
            child,
            exchange_type: ExchangeType::HashPartition { partition_keys: keys },
        };
        proof {
            lemma_exprs_model_len(keys@);
            lemma_exprs_model_index(keys@, 0);
        }
        assert(exprs_model(keys@) =~= seq![
            ExprModel::Column { name: bucket_info.bucket_column@, data_type: DataType::Int },
        ]);
        r
    }

    /// The bucket information of a scan, guessed from its table name.
    pub fn get_bucket_info(scan: &PlanNode) -> (r: Option<BucketInfo>)
        ensures
            match scan@ {
                PlanModel::OlapScan { table_name, .. } => if scan_buckets(table_name) {
                    r matches Some(info) && info.table_name@ == table_name && info.bucket_column@
                        == "id"@ && info.num_buckets == 16 && info.bucket_type == BucketType::Hash
                } else {
                    r is None
                },
                _ => r is None,
            },
    {
        match scan {
            PlanNode::OlapScan { table_name, .. } => {
                if str_contains(table_name, "bucketed") || str_contains(table_name, "distributed") {
                    Some(
                        BucketInfo {
                            table_name: table_name.clone(),
                            bucket_column: string_of("id"),
                            num_buckets: 16,
                            bucket_type: BucketType::Hash,
                        },
                    )
                } else {
                    None
                }
            },
            _ => None,
        }
    }

    /// The bucket count for an aggregation: the input's own when it has at
    /// least `num_executors * parallelism_factor` buckets (that product
    /// taken as a `u32`), else the least power of two at or above it.
    pub fn optimal_bucket_count(
        input_buckets: u32,
        num_executors: usize,
        parallelism_factor: usize,
    ) -> (r: u32)
        requires
            num_executors * parallelism_factor <= usize::MAX,
            input_buckets < ((num_executors * parallelism_factor) as u32) ==> ((num_executors
                * parallelism_factor) as u32) <= 0x8000_0000,
        ensures
            ({
                let target = (num_executors * parallelism_factor) as u32;
                if input_buckets >= target {
                    r == input_buckets
                } else {
                    is_next_pow2(r as nat, target as nat)
                }
            }),
    {
        // Target: num_executors * parallelism_factor buckets
        let product: usize = num_executors * parallelism_factor;
        let target: u32 = product as u32;
        // If input is already well-distributed, keep it
        if input_buckets >= target {
            input_buckets
        } else {
            // Round up to power of 2 for better distribution
            Self::next_power_of_two(target)
        }
    }

    /// The least power of two at or above `t` (std `u32::next_power_of_two`).
    fn next_power_of_two(t: u32) -> (r: u32)
        requires
            t <= 0x8000_0000,
        ensures
            is_next_pow2(r as nat, t as nat),
    {
        let mut p: u64 = 1;
        while p < t as u64
            invariant
                t <= 0x8000_0000,
                1 <= p < 0x1_0000_0000,
                is_pow2(p as nat),
                p == 1 || p / 2 < t,
            decreases 0x1_0000_0000 - p,
        {
            assert(is_pow2((2 * p) as nat)) by {
                assert((2 * p) as nat / 2 == p as nat);
            }
            p = 2 * p;
        }
        p as u32
    }

    /// Checks if an aggregation can use bucket shuffle: it groups on a
    /// column whose name holds the child's bucket column.
    pub fn can_use_bucket_agg(agg_node: &PlanNode, child_bucket_info: Option<&BucketInfo>) -> (r:
        bool)
        ensures
            r == (match (agg_node@, child_bucket_info) {
                (PlanModel::Aggregation { group_by_exprs, .. }, Some(info)) =>
                    groups_on_bucket_column(group_by_exprs, info.bucket_column@),
                _ => false,
            }),
    {
        match agg_node {
            PlanNode::Aggregation { group_by_exprs, .. } => {
                if let Some(bucket_info) = child_bucket_info {
                    let ghost g = exprs_model(group_by_exprs@);
                    proof {
                        lemma_exprs_model_len(group_by_exprs@);
                    }
                    let mut i: usize = 0;
                    while i < group_by_exprs.len()
                        invariant
                            i <= group_by_exprs@.len(),
                            g == exprs_model(group_by_exprs@),
                            g.len() == group_by_exprs@.len(),
                            agg_node@ matches PlanModel::Aggregation { group_by_exprs: gg, .. } && gg == g,
                            child_bucket_info == Some(bucket_info),
                            forall|j: int|
                                0 <= j < i ==> !(#[trigger] g[j] matches ExprModel::Column {
                                    name,
                                    ..
                                } && contains_seq(name, bucket_info.bucket_column@)),
                        decreases group_by_exprs@.len() - i,
                    {
                        proof {
                            lemma_exprs_model_index(group_by_exprs@, i as int);
                        }
                        if let Expr::Column { name, .. } = &group_by_exprs[i] {
                            if str_contains(name, &bucket_info.bucket_column) {
                                assert(g[i as int] matches ExprModel::Column { name, .. }
                                    && contains_seq(name, bucket_info.bucket_column@));
                                assert(groups_on_bucket_column(g, bucket_info.bucket_column@));
                                return true;
                            }
                        }
                        i = i + 1;
                    }
                }
                false
            },
            _ => false,
        }
    }
}

/// Colocation does not depend on which table is on which side of the join.
pub proof fn lemma_colocation_symmetric(left: BucketInfo, right: BucketInfo, preds: Seq<ExprModel>)
    ensures
        colocatable(left, right) == colocatable(right, left),
        joins_on_bucket_columns(preds, left.bucket_column@, right.bucket_column@)
            == joins_on_bucket_columns(preds, right.bucket_column@, left.bucket_column@),
{
    let lb = left.bucket_column@;
    let rb = right.bucket_column@;
    if joins_on_bucket_columns(preds, lb, rb) {
        let i = choose|i: int| 0 <= i < preds.len() && #[trigger] on_bucket_columns(preds[i], lb, rb);
        assert(on_bucket_columns(preds[i], rb, lb));
    }
    if joins_on_bucket_columns(preds, rb, lb) {
        let i = choose|i: int| 0 <= i < preds.len() && #[trigger] on_bucket_columns(preds[i], rb, lb);
        assert(on_bucket_columns(preds[i], lb, rb));
    }
}

} // verus!
