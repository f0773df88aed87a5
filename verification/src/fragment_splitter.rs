//! Fragment splitter: turns a single-fragment plan into a distributed plan
//! of several fragments, separated by exchange nodes.
//!
//! The split is done in two passes. The first inserts exchange nodes at the
//! split points of the tree (between partial and final aggregation, below a
//! final TopN or a sort, on the inputs of a join). The second cuts the tree
//! at its exchange nodes: the subtree below each exchange becomes fragments
//! of its own, and the exchange is replaced by a receiver in its parent.

use vstd::prelude::*;
use std::sync::Arc;
use crate::cost_model::{
    chosen_side, estimate_node_statistics, node_stats, JoinCostModel, JoinSide, JoinStrategy,
};
use crate::error::DorisError;
use crate::feature_flags::{default_flags, QueryFeatureFlags};
use crate::plan_fragment::{
    copy_exprs, copy_order_bys, exprs_model, fragment_model, fragments_model, lemma_exprs_model_len,
    ExchangeModel, ExchangeType, Expr, ExprModel, FragmentModel, PartitionInfo, PartitionInfoModel,
    OrderByModel, PartitionType, PartitionTypeModel, PlanFragment, PlanModel, PlanNode,
};
use crate::runtime_filters::RuntimeFilterBuilder;
use crate::text::{nat_digits, push_u64_digits, string_of};

verus! {

/// What the split of a plan depends on.
pub struct SplitConfig {
    /// Choose join strategies by cost (else broadcast the right side).
    pub cost_based: bool,
    /// Broadcast threshold in bytes.
    pub threshold: u64,
    /// Number of executors of the cost model.
    pub num_executors: int,
}

/// Splits a single-fragment query plan into multiple fragments for
/// distributed execution.
pub struct FragmentSplitter {
    query_id: uuid::Uuid,
    next_fragment_id: u32,
    feature_flags: Arc<QueryFeatureFlags>,
    cost_model: JoinCostModel,
    runtime_filter_builder: RuntimeFilterBuilder,
    num_executors: usize,
}

/// The exchange between partial and final aggregation: gather everything
/// when there is no grouping, else hash-partition on the grouping keys.
pub open spec fn aggregation_exchange(group_by_exprs: Seq<ExprModel>) -> ExchangeModel {
    if group_by_exprs.len() == 0 {
        ExchangeModel::Gather
    } else {
        ExchangeModel::HashPartition { partition_keys: group_by_exprs }
    }
}

pub open spec fn is_partial_aggregation(n: PlanModel) -> bool {
    match n {
        PlanModel::Aggregation { is_merge, .. } => !is_merge,
        _ => false,
    }
}

pub open spec fn exchange(child: PlanModel, exchange_type: ExchangeModel) -> PlanModel {
    PlanModel::Exchange { child: Box::new(child), exchange_type }
}

/// The plan with exchange nodes inserted at its split points.
pub open spec fn split_plan(cfg: SplitConfig, n: PlanModel) -> PlanModel
    decreases n,
{
    match n {
        PlanModel::Aggregation { child, group_by_exprs, agg_functions, is_merge } => {
            if !is_merge {
                // Partial aggregation: split below it only
                PlanModel::Aggregation {
                    child: Box::new(split_plan(cfg, *child)),
                    group_by_exprs,
                    agg_functions,
                    is_merge: false,
                }
            } else if is_partial_aggregation(*child) {
                // Final over partial: exchange between the two
                PlanModel::Aggregation {
                    child: Box::new(
                        exchange(split_plan(cfg, *child), aggregation_exchange(group_by_exprs)),
                    ),
                    group_by_exprs,
                    agg_functions,
                    is_merge: true,
                }
            } else {
                // Final aggregation alone: partial, exchange, final
                let partial = PlanModel::Aggregation {
                    child: Box::new(split_plan(cfg, *child)),
                    group_by_exprs,
                    agg_functions,
                    is_merge: false,
                };
                PlanModel::Aggregation {
                    child: Box::new(exchange(partial, aggregation_exchange(group_by_exprs))),
                    group_by_exprs,
                    agg_functions,
                    is_merge: true,
                }
            }
        },
        PlanModel::TopN { child, order_by, limit, offset } => {
            // Local TopN of limit + offset rows, gather, final TopN
            let local = PlanModel::TopN {
                child: Box::new(split_plan(cfg, *child)),
                order_by,
                limit: (limit + offset) as usize,
                offset: 0,
            };
            PlanModel::TopN {
                child: Box::new(exchange(local, ExchangeModel::Gather)),
                order_by,
                limit,
                offset,
            }
        },
        PlanModel::HashJoin { left, right, join_type, join_predicates } => {
            join_with_exchanges(
                cfg,
                split_plan(cfg, *left),
                split_plan(cfg, *right),
                join_type,
                join_predicates,
            )
        },
        PlanModel::Select { child, predicates } => PlanModel::Select {
            child: Box::new(split_plan(cfg, *child)),
            predicates,
        },
        PlanModel::Project { child, exprs } => PlanModel::Project {
            child: Box::new(split_plan(cfg, *child)),
            exprs,
        },
        PlanModel::Sort { child, order_by, limit } => PlanModel::Sort {
            child: Box::new(exchange(split_plan(cfg, *child), ExchangeModel::Gather)),
            order_by,
            limit,
        },
        _ => n,
    }
}

/// A join of the split inputs `sl` and `sr` with the exchanges of its
/// strategy.
pub open spec fn join_with_exchanges(
    cfg: SplitConfig,
    sl: PlanModel,
    sr: PlanModel,
    join_type: crate::plan_fragment::JoinType,
    join_predicates: Seq<ExprModel>,
) -> PlanModel {
    let broadcast_right = PlanModel::HashJoin {
        left: Box::new(sl),
        right: Box::new(exchange(sr, ExchangeModel::Broadcast)),
        join_type,
        join_predicates,
    };
    if cfg.cost_based {
        match chosen_side(cfg.num_executors, node_stats(sl), node_stats(sr), cfg.threshold) {
            Some(JoinSide::Right) => broadcast_right,
            Some(JoinSide::Left) => PlanModel::HashJoin {
                left: Box::new(exchange(sl, ExchangeModel::Broadcast)),
                right: Box::new(sr),
                join_type,
                join_predicates,
            },
            None => PlanModel::HashJoin {
                left: Box::new(
                    exchange(
                        sl,
                        ExchangeModel::HashPartition { partition_keys: join_predicates },
                    ),
                ),
                right: Box::new(
                    exchange(
                        sr,
                        ExchangeModel::HashPartition { partition_keys: join_predicates },
                    ),
                ),
                join_type,
                join_predicates,
            },
        }
    } else {
        broadcast_right
    }
}

/// Every TopN that the split rewrites has `limit + offset` within `usize`.
pub open spec fn topn_fits(n: PlanModel) -> bool
    decreases n,
{
    match n {
        PlanModel::Aggregation { child, .. } => topn_fits(*child),
        PlanModel::TopN { child, limit, offset, .. } => limit + offset <= usize::MAX && topn_fits(
            *child,
        ),
        PlanModel::HashJoin { left, right, .. } => topn_fits(*left) && topn_fits(*right),
        PlanModel::Select { child, .. } => topn_fits(*child),
        PlanModel::Project { child, .. } => topn_fits(*child),
        PlanModel::Sort { child, .. } => topn_fits(*child),
        _ => true,
    }
}

/// A scan node standing for the output of another fragment.
pub open spec fn receiver_scan(name: Seq<char>) -> PlanModel {
    PlanModel::OlapScan {
        table_name: name,
        columns: Seq::empty(),
        predicates: Seq::empty(),
        tablet_ids: Seq::empty(),
    }
}

pub open spec fn fresh_fragment(id: int, root: PlanModel) -> FragmentModel {
    FragmentModel {
        fragment_id: id as u32,
        root_node: root,
        output_exprs: Seq::empty(),
        partition_info: None,
    }
}

/// The fragments built from a plan whose fragment ids start at `next`, in
/// the order they are created, and the id of the fragment that produces the
/// plan's output.
pub open spec fn build_fragments(n: PlanModel, next: int) -> (Seq<FragmentModel>, int)
    decreases n, 0int,
{
    match n {
        PlanModel::Exchange { child, exchange_type } => {
            let (fs, idx) = build_fragments(*child, next);
            let id = next + fs.len();
            let receiver = exchange(receiver_scan("_exchange_"@ + nat_digits(idx as nat)), exchange_type);
            (fs.push(fresh_fragment(id, receiver)), id)
        },
        PlanModel::Aggregation { child, group_by_exprs, agg_functions, is_merge } => {
            let (fs, t) = child_tree(*child, next);
            let id = next + fs.len();
            let root = PlanModel::Aggregation {
                child: Box::new(t),
                group_by_exprs,
                agg_functions,
                is_merge,
            };
            (fs.push(fresh_fragment(id, root)), id)
        },
        PlanModel::Select { child, predicates } => {
            let (fs, t) = child_tree(*child, next);
            let id = next + fs.len();
            (fs.push(fresh_fragment(id, PlanModel::Select { child: Box::new(t), predicates })), id)
        },
        PlanModel::Project { child, exprs } => {
            let (fs, t) = child_tree(*child, next);
            let id = next + fs.len();
            (fs.push(fresh_fragment(id, PlanModel::Project { child: Box::new(t), exprs })), id)
        },
        PlanModel::TopN { child, order_by, limit, offset } => {
            let (fs, t) = child_tree(*child, next);
            let id = next + fs.len();
            let root = PlanModel::TopN { child: Box::new(t), order_by, limit, offset };
            (fs.push(fresh_fragment(id, root)), id)
        },
        PlanModel::Sort { child, order_by, limit } => {
            let (fs, t) = child_tree(*child, next);
            let id = next + fs.len();
            (fs.push(fresh_fragment(id, PlanModel::Sort { child: Box::new(t), order_by, limit })), id)
        },
        PlanModel::HashJoin { left, right, join_type, join_predicates } => {
            let (f1, lt) = child_tree(*left, next);
            let (f2, rt) = child_tree(*right, next + f1.len());
            let id = next + f1.len() + f2.len();
            let root = PlanModel::HashJoin {
                left: Box::new(lt),
                right: Box::new(rt),
                join_type,
                join_predicates,
            };
            ((f1 + f2).push(fresh_fragment(id, root)), id)
        },
        _ => (seq![fresh_fragment(next, n)], next),
    }
}

/// The fragments built for the exchanges inside a plan (ids from `next`),
/// and the plan with each exchange replaced by a receiver scan.
pub open spec fn child_tree(n: PlanModel, next: int) -> (Seq<FragmentModel>, PlanModel)
    decreases n, 1int,
{
    match n {
        PlanModel::Exchange { .. } => (build_fragments(n, next).0, receiver_scan("_exchange_result"@)),
        PlanModel::Aggregation { child, group_by_exprs, agg_functions, is_merge } => {
            let (fs, t) = child_tree(*child, next);
            (fs, PlanModel::Aggregation { child: Box::new(t), group_by_exprs, agg_functions, is_merge })
        },
        PlanModel::Project { child, exprs } => {
            let (fs, t) = child_tree(*child, next);
            (fs, PlanModel::Project { child: Box::new(t), exprs })
        },
        PlanModel::Select { child, predicates } => {
            let (fs, t) = child_tree(*child, next);
            (fs, PlanModel::Select { child: Box::new(t), predicates })
        },
        PlanModel::TopN { child, order_by, limit, offset } => {
            let (fs, t) = child_tree(*child, next);
            (fs, PlanModel::TopN { child: Box::new(t), order_by, limit, offset })
        },
        PlanModel::Sort { child, order_by, limit } => {
            let (fs, t) = child_tree(*child, next);
            (fs, PlanModel::Sort { child: Box::new(t), order_by, limit })
        },
        PlanModel::HashJoin { left, right, join_type, join_predicates } => {
            let (f1, lt) = child_tree(*left, next);
            let (f2, rt) = child_tree(*right, next + f1.len());
            (
                f1 + f2,
                PlanModel::HashJoin {
                    left: Box::new(lt),
                    right: Box::new(rt),
                    join_type,
                    join_predicates,
                },
            )
        },
        _ => (Seq::empty(), n),
    }
}

/// The number of fragments built from a plan.
pub open spec fn fragment_count(n: PlanModel) -> nat
    decreases n, 0int,
{
    match n {
        PlanModel::Exchange { child, .. } => fragment_count(*child) + 1,
        PlanModel::Aggregation { child, .. } => exchange_fragment_count(*child) + 1,
        PlanModel::Select { child, .. } => exchange_fragment_count(*child) + 1,
        PlanModel::Project { child, .. } => exchange_fragment_count(*child) + 1,
        PlanModel::TopN { child, .. } => exchange_fragment_count(*child) + 1,
        PlanModel::Sort { child, .. } => exchange_fragment_count(*child) + 1,
        PlanModel::HashJoin { left, right, .. } => exchange_fragment_count(*left)
            + exchange_fragment_count(*right) + 1,
        _ => 1,
    }
}

/// The number of fragments built for the exchanges inside a plan.
pub open spec fn exchange_fragment_count(n: PlanModel) -> nat
    decreases n, 1int,
{
    match n {
        PlanModel::Exchange { .. } => fragment_count(n),
        PlanModel::Aggregation { child, .. } => exchange_fragment_count(*child),
        PlanModel::Select { child, .. } => exchange_fragment_count(*child),
        PlanModel::Project { child, .. } => exchange_fragment_count(*child),
        PlanModel::TopN { child, .. } => exchange_fragment_count(*child),
        PlanModel::Sort { child, .. } => exchange_fragment_count(*child),
        PlanModel::HashJoin { left, right, .. } => exchange_fragment_count(*left)
            + exchange_fragment_count(*right),
        _ => 0,
    }
}

/// The fragment lists have the lengths counted by `fragment_count` and
/// `exchange_fragment_count`, whatever the first id.
pub proof fn lemma_fragment_counts(n: PlanModel, next: int)
    ensures
        build_fragments(n, next).0.len() == fragment_count(n),
        child_tree(n, next).0.len() == exchange_fragment_count(n),
    decreases n,
{
    match n {
        PlanModel::Exchange { child, .. } => {
            lemma_fragment_counts(*child, next);
        },
        PlanModel::Aggregation { child, .. } => {
            lemma_fragment_counts(*child, next);
        },
        PlanModel::Select { child, .. } => {
            lemma_fragment_counts(*child, next);
        },
        PlanModel::Project { child, .. } => {
            lemma_fragment_counts(*child, next);
        },
        PlanModel::TopN { child, .. } => {
            lemma_fragment_counts(*child, next);
        },
        PlanModel::Sort { child, .. } => {
            lemma_fragment_counts(*child, next);
        },
        PlanModel::HashJoin { left, right, .. } => {
            lemma_fragment_counts(*left, next);
            lemma_fragment_counts(*right, next + exchange_fragment_count(*left));
        },
        _ => {},
    }
}

proof fn lemma_fragments_model_push(s: Seq<PlanFragment>, f: PlanFragment)
    ensures
        fragments_model(s.push(f)) == fragments_model(s).push(fragment_model(f)),
{
    assert(fragments_model(s.push(f)) =~= fragments_model(s).push(fragment_model(f)));
}

/// The names of the scanned tables, from left to right.
pub open spec fn scanned_tables(n: PlanModel) -> Seq<Seq<char>>
    decreases n,
{
    match n {
        PlanModel::OlapScan { table_name, .. } => seq![table_name],
        PlanModel::Select { child, .. } => scanned_tables(*child),
        PlanModel::Project { child, .. } => scanned_tables(*child),
        PlanModel::Aggregation { child, .. } => scanned_tables(*child),
        PlanModel::Sort { child, .. } => scanned_tables(*child),
        PlanModel::TopN { child, .. } => scanned_tables(*child),
        PlanModel::Exchange { child, .. } => scanned_tables(*child),
        PlanModel::HashJoin { left, right, .. } => scanned_tables(*left) + scanned_tables(*right),
        PlanModel::Union { children } => scanned_tables_of_all(children),
    }
}

/// The names of the tables scanned by a list of plans, from left to right.
pub open spec fn scanned_tables_of_all(s: Seq<PlanModel>) -> Seq<Seq<char>>
    decreases s,
{
    if s.len() == 0 {
        Seq::empty()
    } else {
        scanned_tables_of_all(s.drop_last()) + scanned_tables(s.last())
    }
}

/// Inserting exchanges keeps the scans of a plan and their order: the split
/// plan reads exactly the tables that the plan reads.
pub proof fn lemma_split_keeps_scans(cfg: SplitConfig, n: PlanModel)
    ensures
        scanned_tables(split_plan(cfg, n)) == scanned_tables(n),
    decreases n,
{
    match n {
        PlanModel::Aggregation { child, group_by_exprs, agg_functions, is_merge } => {
            lemma_split_keeps_scans(cfg, *child);
            let sc = split_plan(cfg, *child);
            let partial = PlanModel::Aggregation {
                child: Box::new(sc),
                group_by_exprs,
                agg_functions,
                is_merge: false,
            };
            assert(scanned_tables(partial) == scanned_tables(sc));
            assert(scanned_tables(exchange(partial, aggregation_exchange(group_by_exprs)))
                == scanned_tables(sc));
            assert(scanned_tables(exchange(sc, aggregation_exchange(group_by_exprs)))
                == scanned_tables(sc));
        },
        PlanModel::TopN { child, order_by, limit, offset } => {
            lemma_split_keeps_scans(cfg, *child);
            let local = PlanModel::TopN {
                child: Box::new(split_plan(cfg, *child)),
                order_by,
                limit: (limit + offset) as usize,
                offset: 0,
            };
            assert(scanned_tables(local) == scanned_tables(split_plan(cfg, *child)));
            assert(scanned_tables(exchange(local, ExchangeModel::Gather)) == scanned_tables(local));
        },
        PlanModel::HashJoin { left, right, join_type, join_predicates } => {
            lemma_split_keeps_scans(cfg, *left);
            lemma_split_keeps_scans(cfg, *right);
            let sl = split_plan(cfg, *left);
            let sr = split_plan(cfg, *right);
            assert(scanned_tables(exchange(sl, ExchangeModel::Broadcast)) == scanned_tables(sl));
            assert(scanned_tables(exchange(sr, ExchangeModel::Broadcast)) == scanned_tables(sr));
            assert(scanned_tables(
                exchange(sl, ExchangeModel::HashPartition { partition_keys: join_predicates }),
            ) == scanned_tables(sl));
            assert(scanned_tables(
                exchange(sr, ExchangeModel::HashPartition { partition_keys: join_predicates }),
            ) == scanned_tables(sr));
        },
        PlanModel::Select { child, .. } => {
            lemma_split_keeps_scans(cfg, *child);
        },
        PlanModel::Project { child, .. } => {
            lemma_split_keeps_scans(cfg, *child);
        },
        PlanModel::Sort { child, .. } => {
            lemma_split_keeps_scans(cfg, *child);
            assert(scanned_tables(exchange(split_plan(cfg, *child), ExchangeModel::Gather))
                == scanned_tables(split_plan(cfg, *child)));
        },
        _ => {},
    }
}

/// A TopN of `limit` rows after skipping `offset` is split into a local
/// TopN that keeps the first `limit + offset` rows of each node's input
/// (skipping none), a gather exchange, and a final TopN that keeps `limit`
/// rows after skipping `offset`; both sort by the TopN's keys. So the final
/// TopN sees every row that it may return.
pub proof fn lemma_topn_split_keeps_enough_rows(
    cfg: SplitConfig,
    child: PlanModel,
    order_by: Seq<OrderByModel>,
    limit: usize,
    offset: usize,
)
    requires
        limit + offset <= usize::MAX,
    ensures
        ({
            let s = split_plan(cfg, PlanModel::TopN { child: Box::new(child), order_by, limit, offset });
            &&& s matches PlanModel::TopN { child: gathered, order_by: final_order, limit: final_limit, offset: final_offset }
            &&& final_order == order_by
            &&& final_limit == limit
            &&& final_offset == offset
            &&& *gathered matches PlanModel::Exchange { child: local, exchange_type }
            &&& exchange_type == ExchangeModel::Gather
            &&& *local matches PlanModel::TopN { child: input, order_by: local_order, limit: local_limit, offset: local_offset }
            &&& local_order == order_by
            &&& local_limit == limit + offset
            &&& local_offset == 0
            &&& *input == split_plan(cfg, child)
        }),
{
}

/// A plan builds at most one fragment more than its exchanges do.
proof fn lemma_count_bound(n: PlanModel)
    ensures
        exchange_fragment_count(n) <= fragment_count(n) <= exchange_fragment_count(n) + 1,
{
}

/// Fragment ids are consecutive: the fragments built from a plan get the
/// ids `next, next + 1, ...` in order, and the fragment producing the
/// plan's output is the last one.
pub proof fn lemma_fragment_ids_consecutive(n: PlanModel, next: int)
    requires
        0 <= next,
        next + fragment_count(n) <= u32::MAX,
    ensures
        forall|i: int|
            0 <= i < build_fragments(n, next).0.len() ==> #[trigger] build_fragments(
                n,
                next,
            ).0[i].fragment_id == next + i,
        build_fragments(n, next).1 == next + fragment_count(n) - 1,
        forall|i: int|
            0 <= i < child_tree(n, next).0.len() ==> #[trigger] child_tree(n, next).0[i].fragment_id
                == next + i,
    decreases n,
{
    lemma_fragment_counts(n, next);
    lemma_count_bound(n);
    match n {
        PlanModel::Exchange { child, .. } => {
            lemma_count_bound(*child);
            lemma_fragment_ids_consecutive(*child, next);
            lemma_fragment_counts(*child, next);
        },
        PlanModel::Aggregation { child, .. } => {
            lemma_count_bound(*child);
            lemma_fragment_ids_consecutive(*child, next);
            lemma_fragment_counts(*child, next);
        },
        PlanModel::Select { child, .. } => {
            lemma_count_bound(*child);
            lemma_fragment_ids_consecutive(*child, next);
            lemma_fragment_counts(*child, next);
        },
        PlanModel::Project { child, .. } => {
            lemma_count_bound(*child);
            lemma_fragment_ids_consecutive(*child, next);
            lemma_fragment_counts(*child, next);
        },
        PlanModel::TopN { child, .. } => {
            lemma_count_bound(*child);
            lemma_fragment_ids_consecutive(*child, next);
            lemma_fragment_counts(*child, next);
        },
        PlanModel::Sort { child, .. } => {
            lemma_count_bound(*child);
            lemma_fragment_ids_consecutive(*child, next);
            lemma_fragment_counts(*child, next);
        },
        PlanModel::HashJoin { left, right, .. } => {
            lemma_fragment_counts(*left, next);
            let next2 = next + exchange_fragment_count(*left);
            lemma_fragment_counts(*right, next2);
            lemma_count_bound(*left);
            lemma_count_bound(*right);
            lemma_fragment_ids_consecutive(*left, next);
            lemma_fragment_ids_consecutive(*right, next2);
            let f1 = child_tree(*left, next).0;
            let f2 = child_tree(*right, next2).0;
            assert forall|i: int| 0 <= i < (f1 + f2).len() implies #[trigger] (f1 + f2)[i].fragment_id
                == next + i by {
                if i >= f1.len() {
                    assert((f1 + f2)[i] == f2[i - f1.len()]);
                }
            }
        },
        _ => {},
    }
}

/// A scan node standing for the output of another fragment.
fn receiver_scan_node(table_name: String) -> (r: PlanNode)
    ensures
        r@ == receiver_scan(table_name@),
{
    let r = PlanNode::OlapScan {
        table_name,
        columns: Vec::new(),
        predicates: Vec::new(),
        tablet_ids: Vec::new(),
    };
    assert(crate::plan_fragment::strings_model(Seq::<String>::empty()) =~= Seq::empty());
    r
}

impl FragmentSplitter {
    #[verifier::type_invariant]
    closed spec fn inv(self) -> bool {
        &&& self.cost_model.well_formed()
        &&& self.cost_model.num_executors() == self.num_executors
    }

    /// What the split of this splitter depends on.
    pub closed spec fn config(&self) -> SplitConfig {
        SplitConfig {
            cost_based: self.feature_flags.cost_based_join_strategy,
            threshold: self.feature_flags.broadcast_threshold_bytes,
            num_executors: self.num_executors as int,
        }
    }

    /// The id that the next fragment will get.
    pub closed spec fn next_id(&self) -> u32 {
        self.next_fragment_id
    }

    /// The id that the next fragment will get.
    pub fn upcoming_fragment_id(&self) -> (r: u32)
        ensures
            r == self.next_id(),
    {
        self.next_fragment_id
    }

    /// A splitter with the default feature flags and 10 executors.
    pub fn new(query_id: uuid::Uuid) -> (r: Self)
        ensures
            r.config() == (SplitConfig {
                cost_based: default_flags().cost_based_join_strategy,
                threshold: default_flags().broadcast_threshold_bytes,
                num_executors: 10,
            }),
            r.next_id() == 0,
    {
        Self::with_feature_flags(query_id, Arc::new(QueryFeatureFlags::default()), 10)
    }

    /// A splitter with the given feature flags and number of executors.
    pub fn with_feature_flags(
        query_id: uuid::Uuid,
        feature_flags: Arc<QueryFeatureFlags>,
        num_executors: usize,
    ) -> (r: Self)
        ensures
            r.config() == (SplitConfig {
                cost_based: feature_flags.cost_based_join_strategy,
                threshold: feature_flags.broadcast_threshold_bytes,
                num_executors: num_executors as int,
            }),
            r.next_id() == 0,
    {
        let cost_model = JoinCostModel::new(num_executors);
        FragmentSplitter {
            query_id,
            next_fragment_id: 0,
            feature_flags,
            cost_model,
            runtime_filter_builder: RuntimeFilterBuilder::new(),
            num_executors,
        }
    }

    /// Splits a single-fragment plan into multiple fragments: inserts the
    /// exchange nodes (`split_plan`) and cuts the plan at them
    /// (`build_fragments`), with fragment ids from this splitter's counter.
    pub fn split_into_fragments(&mut self, single_fragment: PlanFragment) -> (r: Result<
        Vec<PlanFragment>,
        DorisError,
    >)
        requires
            topn_fits(single_fragment.root_node@),
            old(self).next_id() + fragment_count(
                split_plan(old(self).config(), single_fragment.root_node@),
            ) <= u32::MAX,
        ensures
            final(self).config() == old(self).config(),
            r matches Ok(fragments) && fragments_model(fragments@) == build_fragments(
                split_plan(old(self).config(), single_fragment.root_node@),
                old(self).next_id() as int,
            ).0,
            final(self).next_id() == old(self).next_id() + fragment_count(
                split_plan(old(self).config(), single_fragment.root_node@),
            ),
    {
        let mut fragments: Vec<PlanFragment> = Vec::new();
        // Analyze the plan tree to find split points
        let split_plan = self.analyze_and_split(single_fragment.root_node);
        // Build fragments from the split plan
        self.build_fragments_recursive(split_plan, &mut fragments);
        assert(fragments_model(fragments@) =~= Seq::<FragmentModel>::empty() + build_fragments(
            split_plan@,
            old(self).next_id() as int,
        ).0);
        Ok(fragments)
    }

    /// Inserts exchange nodes at the split points of the plan.
    #[verifier::rlimit(80)]
    fn analyze_and_split(&self, node: PlanNode) -> (r: PlanNode)
        requires
            topn_fits(node@),
        ensures
            r@ == split_plan(self.config(), node@),
        decreases node, 1int,
    {
        proof {
            use_type_invariant(self);
        }
        match node {
            PlanNode::Aggregation { child, group_by_exprs, agg_functions, is_merge } => {
                let ghost m = PlanModel::Aggregation {
                    child: Box::new(child@),
                    group_by_exprs: exprs_model(group_by_exprs@),
                    agg_functions: crate::plan_fragment::aggregates_model(agg_functions@),
                    is_merge,
                };
                assert(node@ == m);
                let r = self.split_aggregation(child, group_by_exprs, agg_functions, is_merge);
                assert(r@ == split_plan(self.config(), m));
                r
            },
            PlanNode::TopN { child, order_by, limit, offset } => {
                let ghost ob = crate::plan_fragment::order_bys_model(order_by@);
                let split_child = self.analyze_and_split(*child);
                // Local TopN on each node, including the offset
                let local_topn = PlanNode::TopN {
                    child: Box::new(split_child),
                    order_by: copy_order_bys(&order_by),
                    limit: limit + offset,
                    offset: 0,
                };
                let ghost local = PlanModel::TopN {
                    child: Box::new(split_plan(self.config(), child@)),
                    order_by: ob,
                    limit: (limit + offset) as usize,
                    offset: 0,
                };
                assert(local_topn@ == local);
                // Gather, then final TopN on the coordinator
                let exchange_node = PlanNode::Exchange {
                    child: Box::new(local_topn),
                    exchange_type: ExchangeType::Gather,
                };
                assert(exchange_node@ == exchange(local, ExchangeModel::Gather));
                PlanNode::TopN { child: Box::new(exchange_node), order_by, limit, offset }
            },
            PlanNode::HashJoin { left, right, join_type, join_predicates } => {
                let ghost m = PlanModel::HashJoin {
                    left: Box::new(left@),
                    right: Box::new(right@),
                    join_type,
                    join_predicates: exprs_model(join_predicates@),
                };
                assert(node@ == m);
                let split_left = self.analyze_and_split(*left);
                let split_right = self.analyze_and_split(*right);
                self.place_join_exchanges(split_left, split_right, join_type, join_predicates)
            },
            PlanNode::Select { child, predicates } => {
                let split_child = self.analyze_and_split(*child);
                PlanNode::Select { child: Box::new(split_child), predicates }
            },
            PlanNode::Project { child, exprs } => {
                let split_child = self.analyze_and_split(*child);
                PlanNode::Project { child: Box::new(split_child), exprs }
            },
            PlanNode::Sort { child, order_by, limit } => {
                let split_child = self.analyze_and_split(*child);
                // Sort without limit - needs gather first
                let exchange_node = PlanNode::Exchange {
                    child: Box::new(split_child),
                    exchange_type: ExchangeType::Gather,
                };
                assert(exchange_node@ == exchange(
                    split_plan(self.config(), child@),
                    ExchangeModel::Gather,
                ));
                PlanNode::Sort { child: Box::new(exchange_node), order_by, limit }
            },
            // Leaf nodes and simple nodes pass through
            PlanNode::OlapScan { .. } => node,
            PlanNode::Exchange { .. } => node,
            PlanNode::Union { .. } => node,
        }
    }

    /// Builds a join of two split inputs with the exchanges of its strategy:
    /// by cost when cost-based strategy selection is on, else broadcasting
    /// the right side.
    #[verifier::rlimit(40)]
    fn place_join_exchanges(
        &self,
        split_left: PlanNode,
        split_right: PlanNode,
        join_type: crate::plan_fragment::JoinType,
        join_predicates: Vec<Expr>,
    ) -> (r: PlanNode)
        ensures
            r@ == join_with_exchanges(
                self.config(),
                split_left@,
                split_right@,
                join_type,
                exprs_model(join_predicates@),
            ),
    {
        proof {
            use_type_invariant(self);
        }
        let ghost cfg = self.config();
        let ghost sl = split_left@;
        let ghost sr = split_right@;
        let ghost jp = exprs_model(join_predicates@);
        if self.feature_flags.cost_based_join_strategy {
            let left_stats = estimate_node_statistics(&split_left);
            let right_stats = estimate_node_statistics(&split_right);
            let strategy = self.cost_model.choose_join_strategy(
                &left_stats,
                &right_stats,
                self.feature_flags.broadcast_threshold_bytes,
            );
            let ghost side = chosen_side(cfg.num_executors, node_stats(sl), node_stats(sr), cfg.threshold);
            match strategy {
                JoinStrategy::Broadcast { broadcast_side } => {
                    match broadcast_side {
                        JoinSide::Left => {
                            assert(side == Some(JoinSide::Left));
                            let broadcast_node = PlanNode::Exchange {
                                child: Box::new(split_left),
                                exchange_type: ExchangeType::Broadcast,
                            };
                            assert(broadcast_node@ == exchange(sl, ExchangeModel::Broadcast));
                            PlanNode::HashJoin {
                                left: Box::new(broadcast_node),
                                right: Box::new(split_right),
                                join_type,
                                join_predicates,
                            }
                        },
                        JoinSide::Right => {
                            assert(side == Some(JoinSide::Right));
                            let broadcast_node = PlanNode::Exchange {
                                child: Box::new(split_right),
                                exchange_type: ExchangeType::Broadcast,
                            };
                            assert(broadcast_node@ == exchange(sr, ExchangeModel::Broadcast));
                            PlanNode::HashJoin {
                                left: Box::new(split_left),
                                right: Box::new(broadcast_node),
                                join_type,
                                join_predicates,
                            }
                        },
                    }
                },
                JoinStrategy::Shuffle { .. } => {
                    assert(side is None);
                    // Partition both sides on the join predicates
                    let partition_keys = copy_exprs(&join_predicates);
                    let shuffle_left = PlanNode::Exchange {
                        child: Box::new(split_left),
                        exchange_type: ExchangeType::HashPartition {
                            partition_keys: copy_exprs(&partition_keys),
                        },
                    };
                    assert(shuffle_left@ == exchange(
                        sl,
                        ExchangeModel::HashPartition { partition_keys: jp },
                    ));
                    let shuffle_right = PlanNode::Exchange {
                        child: Box::new(split_right),
                        exchange_type: ExchangeType::HashPartition { partition_keys },
                    };
                    assert(shuffle_right@ == exchange(
                        sr,
                        ExchangeModel::HashPartition { partition_keys: jp },
                    ));
                    PlanNode::HashJoin {
                        left: Box::new(shuffle_left),
                        right: Box::new(shuffle_right),
                        join_type,
                        join_predicates,
                    }
                },
            }
        } else {
            // Default strategy: broadcast the right side
            let broadcast_right = PlanNode::Exchange {
                child: Box::new(split_right),
                exchange_type: ExchangeType::Broadcast,
            };
            assert(broadcast_right@ == exchange(sr, ExchangeModel::Broadcast));
            PlanNode::HashJoin {
                left: Box::new(split_left),
                right: Box::new(broadcast_right),
                join_type,
                join_predicates,
            }
        }
    }

    /// Splits an aggregation into partial and final phases with an exchange
    /// between them.
    #[verifier::rlimit(40)]
    fn split_aggregation(
        &self,
        child: Box<PlanNode>,
        group_by_exprs: Vec<Expr>,
        agg_functions: Vec<crate::plan_fragment::AggregateFunction>,
        is_merge: bool,
    ) -> (r: PlanNode)
        requires
            topn_fits(child@),
        ensures
            r@ == split_plan(
                self.config(),
                PlanModel::Aggregation {
                    child: Box::new(child@),
                    group_by_exprs: exprs_model(group_by_exprs@),
                    agg_functions: crate::plan_fragment::aggregates_model(agg_functions@),
                    is_merge,
                },
            ),
        decreases child, 2int,
    {
        proof {
            use_type_invariant(self);
        }
                if !is_merge {
                    let processed_child = self.analyze_and_split(*child);
                    return PlanNode::Aggregation {
                        child: Box::new(processed_child),
                        group_by_exprs,
                        agg_functions,
                        is_merge: false,
                    };
                }
                let child_is_partial = match &*child {
                    PlanNode::Aggregation { is_merge, .. } => !*is_merge,
                    _ => false,
                };
                assert(child_is_partial == is_partial_aggregation(child@));
                proof {
                    lemma_exprs_model_len(group_by_exprs@);
                }
                let ghost cfg = self.config();
                let ghost gm = exprs_model(group_by_exprs@);
                let ghost am = crate::plan_fragment::aggregates_model(agg_functions@);
                let ghost m = PlanModel::Aggregation {
                    child: Box::new(child@),
                    group_by_exprs: gm,
                    agg_functions: am,
                    is_merge: true,
                };
                if child_is_partial {
                    assert(split_plan(cfg, m) == PlanModel::Aggregation {
                        child: Box::new(exchange(split_plan(cfg, child@), aggregation_exchange(gm))),
                        group_by_exprs: gm,
                        agg_functions: am,
                        is_merge: true,
                    });
                    // The plan already has partial/final phases: insert an
                    // exchange between them
                    let partial_child = self.analyze_and_split(*child);
                    let exchange_type = if group_by_exprs.len() == 0 {
                        ExchangeType::Gather
                    } else {
                        ExchangeType::HashPartition { partition_keys: copy_exprs(&group_by_exprs) }
                    };
                    assert(exchange_type@ == aggregation_exchange(exprs_model(group_by_exprs@)));
                    let exchange_node = PlanNode::Exchange {
                        child: Box::new(partial_child),
                        exchange_type,
                    };
                    assert(exchange_node@ == exchange(split_plan(cfg, child@), aggregation_exchange(gm)));
                    let r = PlanNode::Aggregation {
                        child: Box::new(exchange_node),
                        group_by_exprs,
                        agg_functions,
                        is_merge: true,
                    };
                    assert(r@ == split_plan(cfg, m));
                    return r;
                }
                // Split a final aggregation into partial and final phases
                let partial_child = self.analyze_and_split(*child);
                let partial_agg = PlanNode::Aggregation {
                    child: Box::new(partial_child),
                    group_by_exprs: copy_exprs(&group_by_exprs),
                    agg_functions: crate::plan_fragment::copy_aggregates(&agg_functions),
                    is_merge: false,
                };
                let exchange_type = if group_by_exprs.len() == 0 {
                    // No GROUP BY - gather all results to the coordinator
                    ExchangeType::Gather
                } else {
                    // GROUP BY - hash partition by the group keys
                    ExchangeType::HashPartition { partition_keys: copy_exprs(&group_by_exprs) }
                };
                assert(exchange_type@ == aggregation_exchange(exprs_model(group_by_exprs@)));
                let ghost partial = PlanModel::Aggregation {
                    child: Box::new(split_plan(cfg, child@)),
                    group_by_exprs: gm,
                    agg_functions: am,
                    is_merge: false,
                };
                assert(partial_agg@ == partial);
                let exchange_node = PlanNode::Exchange { child: Box::new(partial_agg), exchange_type };
                assert(exchange_node@ == exchange(partial, aggregation_exchange(gm)));
                assert(split_plan(cfg, m) == PlanModel::Aggregation {
                    child: Box::new(exchange(partial, aggregation_exchange(gm))),
                    group_by_exprs: gm,
                    agg_functions: am,
                    is_merge: true,
                });
                let r = PlanNode::Aggregation {
                    child: Box::new(exchange_node),
                    group_by_exprs,
                    agg_functions,
                    is_merge: true,
                };
                assert(r@ == split_plan(cfg, m));
                r
    }

    /// Cuts the plan at its exchange nodes: appends its fragments to
    /// `fragments` and returns the id of the fragment producing its output.
    fn build_fragments_recursive(&mut self, node: PlanNode, fragments: &mut Vec<PlanFragment>) -> (r:
        usize)
        requires
            old(self).next_id() + fragment_count(node@) <= u32::MAX,
        ensures
            final(self).config() == old(self).config(),
            fragments_model(final(fragments)@) == fragments_model(old(fragments)@) + build_fragments(
                node@,
                old(self).next_id() as int,
            ).0,
            r == build_fragments(node@, old(self).next_id() as int).1,
            final(self).next_id() == old(self).next_id() + fragment_count(node@),
        decreases node, 0int,
    {
        proof {
            lemma_fragment_counts(node@, self.next_id() as int);
        }
        let ghost frags0 = fragments@;
        match node {
            PlanNode::Exchange { child, exchange_type } => {
                proof {
                    lemma_fragment_counts(child@, self.next_id() as int);
                }
                // The child of the exchange becomes separate fragments
                let child_fragment_idx = self.build_fragments_recursive(*child, fragments);
                // A fragment that receives from the child fragment
                let fragment_id = self.next_fragment_id();
                let mut table_name = string_of("_exchange_");
                push_u64_digits(&mut table_name, child_fragment_idx as u64);
                let receiver = PlanNode::Exchange {
                    child: Box::new(receiver_scan_node(table_name)),
                    exchange_type,
                };
                let fragment = PlanFragment::new(fragment_id, receiver);
                let ghost frags1 = fragments@;
                fragments.push(fragment);
                proof {
                    lemma_fragments_model_push(frags1, fragment);
                }
                fragment_id as usize
            },
            PlanNode::Aggregation { child, group_by_exprs, agg_functions, is_merge } => {
                let child_tree = self.build_child_tree(*child, fragments);
                let new_node = PlanNode::Aggregation {
                    child: Box::new(child_tree),
                    group_by_exprs,
                    agg_functions,
                    is_merge,
                };
                self.create_fragment(new_node, fragments)
            },
            PlanNode::Select { child, predicates } => {
                let child_tree = self.build_child_tree(*child, fragments);
                let new_node = PlanNode::Select { child: Box::new(child_tree), predicates };
                self.create_fragment(new_node, fragments)
            },
            PlanNode::Project { child, exprs } => {
                let child_tree = self.build_child_tree(*child, fragments);
                let new_node = PlanNode::Project { child: Box::new(child_tree), exprs };
                self.create_fragment(new_node, fragments)
            },
            PlanNode::TopN { child, order_by, limit, offset } => {
                let child_tree = self.build_child_tree(*child, fragments);
                let new_node = PlanNode::TopN { child: Box::new(child_tree), order_by, limit, offset };
                self.create_fragment(new_node, fragments)
            },
            PlanNode::Sort { child, order_by, limit } => {
                let child_tree = self.build_child_tree(*child, fragments);
                let new_node = PlanNode::Sort { child: Box::new(child_tree), order_by, limit };
                self.create_fragment(new_node, fragments)
            },
            PlanNode::HashJoin { left, right, join_type, join_predicates } => {
                let ghost next0 = self.next_id() as int;
                proof {
                    lemma_fragment_counts(left@, next0);
                }
                let left_tree = self.build_child_tree(*left, fragments);
                let ghost frags1 = fragments@;
                let right_tree = self.build_child_tree(*right, fragments);
                let ghost frags2 = fragments@;
                let new_node = PlanNode::HashJoin {
                    left: Box::new(left_tree),
                    right: Box::new(right_tree),
                    join_type,
                    join_predicates,
                };
                let r = self.create_fragment(new_node, fragments);
                proof {
                    let f1 = child_tree(left@, next0).0;
                    let f2 = child_tree(right@, next0 + f1.len()).0;
                    assert(fragments_model(frags2) == fragments_model(frags0) + f1 + f2);
                    assert(fragments_model(frags0) + f1 + f2 =~= fragments_model(frags0) + (f1 + f2));
                }
                r
            },
            // Leaf nodes - start of a fragment
            PlanNode::OlapScan { .. } => self.create_fragment(node, fragments),
            PlanNode::Union { .. } => self.create_fragment(node, fragments),
        }
    }

    /// Replaces the exchanges inside the plan by receiver scans, appending
    /// the fragments built below them to `fragments`.
    fn build_child_tree(&mut self, child: PlanNode, fragments: &mut Vec<PlanFragment>) -> (r:
        PlanNode)
        requires
            old(self).next_id() + exchange_fragment_count(child@) <= u32::MAX,
        ensures
            final(self).config() == old(self).config(),
            fragments_model(final(fragments)@) == fragments_model(old(fragments)@) + child_tree(
                child@,
                old(self).next_id() as int,
            ).0,
            r@ == child_tree(child@, old(self).next_id() as int).1,
            final(self).next_id() == old(self).next_id() + exchange_fragment_count(child@),
        decreases child, 1int,
    {
        proof {
            lemma_fragment_counts(child@, self.next_id() as int);
        }
        let ghost frags0 = fragments@;
        match child {
            // An exchange is a fragment boundary
            PlanNode::Exchange { .. } => {
                let _idx = self.build_fragments_recursive(child, fragments);
                let r = receiver_scan_node(string_of("_exchange_result"));
                assert(r@ == receiver_scan("_exchange_result"@));
                r
            },
            PlanNode::Aggregation { child, group_by_exprs, agg_functions, is_merge } => {
                let processed_child = self.build_child_tree(*child, fragments);
                PlanNode::Aggregation {
                    child: Box::new(processed_child),
                    group_by_exprs,
                    agg_functions,
                    is_merge,
                }
            },
            PlanNode::Project { child, exprs } => {
                let processed_child = self.build_child_tree(*child, fragments);
                PlanNode::Project { child: Box::new(processed_child), exprs }
            },
            PlanNode::Select { child, predicates } => {
                let processed_child = self.build_child_tree(*child, fragments);
                PlanNode::Select { child: Box::new(processed_child), predicates }
            },
            PlanNode::TopN { child, order_by, limit, offset } => {
                let processed_child = self.build_child_tree(*child, fragments);
                PlanNode::TopN { child: Box::new(processed_child), order_by, limit, offset }
            },
            PlanNode::Sort { child, order_by, limit } => {
                let processed_child = self.build_child_tree(*child, fragments);
                PlanNode::Sort { child: Box::new(processed_child), order_by, limit }
            },
            PlanNode::HashJoin { left, right, join_type, join_predicates } => {
                let ghost next0 = self.next_id() as int;
                proof {
                    lemma_fragment_counts(left@, next0);
                }
                let processed_left = self.build_child_tree(*left, fragments);
                let processed_right = self.build_child_tree(*right, fragments);
                proof {
                    let f1 = child_tree(left@, next0).0;
                    let f2 = child_tree(right@, next0 + f1.len()).0;
                    assert(fragments_model(fragments@) == fragments_model(frags0) + f1 + f2);
                    assert(fragments_model(frags0) + f1 + f2 =~= fragments_model(frags0) + (f1 + f2));
                }
                PlanNode::HashJoin {
                    left: Box::new(processed_left),
                    right: Box::new(processed_right),
                    join_type,
                    join_predicates,
                }
            },
            // Leaf nodes - no exchange possible
            PlanNode::OlapScan { .. } => {
                assert(fragments_model(fragments@) =~= fragments_model(frags0) + Seq::empty());
                child
            },
            PlanNode::Union { .. } => {
                assert(fragments_model(fragments@) =~= fragments_model(frags0) + Seq::empty());
                child
            },
        }
    }

    /// Appends a fragment rooted at `node` with the next id, and returns that id.
    fn create_fragment(&mut self, node: PlanNode, fragments: &mut Vec<PlanFragment>) -> (r: usize)
        requires
            old(self).next_id() < u32::MAX,
        ensures
            final(self).config() == old(self).config(),
            fragments_model(final(fragments)@) == fragments_model(old(fragments)@).push(
                fresh_fragment(old(self).next_id() as int, node@),
            ),
            r == old(self).next_id(),
            final(self).next_id() == old(self).next_id() + 1,
    {
        let fragment_id = self.next_fragment_id();
        let fragment = PlanFragment::new(fragment_id, node);
        let ghost frags1 = fragments@;
        fragments.push(fragment);
        proof {
            lemma_fragments_model_push(frags1, fragment);
        }
        fragment_id as usize
    }

    fn next_fragment_id(&mut self) -> (r: u32)
        requires
            old(self).next_id() < u32::MAX,
        ensures
            final(self).config() == old(self).config(),
            r == old(self).next_id(),
            final(self).next_id() == old(self).next_id() + 1,
    {
        proof {
            use_type_invariant(&*self);
        }
        let id = self.next_fragment_id;
        self.next_fragment_id = self.next_fragment_id + 1;
        id
    }
}

/// The names of the plain column references among some expressions, in order.
pub open spec fn column_names(s: Seq<ExprModel>) -> Seq<Seq<char>>
    decreases s.len(),
{
    if s.len() == 0 {
        Seq::empty()
    } else {
        let rest = column_names(s.drop_last());
        match s.last() {
            ExprModel::Column { name, .. } => rest.push(name),
            _ => rest,
        }
    }
}

/// The partitioning recommended for a plan: hash on the grouping columns of
/// a grouped aggregation, random for a table scan, 16 partitions; none for
/// any other plan.
pub open spec fn recommended_partition(n: PlanModel) -> Option<PartitionInfoModel> {
    match n {
        PlanModel::Aggregation { group_by_exprs, .. } => {
            if group_by_exprs.len() > 0 {
                Some(
                    PartitionInfoModel {
                        partition_type: PartitionTypeModel::Hash { keys: column_names(group_by_exprs) },
                        num_partitions: 16,
                    },
                )
            } else {
                None
            }
        },
        PlanModel::OlapScan { .. } => Some(
            PartitionInfoModel { partition_type: PartitionTypeModel::Random, num_partitions: 16 },
        ),
        _ => None,
    }
}

/// Analyzes a query plan and recommends its partitioning strategy.
pub fn recommend_partition_strategy(node: &PlanNode) -> (r: Option<PartitionInfo>)
    ensures
        match r {
            Some(p) => recommended_partition(node@) == Some(p@),
            None => recommended_partition(node@) is None,
        },
{
    match node {
        PlanNode::Aggregation { group_by_exprs, .. } => {
            proof {
                lemma_exprs_model_len(group_by_exprs@);
            }
            if group_by_exprs.len() == 0 {
                return None;
            }
            // Hash partition by the group keys
            let mut keys: Vec<String> = Vec::new();
            let mut i: usize = 0;
            while i < group_by_exprs.len()
                invariant
                    i <= group_by_exprs.len(),
                    crate::plan_fragment::strings_model(keys@) == column_names(
                        exprs_model(group_by_exprs@.subrange(0, i as int)),
                    ),
                decreases group_by_exprs.len() - i,
            {
                let ghost prev = keys@;
                proof {
                    crate::plan_fragment::lemma_exprs_model_push(
                        group_by_exprs@.subrange(0, i as int),
                        group_by_exprs@[i as int],
                    );
                    assert(group_by_exprs@.subrange(0, i as int).push(group_by_exprs@[i as int])
                        =~= group_by_exprs@.subrange(0, i + 1));
                    assert(exprs_model(group_by_exprs@.subrange(0, i + 1)).drop_last()
                        =~= exprs_model(group_by_exprs@.subrange(0, i as int)));
                }
                match &group_by_exprs[i] {
                    Expr::Column { name, .. } => {
                        keys.push(name.clone());
                        assert(crate::plan_fragment::strings_model(keys@) =~= crate::plan_fragment::strings_model(prev).push(name@));
                    },
                    _ => {},
                }
                i = i + 1;
            }
            assert(group_by_exprs@.subrange(0, group_by_exprs.len() as int) =~= group_by_exprs@);
            Some(
                PartitionInfo {
                    partition_type: PartitionType::Hash { keys },
                    // Default, can be adjusted based on cluster size
                    num_partitions: 16,
                },
            )
        },
        // Random distribution for table scans
        PlanNode::OlapScan { .. } => Some(
            PartitionInfo { partition_type: PartitionType::Random, num_partitions: 16 },
        ),
        _ => None,
    }
}

} // verus!
