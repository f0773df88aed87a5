//! Runtime filter propagation: filters generated from the build side of a
//! join and applied to the scans of the probe side, so that less data is
//! read at the source.

use vstd::prelude::*;
use crate::cost_model::{estimate_node_statistics, lemma_node_stats_bounds, node_stats};
use crate::plan_fragment::{
    copy_exprs, copy_i64s, copy_strings, exprs_model, lemma_exprs_model_index,
    lemma_exprs_model_len, lemma_exprs_model_push, BinaryOperator, DataType, Expr, ExprModel,
    JoinType, PlanModel, PlanNode,
};
use crate::text::{nat_digits, push_str, push_u64_digits, string_of};

verus! {

/// Runtime filter type.
#[derive(Debug, Clone, PartialEq)]
pub enum RuntimeFilterType {
    /// Bloom filter (probabilistic); the false positive rate is in parts
    /// per million
    BloomFilter { expected_elements: u64, false_positive_rate_ppm: u32 },
    /// Min-max filter (range)
    MinMax { column: String },
    /// IN list filter (exact values)
    InList { column: String, max_values: usize },
}

/// Runtime filter definition.
#[derive(Debug, Clone)]
pub struct RuntimeFilter {
    pub filter_id: u32,
    pub filter_type: RuntimeFilterType,
    pub build_fragment_id: u32,
    pub probe_fragment_ids: Vec<u32>,
    pub join_column: String,
}

/// Runtime filter builder: hands out consecutive filter ids.
pub struct RuntimeFilterBuilder {
    next_filter_id: u32,
}

pub enum FilterTypeModel {
    BloomFilter { expected_elements: u64, false_positive_rate_ppm: u32 },
    MinMax { column: Seq<char> },
    InList { column: Seq<char>, max_values: usize },
}

pub struct RuntimeFilterModel {
    pub filter_id: u32,
    pub filter_type: FilterTypeModel,
    pub build_fragment_id: u32,
    pub probe_fragment_ids: Seq<u32>,
    pub join_column: Seq<char>,
}

pub open spec fn filter_type_model(t: RuntimeFilterType) -> FilterTypeModel {
    match t {
        RuntimeFilterType::BloomFilter { expected_elements, false_positive_rate_ppm } =>
            FilterTypeModel::BloomFilter { expected_elements, false_positive_rate_ppm },
        RuntimeFilterType::MinMax { column } => FilterTypeModel::MinMax { column: column@ },
        RuntimeFilterType::InList { column, max_values } => FilterTypeModel::InList {
            column: column@,
            max_values,
        },
    }
}

pub open spec fn filter_model(f: RuntimeFilter) -> RuntimeFilterModel {
    RuntimeFilterModel {
        filter_id: f.filter_id,
        filter_type: filter_type_model(f.filter_type),
        build_fragment_id: f.build_fragment_id,
        probe_fragment_ids: f.probe_fragment_ids@,
        join_column: f.join_column@,
    }
}

pub open spec fn filters_model(s: Seq<RuntimeFilter>) -> Seq<RuntimeFilterModel> {
    s.map_values(|f: RuntimeFilter| filter_model(f))
}

impl View for RuntimeFilter {
    type V = RuntimeFilterModel;

    open spec fn view(&self) -> RuntimeFilterModel {
        filter_model(*self)
    }
}

/// The column an expression reads, seen through casts.
pub open spec fn column_of(e: ExprModel) -> Option<Seq<char>>
    decreases e,
{
    match e {
        ExprModel::Column { name, .. } => Some(name),
        ExprModel::Cast { expr, .. } => column_of(*expr),
        _ => None,
    }
}

/// The (probe, build) columns of an equi-join predicate `left = right`.
pub open spec fn join_columns(p: ExprModel) -> Option<(Seq<char>, Seq<char>)> {
    match p {
        ExprModel::BinaryOp { op: BinaryOperator::Eq, left, right } => match (
            column_of(*left),
            column_of(*right),
        ) {
            (Some(l), Some(r)) => Some((l, r)),
            _ => None,
        },
        _ => None,
    }
}

/// The kind of filter for a build side of `rows` rows on column `build_col`:
/// an IN list below 1000 rows, a Bloom filter (1% false positives) below a
/// million, else a min-max filter.
pub open spec fn filter_type_for(rows: int, build_col: Seq<char>) -> FilterTypeModel {
    if rows < 1000 {
        FilterTypeModel::InList { column: build_col, max_values: 1000 }
    } else if rows < 1_000_000 {
        FilterTypeModel::BloomFilter { expected_elements: rows as u64, false_positive_rate_ppm: 10_000 }
    } else {
        FilterTypeModel::MinMax { column: build_col }
    }
}

/// The filters for the join predicates `preds`, one per equi-join
/// predicate on columns, in order, with ids from `next`.
pub open spec fn filters_for(
    preds: Seq<ExprModel>,
    rows: int,
    build: u32,
    probe: u32,
    next: int,
) -> Seq<RuntimeFilterModel>
    decreases preds.len(),
{
    if preds.len() == 0 {
        Seq::empty()
    } else {
        let prev = filters_for(preds.drop_last(), rows, build, probe, next);
        match join_columns(preds.last()) {
            Some((l, r)) => prev.push(
                RuntimeFilterModel {
                    filter_id: (next + prev.len()) as u32,
                    filter_type: filter_type_for(rows, r),
                    build_fragment_id: build,
                    probe_fragment_ids: seq![probe],
                    join_column: l,
                },
            ),
            None => prev,
        }
    }
}

/// The number of equi-join predicates on columns.
pub open spec fn join_column_count(preds: Seq<ExprModel>) -> nat
    decreases preds.len(),
{
    if preds.len() == 0 {
        0
    } else {
        join_column_count(preds.drop_last()) + if join_columns(preds.last()) is Some {
            1nat
        } else {
            0nat
        }
    }
}

pub proof fn lemma_filters_count(preds: Seq<ExprModel>, rows: int, build: u32, probe: u32, next: int)
    ensures
        filters_for(preds, rows, build, probe, next).len() == join_column_count(preds),
    decreases preds.len(),
{
    if preds.len() > 0 {
        lemma_filters_count(preds.drop_last(), rows, build, probe, next);
    }
}

/// The filters of a join carry consecutive ids from `next`, all built by the
/// build fragment and sent to the probe fragment.
pub proof fn lemma_filter_ids_consecutive(
    preds: Seq<ExprModel>,
    rows: int,
    build: u32,
    probe: u32,
    next: int,
)
    requires
        0 <= next,
        next + join_column_count(preds) <= u32::MAX,
    ensures
        forall|i: int|
            0 <= i < filters_for(preds, rows, build, probe, next).len() ==> {
                let f = #[trigger] filters_for(preds, rows, build, probe, next)[i];
                &&& f.filter_id == next + i
                &&& f.build_fragment_id == build
                &&& f.probe_fragment_ids == seq![probe]
            },
    decreases preds.len(),
{
    lemma_filters_count(preds, rows, build, probe, next);
    if preds.len() > 0 {
        lemma_filters_count(preds.drop_last(), rows, build, probe, next);
        lemma_filter_ids_consecutive(preds.drop_last(), rows, build, probe, next);
    }
}

/// A filter of this kind suits a build side of `rows` estimated rows: an
/// IN list of at most 1000 values for fewer than 1000 rows, a Bloom filter
/// expecting that many rows with 1% false positives from 1000 up to a
/// million rows, a min-max filter from a million rows on.
pub open spec fn kind_suits_rows(rows: int, t: FilterTypeModel) -> bool {
    match t {
        FilterTypeModel::InList { max_values, .. } => rows < 1000 && max_values == 1000,
        FilterTypeModel::BloomFilter { expected_elements, false_positive_rate_ppm } => 1000 <= rows
            < 1_000_000 && expected_elements == rows && false_positive_rate_ppm == 10_000,
        FilterTypeModel::MinMax { .. } => rows >= 1_000_000,
    }
}

/// Every filter for join predicates has the kind that suits the build
/// side's rows.
proof fn lemma_filters_suit_rows(preds: Seq<ExprModel>, rows: int, build: u32, probe: u32, next: int)
    requires
        0 <= rows,
    ensures
        forall|i: int|
            0 <= i < filters_for(preds, rows, build, probe, next).len() ==> kind_suits_rows(
                rows,
                (#[trigger] filters_for(preds, rows, build, probe, next)[i]).filter_type,
            ),
    decreases preds.len(),
{
    if preds.len() > 0 {
        lemma_filters_suit_rows(preds.drop_last(), rows, build, probe, next);
    }
}

/// The filters generated for a join node (see `filters_for`): only inner
/// and left outer hash joins get filters.
pub open spec fn join_filters(join: PlanModel, build: u32, probe: u32, next: int) -> Seq<
    RuntimeFilterModel,
> {
    match join {
        PlanModel::HashJoin { right, join_type, join_predicates, .. } => {
            if join_type == JoinType::Inner || join_type == JoinType::Left {
                filters_for(join_predicates, node_stats(*right).0, build, probe, next)
            } else {
                Seq::empty()
            }
        },
        _ => Seq::empty(),
    }
}

/// The number of filters generated for a join node.
pub open spec fn join_filter_count(join: PlanModel) -> nat {
    match join {
        PlanModel::HashJoin { join_type, join_predicates, .. } => {
            if join_type == JoinType::Inner || join_type == JoinType::Left {
                join_column_count(join_predicates)
            } else {
                0
            }
        },
        _ => 0,
    }
}

/// The filters of a join carry consecutive ids from `next`, one per filter
/// that the join gets.
proof fn lemma_join_filter_ids(join: PlanModel, build: u32, probe: u32, next: int)
    requires
        0 <= next,
        next + join_filter_count(join) <= u32::MAX,
    ensures
        join_filters(join, build, probe, next).len() == join_filter_count(join),
        forall|i: int|
            0 <= i < join_filters(join, build, probe, next).len() ==> (#[trigger] join_filters(
                join,
                build,
                probe,
                next,
            )[i]).filter_id == next + i,
{
    match join {
        PlanModel::HashJoin { right, join_type, join_predicates, .. } => {
            if join_type == JoinType::Inner || join_type == JoinType::Left {
                let rows = node_stats(*right).0;
                lemma_filters_count(join_predicates, rows, build, probe, next);
                lemma_filter_ids_consecutive(join_predicates, rows, build, probe, next);
            }
        },
        _ => {},
    }
}

/// The kind of every runtime filter generated for a hash join follows the
/// estimated rows of its build (right) side: an IN list only below 1000
/// rows, a Bloom filter expecting that many rows from 1000 up to a million,
/// a min-max filter from a million rows on.
pub proof fn lemma_filter_kind_follows_build_rows(join: PlanModel, build: u32, probe: u32, next: int)
    requires
        join is HashJoin,
    ensures
        forall|i: int|
            0 <= i < join_filters(join, build, probe, next).len() ==> kind_suits_rows(
                node_stats(*join->right).0,
                (#[trigger] join_filters(join, build, probe, next)[i]).filter_type,
            ),
{
    match join {
        PlanModel::HashJoin { right, join_type, join_predicates, .. } => {
            let rows = node_stats(*right).0;
            lemma_node_stats_bounds(*right);
            lemma_filters_suit_rows(join_predicates, rows, build, probe, next);
        },
        _ => {},
    }
}

/// An equi-join predicate `l = r` on columns adds one filter after those of
/// the predicates before it: probed on the probe side's column `l`, built
/// from the build side's column `r` (the column an IN-list or min-max
/// filter holds), sent from the build fragment to the probe fragment.
pub proof fn lemma_equi_join_predicate_filter(
    preds: Seq<ExprModel>,
    p: ExprModel,
    l: Seq<char>,
    r: Seq<char>,
    rows: int,
    build: u32,
    probe: u32,
    next: int,
)
    requires
        join_columns(p) == Some((l, r)),
    ensures
        ({
            let before = filters_for(preds, rows, build, probe, next);
            let after = filters_for(preds.push(p), rows, build, probe, next);
            &&& after.len() == before.len() + 1
            &&& after.drop_last() == before
            &&& after.last().join_column == l
            &&& after.last().build_fragment_id == build
            &&& after.last().probe_fragment_ids == seq![probe]
            &&& after.last().filter_type matches FilterTypeModel::InList { column, .. } ==> column == r
            &&& after.last().filter_type matches FilterTypeModel::MinMax { column } ==> column == r
        }),
{
    assert(preds.push(p).drop_last() =~= preds);
}

/// The number of filters that a sequence of joins gets.
pub open spec fn joins_filter_count(joins: Seq<(PlanModel, u32, u32)>) -> nat
    decreases joins.len(),
{
    if joins.len() == 0 {
        0
    } else {
        joins_filter_count(joins.drop_last()) + join_filter_count(joins.last().0)
    }
}

/// The filters that one builder, its counter at `next`, generates for a
/// sequence of joins (each with its build and probe fragments), call after
/// call: each call's filters (see `join_filters`) start where the previous
/// call's ended.
pub open spec fn filters_of_joins(joins: Seq<(PlanModel, u32, u32)>, next: int) -> Seq<
    RuntimeFilterModel,
>
    decreases joins.len(),
{
    if joins.len() == 0 {
        Seq::empty()
    } else {
        let front = joins.drop_last();
        let (join, build, probe) = joins.last();
        filters_of_joins(front, next) + join_filters(join, build, probe, next + joins_filter_count(front))
    }
}

/// Filter ids over a sequence of calls from the counter at `next` run
/// `next`, `next + 1`, ... in order of creation.
proof fn lemma_joins_filter_ids(joins: Seq<(PlanModel, u32, u32)>, next: int)
    requires
        0 <= next,
        next + joins_filter_count(joins) <= u32::MAX,
    ensures
        filters_of_joins(joins, next).len() == joins_filter_count(joins),
        forall|i: int|
            0 <= i < filters_of_joins(joins, next).len() ==> (#[trigger] filters_of_joins(
                joins,
                next,
            )[i]).filter_id == next + i,
    decreases joins.len(),
{
    if joins.len() > 0 {
        let front = joins.drop_last();
        let (join, build, probe) = joins.last();
        lemma_joins_filter_ids(front, next);
        lemma_join_filter_ids(join, build, probe, next + joins_filter_count(front));
        let a = filters_of_joins(front, next);
        let b = join_filters(join, build, probe, next + joins_filter_count(front));
        assert forall|i: int| 0 <= i < (a + b).len() implies (#[trigger] (a + b)[i]).filter_id == next + i by {
            if i >= a.len() {
                assert((a + b)[i] == b[i - a.len()]);
            }
        }
    }
}

/// A builder made by `new` (or `default`) numbers the filters of any
/// sequence of `generate_filters_for_join` calls 0, 1, 2, ... in order of
/// creation: no id is skipped or repeated.
pub proof fn lemma_fresh_builder_ids(joins: Seq<(PlanModel, u32, u32)>)
    requires
        joins_filter_count(joins) <= u32::MAX,
    ensures
        filters_of_joins(joins, 0).len() == joins_filter_count(joins),
        forall|i: int|
            0 <= i < filters_of_joins(joins, 0).len() ==> (#[trigger] filters_of_joins(joins, 0)[i]).filter_id
                == i,
{
    lemma_joins_filter_ids(joins, 0);
}

impl RuntimeFilterBuilder {
    pub fn new() -> (r: Self)
        ensures
            r.next_id() == 0,
    {
        RuntimeFilterBuilder { next_filter_id: 0 }
    }

    /// The id that the next filter will get.
    pub closed spec fn next_id(&self) -> u32 {
        self.next_filter_id
    }

    fn next_filter_id(&mut self) -> (r: u32)
        requires
            old(self).next_id() < u32::MAX,
        ensures
            r == old(self).next_id(),
            final(self).next_id() == old(self).next_id() + 1,
    {
        let id = self.next_filter_id;
        self.next_filter_id = self.next_filter_id + 1;
        id
    }

    /// The column an expression reads, seen through casts.
    pub fn extract_column_name(expr: &Expr) -> (r: Option<String>)
        ensures
            match r {
                Some(s) => column_of(expr@) == Some(s@),
                None => column_of(expr@) is None,
            },
        decreases expr,
    {
        match expr {
            Expr::Column { name, .. } => Some(name.clone()),
            Expr::Cast { expr, .. } => Self::extract_column_name(expr),
            _ => None,
        }
    }

    /// The (probe, build) column names of an equi-join predicate.
    pub fn extract_join_columns(predicate: &Expr) -> (r: Option<(String, String)>)
        ensures
            match r {
                Some((l, rc)) => join_columns(predicate@) == Some((l@, rc@)),
                None => join_columns(predicate@) is None,
            },
    {
        match predicate {
            Expr::BinaryOp { op, left, right } => {
                if *op != BinaryOperator::Eq {
                    return None;
                }
                let left_col = Self::extract_column_name(left);
                let right_col = Self::extract_column_name(right);
                match (left_col, right_col) {
                    (Some(l), Some(r)) => Some((l, r)),
                    _ => None,
                }
            },
            _ => None,
        }
    }
}

/// The name of the marker function that applies a filter in a scan.
pub open spec fn filter_function_name(f: RuntimeFilterModel) -> Seq<char> {
    match f.filter_type {
        FilterTypeModel::BloomFilter { .. } => "runtime_bloom_filter_"@ + nat_digits(
            f.filter_id as nat,
        ),
        FilterTypeModel::MinMax { .. } => "runtime_minmax_filter_"@ + nat_digits(f.filter_id as nat),
        FilterTypeModel::InList { max_values, .. } => "runtime_in_filter_"@ + nat_digits(
            f.filter_id as nat,
        ) + "_max_"@ + nat_digits(max_values as nat),
    }
}

/// The predicate that applies a filter: a call of its marker function on
/// the join column.
pub open spec fn filter_predicate(f: RuntimeFilterModel) -> ExprModel {
    ExprModel::Function {
        name: filter_function_name(f),
        args: seq![ExprModel::Column { name: f.join_column, data_type: DataType::Int }],
    }
}

impl RuntimeFilterBuilder {
    /// Generates the runtime filters of a join (see `join_filters`), with
    /// consecutive ids from this builder's counter.
    pub fn generate_filters_for_join(
        &mut self,
        join_node: &PlanNode,
        build_fragment_id: u32,
        probe_fragment_id: u32,
    ) -> (r: Vec<RuntimeFilter>)
        requires
            old(self).next_id() + join_filter_count(join_node@) <= u32::MAX,
        ensures
            filters_model(r@) == join_filters(
                join_node@,
                build_fragment_id,
                probe_fragment_id,
                old(self).next_id() as int,
            ),
            final(self).next_id() == old(self).next_id() + join_filter_count(join_node@),
    {
        match join_node {
            PlanNode::HashJoin { right, join_type, join_predicates, .. } => {
                // Only generate filters for inner and left outer joins
                let supported = match join_type {
                    JoinType::Inner => true,
                    JoinType::Left => true,
                    _ => false,
                };
                if !supported {
                    let none: Vec<RuntimeFilter> = Vec::new();
                    assert(filters_model(none@) =~= Seq::empty());
                    return none;
                }
                let ghost preds = exprs_model(join_predicates@);
                let ghost rows = node_stats(right@).0;
                let ghost next0 = self.next_id() as int;
                proof {
                    lemma_exprs_model_len(join_predicates@);
                    lemma_filters_count(preds, rows, build_fragment_id, probe_fragment_id, next0);
                }
                let mut filters: Vec<RuntimeFilter> = Vec::new();
                let mut i: usize = 0;
                while i < join_predicates.len()
                    invariant
                        i <= join_predicates@.len(),
                        preds == exprs_model(join_predicates@),
                        preds.len() == join_predicates@.len(),
                        rows == node_stats(right@).0,
                        next0 + join_column_count(preds) <= u32::MAX,
                        filters_model(filters@) == filters_for(
                            preds.subrange(0, i as int),
                            rows,
                            build_fragment_id,
                            probe_fragment_id,
                            next0,
                        ),
                        self.next_id() == next0 + filters@.len(),
                    decreases join_predicates@.len() - i,
                {
                    let ghost prefix = preds.subrange(0, i + 1);
                    proof {
                        assert(prefix.drop_last() =~= preds.subrange(0, i as int));
                        lemma_exprs_model_index(join_predicates@, i as int);
                        lemma_filters_count(prefix, rows, build_fragment_id, probe_fragment_id, next0);
                        lemma_filters_count(
                            preds.subrange(0, i as int),
                            rows,
                            build_fragment_id,
                            probe_fragment_id,
                            next0,
                        );
                        lemma_count_prefix(preds, i as int + 1);
                    }
                    match Self::extract_join_columns(&join_predicates[i]) {
                        Some((left_col, right_col)) => {
                            // Estimate build side cardinality
                            let build_stats = estimate_node_statistics(right);
                            let filter_type = if build_stats.row_count < 1000 {
                                // Small build side -> IN list filter
                                RuntimeFilterType::InList { column: right_col, max_values: 1000 }
                            } else if build_stats.row_count < 1_000_000 {
                                // Medium build side -> Bloom filter
                                RuntimeFilterType::BloomFilter {
                                    expected_elements: build_stats.row_count,
                                    false_positive_rate_ppm: 10_000,
                                }
                            } else {
                                // Large build side -> Min-max filter
                                RuntimeFilterType::MinMax { column: right_col }
                            };
                            let filter = RuntimeFilter {
                                filter_id: self.next_filter_id(),
                                filter_type,
                                build_fragment_id,
                                probe_fragment_ids: vec![probe_fragment_id],
                                join_column: left_col,
                            };
                            let ghost before = filters@;
                            filters.push(filter);
                            assert(filters_model(filters@) =~= filters_model(before).push(filter_model(filter)));
                            assert(filter.probe_fragment_ids@ =~= seq![probe_fragment_id]);
                        },
                        None => {},
                    }
                    i = i + 1;
                }
                assert(preds.subrange(0, preds.len() as int) =~= preds);
                filters
            },
            _ => {
                let none: Vec<RuntimeFilter> = Vec::new();
                assert(filters_model(none@) =~= Seq::empty());
                none
            },
        }
    }

    /// Applies a runtime filter to a scan: the scan gets the filter's
    /// predicate (`filter_predicate`) after its own; any other node is
    /// returned unchanged.
    pub fn apply_filter_to_scan(scan: &PlanNode, runtime_filter: &RuntimeFilter) -> (r: PlanNode)
        ensures
            match scan@ {
                PlanModel::OlapScan { table_name, columns, predicates, tablet_ids } => r@
                    == PlanModel::OlapScan {
                    table_name,
                    columns,
                    predicates: predicates.push(filter_predicate(runtime_filter@)),
                    tablet_ids,
                },
                _ => r@ == scan@,
            },
    {
        match scan {
            PlanNode::OlapScan { table_name, columns, predicates, tablet_ids } => {
                let mut new_predicates = copy_exprs(predicates);
                let mut name = String::new();
                match &runtime_filter.filter_type {
                    // Bloom filter check (represented as a function call)
                    RuntimeFilterType::BloomFilter { .. } => {
                        push_str(&mut name, "runtime_bloom_filter_");
                        push_u64_digits(&mut name, runtime_filter.filter_id as u64);
                    },
                    // Min-max filter applied by the storage layer (marker predicate)
                    RuntimeFilterType::MinMax { .. } => {
                        push_str(&mut name, "runtime_minmax_filter_");
                        push_u64_digits(&mut name, runtime_filter.filter_id as u64);
                    },
                    // IN list filter
                    RuntimeFilterType::InList { max_values, .. } => {
                        push_str(&mut name, "runtime_in_filter_");
                        push_u64_digits(&mut name, runtime_filter.filter_id as u64);
                        push_str(&mut name, "_max_");
                        push_u64_digits(&mut name, *max_values as u64);
                    },
                }
                assert(name@ =~= filter_function_name(runtime_filter@));
                let column = Expr::Column {
                    name: runtime_filter.join_column.clone(),
                    data_type: DataType::Int,
                };
                let mut args: Vec<Expr> = Vec::new();
                args.push(column);
                proof {
                    lemma_exprs_model_push(Seq::empty(), column);
                    assert(args@ =~= Seq::<Expr>::empty().push(column));
                }
                let filter_predicate = Expr::Function { name, args };
                let ghost before = new_predicates@;
                new_predicates.push(filter_predicate);
                proof {
                    lemma_exprs_model_push(before, filter_predicate);
                }
                PlanNode::OlapScan {
                    table_name: table_name.clone(),
                    columns: copy_strings(columns),
                    predicates: new_predicates,
                    tablet_ids: copy_i64s(tablet_ids),
                }
            },
            _ => scan.deep_copy(),
        }
    }
}

/// The count of a prefix is at most the count of the whole.
proof fn lemma_count_prefix(preds: Seq<ExprModel>, k: int)
    requires
        0 <= k <= preds.len(),
    ensures
        join_column_count(preds.subrange(0, k)) <= join_column_count(preds),
    decreases preds.len() - k,
{
    if k < preds.len() {
        lemma_count_prefix(preds, k + 1);
        assert(preds.subrange(0, k + 1).drop_last() =~= preds.subrange(0, k));
    } else {
        assert(preds.subrange(0, k) =~= preds);
    }
}

impl Default for RuntimeFilterBuilder {
    fn default() -> (r: Self)
        ensures
            r.next_id() == 0,
    {
        Self::new()
    }
}

} // verus!
