//! Partition pruning: the predicates of a query decide which partitions of
//! a table can hold matching rows; the others are not scanned.
//!
//! A predicate takes part when it references the partition column. Values
//! are compared as strings, in lexicographic order.

use vstd::prelude::*;
use crate::plan_fragment::{
    copy_exprs, copy_i64s, copy_strings, exprs_model, strings_model, lemma_exprs_model_index,
    lemma_exprs_model_len, BinaryOperator, Expr, ExprModel, LiteralModel, LiteralValue, PlanModel,
    PlanNode,
};
use crate::text::{
    int_text, lemma_lex_lt_transitive, lemma_lex_total, lex_lt, push_i64_text,
    str_eq, str_lt,
};

verus! {

/// Partition information for a table.
#[derive(Debug, Clone)]
pub struct PartitionMetadata {
    pub partition_id: i64,
    pub partition_name: String,
    pub partition_type: TablePartitionType,
    pub partition_values: PartitionValues,
}

#[derive(Debug, Clone, Copy, PartialEq, Eq, Structural)]
pub enum TablePartitionType {
    Range,
    List,
    Hash,
}

#[derive(Debug, Clone)]
pub enum PartitionValues {
    /// Range partition: values from `min` (inclusive) to `max` (exclusive)
    Range { min: String, max: String },
    /// List partition: specific values
    List { values: Vec<String> },
    /// Hash partition: bucket id
    Hash { bucket_id: u32 },
}

/// Partition pruning result: the partitions kept and the partitions pruned.
#[derive(Debug, Clone)]
pub struct PruningResult {
    pub retained_partitions: Vec<i64>,
    pub pruned_partitions: Vec<i64>,
}

impl PruningResult {
    pub fn new(retained: Vec<i64>, pruned: Vec<i64>) -> (r: Self)
        ensures
            r.retained_partitions == retained,
            r.pruned_partitions == pruned,
    {
        PruningResult { retained_partitions: retained, pruned_partitions: pruned }
    }
}

/// Partition pruner.
pub struct PartitionPruner;

/// The value of a literal as compared with partition bounds: strings,
/// dates and 32- or 64-bit integers (in decimal); no other literal.
pub open spec fn literal_key(e: ExprModel) -> Option<Seq<char>> {
    match e {
        ExprModel::Literal { value, .. } => match value {
            LiteralModel::Text(s) => Some(s),
            LiteralModel::Int32(i) => Some(int_text(i as int)),
            LiteralModel::Int64(i) => Some(int_text(i as int)),
            LiteralModel::Date(d) => Some(d),
            LiteralModel::DateTime(d) => Some(d),
            _ => None,
        },
        _ => None,
    }
}

/// The expression mentions the column.
pub open spec fn mentions_column(e: ExprModel, column: Seq<char>) -> bool
    decreases e,
{
    match e {
        ExprModel::Column { name, .. } => name == column,
        ExprModel::BinaryOp { left, right, .. } => mentions_column(*left, column)
            || mentions_column(*right, column),
        ExprModel::UnaryOp { expr, .. } => mentions_column(*expr, column),
        ExprModel::Cast { expr, .. } => mentions_column(*expr, column),
        ExprModel::Function { args, .. } => any_mentions_column(args, column),
        _ => false,
    }
}

pub open spec fn any_mentions_column(s: Seq<ExprModel>, column: Seq<char>) -> bool
    decreases s,
{
    if s.len() == 0 {
        false
    } else {
        any_mentions_column(s.drop_last(), column) || mentions_column(s.last(), column)
    }
}

/// A range partition `[min, max)` may satisfy the predicate: a comparison
/// `col op value` with a literal value rules out the partition when no
/// value of the range compares so.
pub open spec fn range_allows(min: Seq<char>, max: Seq<char>, p: ExprModel) -> bool {
    match p {
        ExprModel::BinaryOp { op, right, .. } => match literal_key(*right) {
            Some(v) => match op {
                BinaryOperator::Lt => lex_lt(min, v),
                BinaryOperator::LtEq => !lex_lt(v, min),
                BinaryOperator::Gt => lex_lt(v, max),
                BinaryOperator::GtEq => !lex_lt(max, v),
                BinaryOperator::Eq => !lex_lt(v, min) && lex_lt(v, max),
                _ => true,
            },
            None => true,
        },
        _ => true,
    }
}

/// A list partition may satisfy the predicate: `col = value` needs the
/// value in the list, `col != value` needs a list other than that value alone.
pub open spec fn list_allows(values: Seq<Seq<char>>, p: ExprModel) -> bool {
    match p {
        ExprModel::BinaryOp { op, right, .. } => match literal_key(*right) {
            Some(v) => match op {
                BinaryOperator::Eq => values.contains(v),
                BinaryOperator::NotEq => !(values.len() == 1 && values[0] == v),
                _ => true,
            },
            None => true,
        },
        _ => true,
    }
}

/// The partition is kept: every predicate on the partition column allows
/// it (hash partitions are always kept).
pub open spec fn keeps_partition(p: PartitionMetadata, preds: Seq<ExprModel>, column: Seq<char>) -> bool {
    match p.partition_values {
        PartitionValues::Range { min, max } => forall|i: int|
            0 <= i < preds.len() && mentions_column(#[trigger] preds[i], column) ==> range_allows(
                min@,
                max@,
                preds[i],
            ),
        PartitionValues::List { values } => forall|i: int|
            0 <= i < preds.len() && mentions_column(#[trigger] preds[i], column) ==> list_allows(
                strings_model(values@),
                preds[i],
            ),
        PartitionValues::Hash { .. } => true,
    }
}

/// The ids of the partitions kept (`keep == true`) or pruned, in order.
pub open spec fn partition_ids_where(
    parts: Seq<PartitionMetadata>,
    preds: Seq<ExprModel>,
    column: Seq<char>,
    keep: bool,
) -> Seq<i64>
    decreases parts.len(),
{
    if parts.len() == 0 {
        Seq::empty()
    } else {
        let rest = partition_ids_where(parts.drop_last(), preds, column, keep);
        if keeps_partition(parts.last(), preds, column) == keep {
            rest.push(parts.last().partition_id)
        } else {
            rest
        }
    }
}

/// The tablets of the given partitions: three per partition, numbered
/// `id * 100`, `id * 100 + 1` and `id * 100 + 2`.
pub open spec fn tablets_of(ids: Seq<i64>) -> Seq<i64>
    decreases ids.len(),
{
    if ids.len() == 0 {
        Seq::empty()
    } else {
        let id = ids.last();
        tablets_of(ids.drop_last()) + seq![
            (id * 100) as i64,
            (id * 100 + 1) as i64,
            (id * 100 + 2) as i64,
        ]
    }
}

/// The tablet numbers of the partition fit in an `i64`.
pub open spec fn tablet_ids_fit(id: i64) -> bool {
    i64::MIN <= id * 100 && id * 100 + 2 <= i64::MAX
}

/// The tablet ids of every kept partition fit in an `i64`.
pub open spec fn retained_tablets_fit(parts: Seq<PartitionMetadata>, preds: Seq<ExprModel>, column: Seq<char>) -> bool {
    forall|k: int|
        0 <= k < partition_ids_where(parts, preds, column, true).len() ==> tablet_ids_fit(
            #[trigger] partition_ids_where(parts, preds, column, true)[k],
        )
}

/// Every partition is either kept or pruned: the kept and pruned ids
/// together number the partitions.
pub proof fn lemma_pruning_splits_partitions(
    parts: Seq<PartitionMetadata>,
    preds: Seq<ExprModel>,
    column: Seq<char>,
)
    ensures
        partition_ids_where(parts, preds, column, true).len() + partition_ids_where(
            parts,
            preds,
            column,
            false,
        ).len() == parts.len(),
        partition_ids_where(parts, preds, column, true).to_multiset().add(
            partition_ids_where(parts, preds, column, false).to_multiset(),
        ) =~= parts.map_values(|p: PartitionMetadata| p.partition_id).to_multiset(),
    decreases parts.len(),
{
    broadcast use vstd::seq_lib::group_to_multiset_ensures;

    if parts.len() > 0 {
        lemma_pruning_splits_partitions(parts.drop_last(), preds, column);
        assert(parts.map_values(|p: PartitionMetadata| p.partition_id) =~= parts.drop_last().map_values(
            |p: PartitionMetadata| p.partition_id,
        ).push(parts.last().partition_id));
    }
}

/// More predicates never keep more partitions: a partition kept under
/// `preds + more` is kept under `preds`.
pub proof fn lemma_more_predicates_keep_less(
    p: PartitionMetadata,
    preds: Seq<ExprModel>,
    more: Seq<ExprModel>,
    column: Seq<char>,
)
    requires
        keeps_partition(p, preds + more, column),
    ensures
        keeps_partition(p, preds, column),
{
    match p.partition_values {
        PartitionValues::Range { min, max } => {
            assert forall|i: int|
                0 <= i < preds.len() && mentions_column(#[trigger] preds[i], column) implies range_allows(
                min@,
                max@,
                preds[i],
            ) by {
                assert((preds + more)[i] == preds[i]);
            }
        },
        PartitionValues::List { values } => {
            assert forall|i: int|
                0 <= i < preds.len() && mentions_column(#[trigger] preds[i], column) implies list_allows(
                strings_model(values@),
                preds[i],
            ) by {
                assert((preds + more)[i] == preds[i]);
            }
        },
        PartitionValues::Hash { .. } => {},
    }
}

/// The kept (or pruned) ids are ids of the given partitions.
pub proof fn lemma_ids_of_partitions(
    parts: Seq<PartitionMetadata>,
    preds: Seq<ExprModel>,
    column: Seq<char>,
    keep: bool,
)
    ensures
        forall|k: int|
            0 <= k < partition_ids_where(parts, preds, column, keep).len() ==> exists|i: int|
                0 <= i < parts.len() && #[trigger] partition_ids_where(parts, preds, column, keep)[k]
                    == parts[i].partition_id,
    decreases parts.len(),
{
    if parts.len() > 0 {
        lemma_ids_of_partitions(parts.drop_last(), preds, column, keep);
        let rest = partition_ids_where(parts.drop_last(), preds, column, keep);
        let all = partition_ids_where(parts, preds, column, keep);
        assert forall|k: int| 0 <= k < all.len() implies exists|i: int|
            0 <= i < parts.len() && #[trigger] all[k] == parts[i].partition_id by {
            if k < rest.len() {
                let i = choose|i: int|
                    0 <= i < parts.drop_last().len() && #[trigger] rest[k]
                        == parts.drop_last()[i].partition_id;
                assert(parts.drop_last()[i] == parts[i]);
            } else {
                assert(all[k] == parts[parts.len() - 1].partition_id);
            }
        }
    }
}

/// When no predicate mentions the partition column, every partition is
/// kept, in order, and none is pruned (so too without predicates).
pub proof fn lemma_unmentioned_column_keeps_all(
    parts: Seq<PartitionMetadata>,
    preds: Seq<ExprModel>,
    column: Seq<char>,
)
    requires
        forall|i: int| 0 <= i < preds.len() ==> !mentions_column(#[trigger] preds[i], column),
    ensures
        partition_ids_where(parts, preds, column, true) == parts.map_values(
            |p: PartitionMetadata| p.partition_id,
        ),
        partition_ids_where(parts, preds, column, false) == Seq::<i64>::empty(),
    decreases parts.len(),
{
    if parts.len() > 0 {
        lemma_unmentioned_column_keeps_all(parts.drop_last(), preds, column);
        assert(keeps_partition(parts.last(), preds, column));
        assert(parts.map_values(|p: PartitionMetadata| p.partition_id) =~= parts.drop_last().map_values(
            |p: PartitionMetadata| p.partition_id,
        ).push(parts.last().partition_id));
    }
}

/// A hash partition is always kept, whatever the predicates.
pub proof fn lemma_hash_partitions_kept(
    parts: Seq<PartitionMetadata>,
    preds: Seq<ExprModel>,
    column: Seq<char>,
)
    ensures
        forall|i: int|
            0 <= i < parts.len() && (#[trigger] parts[i]).partition_values is Hash ==> partition_ids_where(
                parts,
                preds,
                column,
                true,
            ).contains(parts[i].partition_id),
    decreases parts.len(),
{
    broadcast use vstd::seq_lib::lemma_seq_contains_after_push;

    if parts.len() > 0 {
        lemma_hash_partitions_kept(parts.drop_last(), preds, column);
        assert forall|i: int|
            0 <= i < parts.len() && (#[trigger] parts[i]).partition_values is Hash implies partition_ids_where(
            parts,
            preds,
            column,
            true,
        ).contains(parts[i].partition_id) by {
            if i < parts.len() - 1 {
                assert(parts.drop_last()[i] == parts[i]);
            }
        }
    }
}

/// Adding predicates never retains more: every partition kept under
/// `preds + more` is kept under `preds`, and every partition pruned under
/// `preds` is pruned under `preds + more`.
pub proof fn lemma_more_predicates_retain_subset(
    parts: Seq<PartitionMetadata>,
    preds: Seq<ExprModel>,
    more: Seq<ExprModel>,
    column: Seq<char>,
)
    ensures
        forall|id: i64|
            #[trigger] partition_ids_where(parts, preds + more, column, true).contains(id)
                ==> partition_ids_where(parts, preds, column, true).contains(id),
        forall|id: i64|
            #[trigger] partition_ids_where(parts, preds, column, false).contains(id)
                ==> partition_ids_where(parts, preds + more, column, false).contains(id),
    decreases parts.len(),
{
    broadcast use vstd::seq_lib::lemma_seq_contains_after_push;

    if parts.len() > 0 {
        let front = parts.drop_last();
        let last = parts.last();
        lemma_more_predicates_retain_subset(front, preds, more, column);
        if keeps_partition(last, preds + more, column) {
            lemma_more_predicates_keep_less(last, preds, more, column);
        }
        let kept_more = partition_ids_where(front, preds + more, column, true);
        let kept = partition_ids_where(front, preds, column, true);
        let pruned_more = partition_ids_where(front, preds + more, column, false);
        let pruned = partition_ids_where(front, preds, column, false);
        assert forall|id: i64|
            #[trigger] partition_ids_where(parts, preds + more, column, true).contains(id) implies partition_ids_where(
            parts,
            preds,
            column,
            true,
        ).contains(id) by {
            if kept_more.contains(id) {
                assert(kept.contains(id));
            }
        }
        assert forall|id: i64|
            #[trigger] partition_ids_where(parts, preds, column, false).contains(id) implies partition_ids_where(
            parts,
            preds + more,
            column,
            false,
        ).contains(id) by {
            if pruned.contains(id) {
                assert(pruned_more.contains(id));
            }
        }
    }
}

/// `x op v` holds of column value `x`, strings compared in lexicographic
/// order; an operator that is not a comparison holds of every value.
pub open spec fn compares(x: Seq<char>, op: BinaryOperator, v: Seq<char>) -> bool {
    match op {
        BinaryOperator::Lt => lex_lt(x, v),
        BinaryOperator::LtEq => !lex_lt(v, x),
        BinaryOperator::Gt => lex_lt(v, x),
        BinaryOperator::GtEq => !lex_lt(x, v),
        BinaryOperator::Eq => x == v,
        BinaryOperator::NotEq => x != v,
        _ => true,
    }
}

/// Column value `x` satisfies the predicate `column op literal`; a predicate
/// of another shape is not read as a constraint.
pub open spec fn value_satisfies(x: Seq<char>, p: ExprModel) -> bool {
    match p {
        ExprModel::BinaryOp { op, right, .. } => match literal_key(*right) {
            Some(v) => compares(x, op, v),
            None => true,
        },
        _ => true,
    }
}

/// The partition may hold column value `x`: a range `[min, max)` holds the
/// values from `min` up to but not including `max`, a list its values, a
/// hash partition any value.
pub open spec fn holds_value(p: PartitionMetadata, x: Seq<char>) -> bool {
    match p.partition_values {
        PartitionValues::Range { min, max } => !lex_lt(x, min@) && lex_lt(x, max@),
        PartitionValues::List { values } => strings_model(values@).contains(x),
        PartitionValues::Hash { .. } => true,
    }
}

/// Column value `x` satisfies every predicate on the column.
pub open spec fn satisfies_all(x: Seq<char>, preds: Seq<ExprModel>, column: Seq<char>) -> bool {
    forall|i: int| 0 <= i < preds.len() && mentions_column(#[trigger] preds[i], column) ==> value_satisfies(x, preds[i])
}

/// `a <= b` gives `a == b` or `a < b`.
proof fn lemma_lex_le(a: Seq<char>, b: Seq<char>)
    requires
        !lex_lt(b, a),
    ensures
        a == b || lex_lt(a, b),
{
    if a != b {
        lemma_lex_total(a, b);
    }
}

/// A range that holds a value satisfying a predicate is allowed by it.
proof fn lemma_range_allows_sound(min: Seq<char>, max: Seq<char>, x: Seq<char>, p: ExprModel)
    requires
        !lex_lt(x, min),
        lex_lt(x, max),
        value_satisfies(x, p),
    ensures
        range_allows(min, max, p),
{
    lemma_lex_le(min, x);
    match p {
        ExprModel::BinaryOp { op, right, .. } => match literal_key(*right) {
            Some(v) => match op {
                BinaryOperator::Lt => {
                    if min != x {
                        lemma_lex_lt_transitive(min, x, v);
                    }
                },
                BinaryOperator::LtEq => {
                    if lex_lt(v, min) {
                        if min != x {
                            lemma_lex_lt_transitive(v, min, x);
                        }
                    }
                },
                BinaryOperator::Gt => {
                    lemma_lex_lt_transitive(v, x, max);
                },
                BinaryOperator::GtEq => {
                    if lex_lt(max, v) {
                        lemma_lex_lt_transitive(x, max, v);
                    }
                },
                BinaryOperator::Eq => {},
                _ => {},
            },
            None => {},
        },
        _ => {},
    }
}

/// A list holding a value satisfying a predicate is allowed by it.
proof fn lemma_list_allows_sound(values: Seq<Seq<char>>, x: Seq<char>, p: ExprModel)
    requires
        values.contains(x),
        value_satisfies(x, p),
    ensures
        list_allows(values, p),
{
}

/// Pruning is sound: a partition that may hold a value satisfying every
/// predicate on the partition column is kept.
pub proof fn lemma_partition_with_satisfying_value_kept(
    p: PartitionMetadata,
    preds: Seq<ExprModel>,
    column: Seq<char>,
    x: Seq<char>,
)
    requires
        holds_value(p, x),
        satisfies_all(x, preds, column),
    ensures
        keeps_partition(p, preds, column),
{
    match p.partition_values {
        PartitionValues::Range { min, max } => {
            assert forall|i: int|
                0 <= i < preds.len() && mentions_column(#[trigger] preds[i], column) implies range_allows(
                min@,
                max@,
                preds[i],
            ) by {
                lemma_range_allows_sound(min@, max@, x, preds[i]);
            }
        },
        PartitionValues::List { values } => {
            assert forall|i: int|
                0 <= i < preds.len() && mentions_column(#[trigger] preds[i], column) implies list_allows(
                strings_model(values@),
                preds[i],
            ) by {
                lemma_list_allows_sound(strings_model(values@), x, preds[i]);
            }
        },
        PartitionValues::Hash { .. } => {},
    }
}

/// Every kept partition's id is among the retained ids.
proof fn lemma_kept_ids_retained(parts: Seq<PartitionMetadata>, preds: Seq<ExprModel>, column: Seq<char>)
    ensures
        forall|i: int|
            0 <= i < parts.len() && keeps_partition(#[trigger] parts[i], preds, column)
                ==> partition_ids_where(parts, preds, column, true).contains(parts[i].partition_id),
    decreases parts.len(),
{
    broadcast use vstd::seq_lib::lemma_seq_contains_after_push;

    if parts.len() > 0 {
        lemma_kept_ids_retained(parts.drop_last(), preds, column);
        assert forall|i: int|
            0 <= i < parts.len() && keeps_partition(#[trigger] parts[i], preds, column)
                implies partition_ids_where(parts, preds, column, true).contains(parts[i].partition_id) by {
            if i < parts.len() - 1 {
                assert(parts.drop_last()[i] == parts[i]);
            }
        }
    }
}

/// `prune_partitions` never prunes a partition that may hold a value
/// satisfying every predicate on the partition column: its id is retained.
pub proof fn lemma_satisfiable_partitions_retained(
    parts: Seq<PartitionMetadata>,
    preds: Seq<ExprModel>,
    column: Seq<char>,
    i: int,
    x: Seq<char>,
)
    requires
        0 <= i < parts.len(),
        holds_value(parts[i], x),
        satisfies_all(x, preds, column),
    ensures
        partition_ids_where(parts, preds, column, true).contains(parts[i].partition_id),
{
    lemma_partition_with_satisfying_value_kept(parts[i], preds, column, x);
    lemma_kept_ids_retained(parts, preds, column);
}

impl PartitionPruner {
    /// Prunes partitions based on query predicates: a partition is kept
    /// when it may hold rows satisfying every predicate on the partition
    /// column (`keeps_partition`); the order of the partitions is kept.
    pub fn prune_partitions(
        partitions: &[PartitionMetadata],
        predicates: &[Expr],
        partition_column: &str,
    ) -> (r: PruningResult)
        ensures
            r.retained_partitions@ == partition_ids_where(
                partitions@,
                exprs_model(predicates@),
                partition_column@,
                true,
            ),
            r.pruned_partitions@ == partition_ids_where(
                partitions@,
                exprs_model(predicates@),
                partition_column@,
                false,
            ),
    {
        let ghost preds = exprs_model(predicates@);
        proof {
            lemma_exprs_model_len(predicates@);
        }
        if partitions.len() == 0 || predicates.len() == 0 {
            let mut all: Vec<i64> = Vec::new();
            let mut i: usize = 0;
            while i < partitions.len()
                invariant
                    i <= partitions@.len(),
                    all@ == partitions@.subrange(0, i as int).map_values(
                        |p: PartitionMetadata| p.partition_id,
                    ),
                decreases partitions@.len() - i,
            {
                all.push(partitions[i].partition_id);
                assert(all@ =~= partitions@.subrange(0, i + 1).map_values(
                    |p: PartitionMetadata| p.partition_id,
                ));
                i = i + 1;
            }
            proof {
                assert(partitions@.subrange(0, partitions@.len() as int) =~= partitions@);
                if partitions@.len() == 0 {
                    assert(partition_ids_where(partitions@, preds, partition_column@, true)
                        =~= Seq::empty());
                    assert(partition_ids_where(partitions@, preds, partition_column@, false)
                        =~= Seq::empty());
                    assert(all@ =~= Seq::empty());
                } else {
                    assert(preds =~= Seq::empty());
                    lemma_unmentioned_column_keeps_all(partitions@, preds, partition_column@);
                }
            }
            return PruningResult::new(all, Vec::new());
        }
        let mut retained: Vec<i64> = Vec::new();
        let mut pruned: Vec<i64> = Vec::new();
        let mut i: usize = 0;
        while i < partitions.len()
            invariant
                i <= partitions@.len(),
                preds == exprs_model(predicates@),
                retained@ == partition_ids_where(
                    partitions@.subrange(0, i as int),
                    preds,
                    partition_column@,
                    true,
                ),
                pruned@ == partition_ids_where(
                    partitions@.subrange(0, i as int),
                    preds,
                    partition_column@,
                    false,
                ),
            decreases partitions@.len() - i,
        {
            let ghost prefix = partitions@.subrange(0, i + 1);
            assert(prefix.drop_last() =~= partitions@.subrange(0, i as int));
            if Self::can_satisfy_predicates(&partitions[i], predicates, partition_column) {
                retained.push(partitions[i].partition_id);
            } else {
                pruned.push(partitions[i].partition_id);
            }
            i = i + 1;
        }
        assert(partitions@.subrange(0, partitions@.len() as int) =~= partitions@);
        PruningResult::new(retained, pruned)
    }

    /// Applies partition pruning to an OLAP scan: the scan keeps its table,
    /// columns and predicates and reads the tablets of the retained
    /// partitions (`tablets_of`). Any other node is returned unchanged, with
    /// nothing retained or pruned.
    pub fn apply_to_scan(
        scan: &PlanNode,
        partitions: &[PartitionMetadata],
        partition_column: &str,
    ) -> (r: (PlanNode, PruningResult))
        requires
            scan@ matches PlanModel::OlapScan { predicates, .. } ==> retained_tablets_fit(
                partitions@,
                predicates,
                partition_column@,
            ),
        ensures
            match scan@ {
                PlanModel::OlapScan { table_name, columns, predicates, .. } => {
                    &&& r.1.retained_partitions@ == partition_ids_where(
                        partitions@,
                        predicates,
                        partition_column@,
                        true,
                    )
                    &&& r.1.pruned_partitions@ == partition_ids_where(
                        partitions@,
                        predicates,
                        partition_column@,
                        false,
                    )
                    &&& r.0@ == PlanModel::OlapScan {
                        table_name,
                        columns,
                        predicates,
                        tablet_ids: tablets_of(r.1.retained_partitions@),
                    }
                },
                _ => r.0@ == scan@ && r.1.retained_partitions@.len() == 0
                    && r.1.pruned_partitions@.len() == 0,
            },
    {
        match scan {
            PlanNode::OlapScan { table_name, columns, predicates, .. } => {
                let pruning_result = Self::prune_partitions(
                    partitions,
                    predicates.as_slice(),
                    partition_column,
                );
                let ghost retained = pruning_result.retained_partitions@;
                // Each partition has three tablets
                let mut tablet_ids: Vec<i64> = Vec::new();
                let mut i: usize = 0;
                while i < pruning_result.retained_partitions.len()
                    invariant
                        i <= retained.len(),
                        retained == pruning_result.retained_partitions@,
                        forall|k: int| 0 <= k < retained.len() ==> tablet_ids_fit(#[trigger] retained[k]),
                        tablet_ids@ == tablets_of(retained.subrange(0, i as int)),
                    decreases retained.len() - i,
                {
                    let pid = pruning_result.retained_partitions[i];
                    assert(tablet_ids_fit(retained[i as int]));
                    tablet_ids.push(pid * 100);
                    tablet_ids.push(pid * 100 + 1);
                    tablet_ids.push(pid * 100 + 2);
                    assert(retained.subrange(0, i + 1).drop_last() =~= retained.subrange(0, i as int));
                    assert(tablet_ids@ =~= tablets_of(retained.subrange(0, i + 1)));
                    i = i + 1;
                }
                assert(retained.subrange(0, retained.len() as int) =~= retained);
                let new_scan = PlanNode::OlapScan {
                    table_name: table_name.clone(),
                    columns: copy_strings(columns),
                    predicates: copy_exprs(predicates),
                    tablet_ids,
                };
                (new_scan, pruning_result)
            },
            _ => (scan.deep_copy(), PruningResult::new(Vec::new(), Vec::new())),
        }
    }

    /// The partition may hold rows satisfying the predicates on the column.
    fn can_satisfy_predicates(
        partition: &PartitionMetadata,
        predicates: &[Expr],
        partition_column: &str,
    ) -> (r: bool)
        ensures
            r == keeps_partition(*partition, exprs_model(predicates@), partition_column@),
    {
        proof {
            lemma_exprs_model_len(predicates@);
        }
        match &partition.partition_values {
            PartitionValues::Range { min, max } => {
                let r = Self::check_range_predicates(
                    min.as_str(),
                    max.as_str(),
                    predicates,
                    partition_column,
                );
                assert(r == keeps_partition(*partition, exprs_model(predicates@), partition_column@));
                r
            },
            PartitionValues::List { values } => {
                let r = Self::check_list_predicates(values, predicates, partition_column);
                assert(r == keeps_partition(*partition, exprs_model(predicates@), partition_column@));
                r
            },
            // Hash partitions cannot be pruned based on values
            PartitionValues::Hash { .. } => true,
        }
    }

    /// Every predicate on the column allows the range `[min, max)`.
    fn check_range_predicates(min: &str, max: &str, predicates: &[Expr], column: &str) -> (r: bool)
        ensures
            r == forall|i: int|
                0 <= i < predicates@.len() && mentions_column(
                    #[trigger] exprs_model(predicates@)[i],
                    column@,
                ) ==> range_allows(min@, max@, exprs_model(predicates@)[i]),
    {
        proof {
            lemma_exprs_model_len(predicates@);
        }
        let mut i: usize = 0;
        while i < predicates.len()
            invariant
                i <= predicates@.len(),
                forall|j: int|
                    0 <= j < i && mentions_column(#[trigger] exprs_model(predicates@)[j], column@)
                        ==> range_allows(min@, max@, exprs_model(predicates@)[j]),
            decreases predicates@.len() - i,
        {
            proof {
                lemma_exprs_model_index(predicates@, i as int);
            }
            if Self::references_column(&predicates[i], column) && !Self::range_allows_predicate(
                min,
                max,
                &predicates[i],
            ) {
                // The partition cannot satisfy this predicate: prune
                return false;
            }
            i = i + 1;
        }
        true
    }

    fn range_allows_predicate(min: &str, max: &str, predicate: &Expr) -> (r: bool)
        ensures
            r == range_allows(min@, max@, predicate@),
    {
        match predicate {
            Expr::BinaryOp { op, right, .. } => {
                match Self::extract_literal(right) {
                    Some(value) => {
                        let v = value.as_str();
                        match op {
                            // col < value: keep if min < value
                            BinaryOperator::Lt => str_lt(min, v),
                            // col <= value: keep if min <= value
                            BinaryOperator::LtEq => !str_lt(v, min),
                            // col > value: keep if max > value
                            BinaryOperator::Gt => str_lt(v, max),
                            // col >= value: keep if max >= value
                            BinaryOperator::GtEq => !str_lt(max, v),
                            // col = value: keep if min <= value < max
                            BinaryOperator::Eq => !str_lt(v, min) && str_lt(v, max),
                            _ => true,
                        }
                    },
                    None => true,
                }
            },
            _ => true,
        }
    }

    /// Every predicate on the column allows the list of values.
    fn check_list_predicates(values: &Vec<String>, predicates: &[Expr], column: &str) -> (r: bool)
        ensures
            r == forall|i: int|
                0 <= i < predicates@.len() && mentions_column(
                    #[trigger] exprs_model(predicates@)[i],
                    column@,
                ) ==> list_allows(
                    strings_model(values@),
                    exprs_model(predicates@)[i],
                ),
    {
        proof {
            lemma_exprs_model_len(predicates@);
        }
        let mut i: usize = 0;
        while i < predicates.len()
            invariant
                i <= predicates@.len(),
                forall|j: int|
                    0 <= j < i && mentions_column(#[trigger] exprs_model(predicates@)[j], column@)
                        ==> list_allows(
                        strings_model(values@),
                        exprs_model(predicates@)[j],
                    ),
            decreases predicates@.len() - i,
        {
            proof {
                lemma_exprs_model_index(predicates@, i as int);
            }
            if Self::references_column(&predicates[i], column) && !Self::list_allows_predicate(
                values,
                &predicates[i],
            ) {
                return false;
            }
            i = i + 1;
        }
        true
    }

    fn list_allows_predicate(values: &Vec<String>, predicate: &Expr) -> (r: bool)
        ensures
            r == list_allows(strings_model(values@), predicate@),
    {
        let ghost vals = strings_model(values@);
        match predicate {
            Expr::BinaryOp { op, right, .. } => {
                match Self::extract_literal(right) {
                    Some(value) => {
                        match op {
                            // col = value: keep if value in partition values
                            BinaryOperator::Eq => {
                                assert(literal_key(right@) == Some(value@));
                                assert(list_allows(vals, predicate@) == vals.contains(value@));
                                let mut i: usize = 0;
                                while i < values.len()
                                    invariant
                                        i <= values@.len(),
                                        vals == strings_model(values@),
                                        list_allows(vals, predicate@) == vals.contains(value@),
                                        forall|j: int| 0 <= j < i ==> vals[j] != value@,
                                    decreases values@.len() - i,
                                {
                                    if values[i] == value {
                                        assert(values@[i as int]@ == value@);
                                        assert(vals[i as int] == value@);
                                        assert(vals.contains(value@));
                                        return true;
                                    }
                                    i = i + 1;
                                }
                                false
                            },
                            // col != value: keep if partition has other values
                            BinaryOperator::NotEq => {
                                if values.len() == 1 && values[0] == value {
                                    false
                                } else {
                                    true
                                }
                            },
                            _ => true,
                        }
                    },
                    None => true,
                }
            },
            _ => true,
        }
    }

    /// The expression references the column.
    fn references_column(expr: &Expr, column_name: &str) -> (r: bool)
        ensures
            r == mentions_column(expr@, column_name@),
        decreases expr,
    {
        match expr {
            Expr::Column { name, .. } => str_eq(name.as_str(), column_name),
            Expr::BinaryOp { left, right, .. } => Self::references_column(left, column_name)
                || Self::references_column(right, column_name),
            Expr::UnaryOp { expr, .. } => Self::references_column(expr, column_name),
            Expr::Cast { expr, .. } => Self::references_column(expr, column_name),
            Expr::Function { args, .. } => Self::any_references_column(args, column_name),
            _ => false,
        }
    }

    /// Some expression of the list references the column.
    fn any_references_column(args: &Vec<Expr>, column_name: &str) -> (r: bool)
        ensures
            r == any_mentions_column(exprs_model(args@), column_name@),
        decreases args,
    {
        let mut i: usize = 0;
        let mut found = false;
        while i < args.len()
            invariant
                i <= args@.len(),
                found == any_mentions_column(exprs_model(args@.subrange(0, i as int)), column_name@),
            decreases args@.len() - i,
        {
            proof {
                crate::plan_fragment::lemma_exprs_model_push(
                    args@.subrange(0, i as int),
                    args@[i as int],
                );
                assert(args@.subrange(0, i as int).push(args@[i as int]) =~= args@.subrange(
                    0,
                    i + 1,
                ));
                assert(exprs_model(args@.subrange(0, i + 1)).drop_last() =~= exprs_model(
                    args@.subrange(0, i as int),
                ));
            }
            let hit = Self::references_column(&args[i], column_name);
            found = found || hit;
            i = i + 1;
        }
        assert(args@.subrange(0, args@.len() as int) =~= args@);
        found
    }

    /// The literal value compared with partition bounds (see `literal_key`).
    fn extract_literal(expr: &Expr) -> (r: Option<String>)
        ensures
            match r {
                Some(s) => literal_key(expr@) == Some(s@),
                None => literal_key(expr@) is None,
            },
    {
        match expr {
            Expr::Literal { value, .. } => match value {
                LiteralValue::String(s) => Some(s.clone()),
                LiteralValue::Int32(i) => {
                    let mut t = String::new();
                    push_i64_text(&mut t, *i as i64);
                    assert(t@ =~= int_text(*i as int));
                    Some(t)
                },
                LiteralValue::Int64(i) => {
                    let mut t = String::new();
                    push_i64_text(&mut t, *i);
                    assert(t@ =~= int_text(*i as int));
                    Some(t)
                },
                LiteralValue::Date(d) => Some(d.clone()),
                LiteralValue::DateTime(dt) => Some(dt.clone()),
                _ => None,
            },
            _ => None,
        }
    }
}

} // verus!
