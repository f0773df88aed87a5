//! The library's promises on concrete values: what splitting, pruning,
//! colocation, presets, queueing and filter generation keep.

use rust_fe::bucket_shuffle::{BucketInfo, BucketShuffleOptimizer, BucketType};
use rust_fe::error::DorisError;
use rust_fe::feature_flags::QueryFeatureFlags;
use rust_fe::fragment_executor::FragmentExecutor;
use rust_fe::fragment_splitter::FragmentSplitter;
use rust_fe::partition_pruner::{PartitionMetadata, PartitionPruner, PartitionValues, TablePartitionType};
use rust_fe::plan_fragment::{
    AggregateFunction, BinaryOperator, DataType, ExchangeType, Expr, JoinType, LiteralValue,
    PlanFragment, PlanNode, QueryPlan,
};
use rust_fe::query::queue::{QueryQueue, QueuedQuery};
use rust_fe::runtime_filters::RuntimeFilterBuilder;
use std::sync::Arc;
use uuid::Uuid;

fn scan(table: &str) -> PlanNode {
    PlanNode::OlapScan { table_name: table.to_string(), columns: vec![], predicates: vec![], tablet_ids: vec![] }
}

fn col(name: &str) -> Expr {
    Expr::Column { name: name.to_string(), data_type: DataType::Int }
}

fn eq(l: Expr, r: Expr) -> Expr {
    Expr::BinaryOp { op: BinaryOperator::Eq, left: Box::new(l), right: Box::new(r) }
}

fn text(s: &str) -> Expr {
    Expr::Literal { value: LiteralValue::String(s.to_string()), data_type: DataType::String }
}

fn collect_scans(node: &PlanNode, out: &mut Vec<String>) {
    match node {
        PlanNode::OlapScan { table_name, .. } => out.push(table_name.clone()),
        PlanNode::Select { child, .. }
        | PlanNode::Project { child, .. }
        | PlanNode::Aggregation { child, .. }
        | PlanNode::Sort { child, .. }
        | PlanNode::TopN { child, .. }
        | PlanNode::Exchange { child, .. } => collect_scans(child, out),
        PlanNode::HashJoin { left, right, .. } => {
            collect_scans(left, out);
            collect_scans(right, out);
        }
        PlanNode::Union { children } => {
            for c in children {
                collect_scans(c, out);
            }
        }
    }
}

fn join_plan() -> PlanNode {
    PlanNode::Aggregation {
        child: Box::new(PlanNode::HashJoin {
            left: Box::new(scan("orders")),
            right: Box::new(scan("customers")),
            join_type: JoinType::Inner,
            join_predicates: vec![eq(col("o_custkey"), col("c_custkey"))],
        }),
        group_by_exprs: vec![col("c_nation")],
        agg_functions: vec![AggregateFunction::Count { expr: None, distinct: false }],
        is_merge: false,
    }
}

#[test]
fn splitting_keeps_every_scanned_table() {
    let mut splitter = FragmentSplitter::with_feature_flags(
        Uuid::new_v4(),
        Arc::new(QueryFeatureFlags { cost_based_join_strategy: true, ..Default::default() }),
        4,
    );
    let fragments = splitter.split_into_fragments(PlanFragment::new(0, join_plan())).unwrap();
    assert!(fragments.len() > 1);
    let mut tables = Vec::new();
    for f in &fragments {
        collect_scans(&f.root_node, &mut tables);
    }
    tables.retain(|t| !t.starts_with("_exchange_"));
    tables.sort();
    assert_eq!(tables, vec!["customers".to_string(), "orders".to_string()]);
}

#[test]
fn fragment_ids_are_consecutive() {
    let mut splitter = FragmentSplitter::new(Uuid::new_v4());
    let first = splitter.split_into_fragments(PlanFragment::new(0, join_plan())).unwrap();
    for (i, f) in first.iter().enumerate() {
        assert_eq!(f.fragment_id as usize, i);
    }
    assert_eq!(splitter.upcoming_fragment_id() as usize, first.len());
    let second = splitter.split_into_fragments(PlanFragment::new(0, scan("lineitem"))).unwrap();
    assert_eq!(second.len(), 1);
    assert_eq!(second[0].fragment_id as usize, first.len());
}

fn list_partitions() -> Vec<PartitionMetadata> {
    vec![
        PartitionMetadata {
            partition_id: 10,
            partition_name: "p_na".to_string(),
            partition_type: TablePartitionType::List,
            partition_values: PartitionValues::List { values: vec!["US".to_string(), "CA".to_string()] },
        },
        PartitionMetadata {
            partition_id: 20,
            partition_name: "p_eu".to_string(),
            partition_type: TablePartitionType::List,
            partition_values: PartitionValues::List { values: vec!["UK".to_string(), "DE".to_string()] },
        },
        PartitionMetadata {
            partition_id: 30,
            partition_name: "p_rest".to_string(),
            partition_type: TablePartitionType::Range,
            partition_values: PartitionValues::Range { min: "A".to_string(), max: "M".to_string() },
        },
    ]
}

#[test]
fn pruning_splits_the_partitions() {
    let parts = list_partitions();
    let preds = vec![eq(col("country"), text("US"))];
    let result = PartitionPruner::prune_partitions(&parts, &preds, "country");
    let mut all: Vec<i64> = result.retained_partitions.clone();
    all.extend(result.pruned_partitions.iter());
    all.sort();
    assert_eq!(all, vec![10, 20, 30]);
    for id in &result.retained_partitions {
        assert!(!result.pruned_partitions.contains(id));
    }
}

#[test]
fn more_predicates_keep_fewer_partitions() {
    let parts = list_partitions();
    let one = vec![eq(col("country"), text("US"))];
    let two = vec![eq(col("country"), text("US")), eq(col("country"), text("DE"))];
    let r1 = PartitionPruner::prune_partitions(&parts, &one, "country");
    let r2 = PartitionPruner::prune_partitions(&parts, &two, "country");
    for id in &r2.retained_partitions {
        assert!(r1.retained_partitions.contains(id));
    }
    assert!(r2.retained_partitions.len() <= r1.retained_partitions.len());
}

#[test]
fn no_predicates_keep_every_partition() {
    let parts = list_partitions();
    let result = PartitionPruner::prune_partitions(&parts, &[], "country");
    assert_eq!(result.retained_partitions, vec![10, 20, 30]);
    assert!(result.pruned_partitions.is_empty());
}

#[test]
fn colocation_does_not_depend_on_the_side() {
    let a = BucketInfo {
        table_name: "t1".to_string(),
        bucket_column: "id".to_string(),
        num_buckets: 8,
        bucket_type: BucketType::Hash,
    };
    let b = BucketInfo {
        table_name: "t2".to_string(),
        bucket_column: "user_id".to_string(),
        num_buckets: 8,
        bucket_type: BucketType::Hash,
    };
    let preds = vec![eq(col("t1.id"), col("t2.user_id"))];
    assert_eq!(BucketShuffleOptimizer::can_colocate(&a, &b), BucketShuffleOptimizer::can_colocate(&b, &a));
    assert!(BucketShuffleOptimizer::join_on_bucket_columns(&preds, &a, &b));
    assert!(BucketShuffleOptimizer::join_on_bucket_columns(&preds, &b, &a));
    let random = BucketInfo { bucket_type: BucketType::Random, ..b.clone() };
    assert!(!BucketShuffleOptimizer::can_colocate(&a, &random));
    assert!(!BucketShuffleOptimizer::can_colocate(&random, &a));
}

#[test]
fn every_preset_keeps_parallel_execution() {
    for name in ["", "unknown", "arrow-format", "bucket-shuffle", "all-execution"] {
        let flags = QueryFeatureFlags::preset(name);
        assert!(flags.parallel_fragment_execution);
        assert_eq!(flags.broadcast_threshold_bytes, 10 * 1024 * 1024);
        assert_eq!(flags.max_fragment_parallelism, 16);
        assert_eq!(flags.arrow_result_parsing, name == "arrow-format");
    }
    assert_eq!(QueryFeatureFlags::preset("unknown"), QueryFeatureFlags::default());
}

fn queued(q: &str) -> QueuedQuery {
    QueuedQuery { query_id: Uuid::new_v4(), query: q.to_string(), database: None }
}

#[test]
fn queue_is_first_in_first_out_and_bounded() {
    let mut queue = QueryQueue::new(2, 4);
    assert!(queue.enqueue(queued("a")).is_ok());
    assert!(queue.enqueue(queued("b")).is_ok());
    assert!(matches!(queue.enqueue(queued("c")), Err(DorisError::QueueFull)));
    assert_eq!(queue.queue_size(), 2);
    assert_eq!(queue.dequeue().unwrap().query, "a");
    assert!(queue.enqueue(queued("d")).is_ok());
    assert_eq!(queue.dequeue().unwrap().query, "b");
    assert_eq!(queue.dequeue().unwrap().query, "d");
    assert!(queue.dequeue().is_none());
    assert_eq!(queue.max_concurrent(), 4);
    assert_eq!(queue.max_queue_size(), 2);
}

#[test]
fn queue_of_no_capacity_refuses_everything() {
    let mut queue = QueryQueue::new(0, 1);
    assert!(matches!(queue.enqueue(queued("a")), Err(DorisError::QueueFull)));
    assert_eq!(queue.queue_size(), 0);
}

#[test]
fn runtime_filter_ids_are_consecutive() {
    let mut builder = RuntimeFilterBuilder::new();
    let join = PlanNode::HashJoin {
        left: Box::new(scan("fact")),
        right: Box::new(scan("dim")),
        join_type: JoinType::Inner,
        join_predicates: vec![eq(col("a"), col("b")), eq(col("c"), col("d")), col("flag")],
    };
    let first = builder.generate_filters_for_join(&join, 1, 2);
    let second = builder.generate_filters_for_join(&join, 3, 4);
    let ids: Vec<u32> = first.iter().chain(second.iter()).map(|f| f.filter_id).collect();
    assert_eq!(ids, vec![0, 1, 2, 3]);
    assert_eq!(first[1].join_column, "c");
    assert_eq!(second[0].build_fragment_id, 3);

    let outer = PlanNode::HashJoin {
        left: Box::new(scan("fact")),
        right: Box::new(scan("dim")),
        join_type: JoinType::Full,
        join_predicates: vec![eq(col("a"), col("b"))],
    };
    assert!(builder.generate_filters_for_join(&outer, 1, 2).is_empty());

    let filtered = RuntimeFilterBuilder::apply_filter_to_scan(&scan("fact"), &first[0]);
    match filtered {
        PlanNode::OlapScan { predicates, .. } => assert_eq!(predicates.len(), 1),
        other => panic!("unexpected {:?}", other),
    }
}

#[test]
fn fragments_become_statements() {
    let executor = FragmentExecutor::new(Uuid::new_v4());
    let empty = QueryPlan::new(Uuid::new_v4());
    match executor.fragment_statements(&empty) {
        Err(DorisError::QueryExecution(m)) => assert_eq!(m, "Query plan has no fragments"),
        other => panic!("unexpected {:?}", other),
    }
    let mut plan = QueryPlan::new(Uuid::new_v4());
    plan.add_fragment(PlanFragment::new(0, scan("lineitem")));
    plan.add_fragment(PlanFragment::new(
        1,
        PlanNode::Exchange { child: Box::new(scan("orders")), exchange_type: ExchangeType::Gather },
    ));
    let sqls = executor.fragment_statements(&plan).unwrap();
    assert_eq!(sqls.len(), 2);
    assert_eq!(sqls[0], executor.fragment_to_sql(&plan.fragments[0]));
    assert_eq!(sqls[1], executor.fragment_to_sql(&plan.fragments[1]));
}

#[test]
fn hash_partitions_are_always_kept() {
    let mut parts = list_partitions();
    parts.push(PartitionMetadata {
        partition_id: 40,
        partition_name: "p_hash".to_string(),
        partition_type: TablePartitionType::Hash,
        partition_values: PartitionValues::Hash { bucket_id: 3 },
    });
    let preds = vec![eq(col("country"), text("ZZ"))];
    let result = PartitionPruner::prune_partitions(&parts, &preds, "country");
    assert!(result.retained_partitions.contains(&40));
    assert!(!result.pruned_partitions.contains(&40));
}

#[test]
fn predicates_on_other_columns_keep_every_partition() {
    let parts = list_partitions();
    let preds = vec![eq(col("city"), text("Paris")), eq(col("a"), col("b"))];
    let result = PartitionPruner::prune_partitions(&parts, &preds, "country");
    assert_eq!(result.retained_partitions, vec![10, 20, 30]);
    assert!(result.pruned_partitions.is_empty());
}

#[test]
fn scan_reads_the_tablets_of_kept_partitions_only() {
    let mut parts = list_partitions();
    parts.push(PartitionMetadata {
        partition_id: i64::MAX,
        partition_name: "p_far".to_string(),
        partition_type: TablePartitionType::List,
        partition_values: PartitionValues::List { values: vec!["JP".to_string()] },
    });
    let scan_node = PlanNode::OlapScan {
        table_name: "orders".to_string(),
        columns: vec!["country".to_string()],
        predicates: vec![eq(col("country"), text("US"))],
        tablet_ids: vec![],
    };
    let (scanned, result) = PartitionPruner::apply_to_scan(&scan_node, &parts, "country");
    assert_eq!(result.retained_partitions, vec![10]);
    assert_eq!(result.pruned_partitions, vec![20, 30, i64::MAX]);
    match scanned {
        PlanNode::OlapScan { table_name, tablet_ids, predicates, .. } => {
            assert_eq!(table_name, "orders");
            assert_eq!(predicates.len(), 1);
            assert_eq!(tablet_ids, vec![1000, 1001, 1002]);
        }
        other => panic!("unexpected {:?}", other),
    }
}
