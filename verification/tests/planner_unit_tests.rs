//! Planner components and sessions on the cases their own modules check.

use rust_fe::bucket_shuffle::{BucketInfo, BucketShuffleOptimizer, BucketType};
use rust_fe::cost_model::{JoinCostModel, JoinSide, JoinStrategy, TableStatistics};
use rust_fe::fragment_executor::FragmentExecutor;
use rust_fe::fragment_splitter::{recommend_partition_strategy, FragmentSplitter};
use rust_fe::partition_pruner::{PartitionMetadata, PartitionPruner, PartitionValues, TablePartitionType};
use rust_fe::plan_fragment::{
    BinaryOperator, DataType, Expr, JoinType, LiteralValue, PartitionType, PlanNode,
};
use rust_fe::query::{ProtocolType, SessionCtx, SqlMode};
use rust_fe::runtime_filters::RuntimeFilterBuilder;
use uuid::Uuid;

#[test]
fn test_broadcast_eligibility() {
    let small_table = TableStatistics::estimated(1000, 100);
    assert!(small_table.is_broadcast_eligible(1_000_000));
    assert_eq!(small_table.total_bytes, 100_000);

    let large_table = TableStatistics::estimated(1_000_000, 200);
    assert!(!large_table.is_broadcast_eligible(1_000_000));
}

#[test]
fn test_join_strategy_selection() {
    let cost_model = JoinCostModel::new(10);

    // Small right side -> broadcast
    let left = TableStatistics::estimated(1_000_000, 200);
    let right = TableStatistics::estimated(100, 100);
    let strategy = cost_model.choose_join_strategy(&left, &right, 10_000_000);
    assert_eq!(
        strategy,
        JoinStrategy::Broadcast {
            broadcast_side: JoinSide::Right
        }
    );

    // Small left side -> broadcast left
    let left = TableStatistics::estimated(100, 100);
    let right = TableStatistics::estimated(1_000_000, 200);
    let strategy = cost_model.choose_join_strategy(&left, &right, 10_000_000);
    assert_eq!(
        strategy,
        JoinStrategy::Broadcast {
            broadcast_side: JoinSide::Left
        }
    );

    // Both large -> shuffle
    let left = TableStatistics::estimated(10_000_000, 200);
    let right = TableStatistics::estimated(10_000_000, 200);
    let strategy = cost_model.choose_join_strategy(&left, &right, 1_000_000);
    assert!(matches!(strategy, JoinStrategy::Shuffle { .. }));
}

#[test]
fn test_can_colocate() {
    let left = BucketInfo {
        table_name: "table1".to_string(),
        bucket_column: "id".to_string(),
        num_buckets: 16,
        bucket_type: BucketType::Hash,
    };

    let right = BucketInfo {
        table_name: "table2".to_string(),
        bucket_column: "id".to_string(),
        num_buckets: 16,
        bucket_type: BucketType::Hash,
    };

    assert!(BucketShuffleOptimizer::can_colocate(&left, &right));

    let right_different = BucketInfo {
        table_name: "table2".to_string(),
        bucket_column: "id".to_string(),
        num_buckets: 32,
        bucket_type: BucketType::Hash,
    };

    assert!(!BucketShuffleOptimizer::can_colocate(&left, &right_different));
}

#[test]
fn test_optimal_bucket_count() {
    assert_eq!(BucketShuffleOptimizer::optimal_bucket_count(8, 10, 2), 32);
    assert_eq!(BucketShuffleOptimizer::optimal_bucket_count(32, 10, 2), 32);
    assert_eq!(BucketShuffleOptimizer::optimal_bucket_count(64, 10, 2), 64);
}

#[test]
fn test_join_on_bucket_columns() {
    let left_info = BucketInfo {
        table_name: "t1".to_string(),
        bucket_column: "id".to_string(),
        num_buckets: 16,
        bucket_type: BucketType::Hash,
    };

    let right_info = BucketInfo {
        table_name: "t2".to_string(),
        bucket_column: "user_id".to_string(),
        num_buckets: 16,
        bucket_type: BucketType::Hash,
    };

    let predicates = vec![Expr::BinaryOp {
        op: BinaryOperator::Eq,
        left: Box::new(Expr::Column {
            name: "t1.id".to_string(),
            data_type: DataType::Int,
        }),
        right: Box::new(Expr::Column {
            name: "t2.user_id".to_string(),
            data_type: DataType::Int,
        }),
    }];

    assert!(BucketShuffleOptimizer::join_on_bucket_columns(
        &predicates,
        &left_info,
        &right_info
    ));
}

#[test]
fn test_range_partition_pruning() {
    let partitions = vec![
        PartitionMetadata {
            partition_id: 1,
            partition_name: "p1".to_string(),
            partition_type: TablePartitionType::Range,
            partition_values: PartitionValues::Range {
                min: "2024-01-01".to_string(),
                max: "2024-02-01".to_string(),
            },
        },
        PartitionMetadata {
            partition_id: 2,
            partition_name: "p2".to_string(),
            partition_type: TablePartitionType::Range,
            partition_values: PartitionValues::Range {
                min: "2024-02-01".to_string(),
                max: "2024-03-01".to_string(),
            },
        },
        PartitionMetadata {
            partition_id: 3,
            partition_name: "p3".to_string(),
            partition_type: TablePartitionType::Range,
            partition_values: PartitionValues::Range {
                min: "2024-03-01".to_string(),
                max: "2024-04-01".to_string(),
            },
        },
    ];

    // Predicate: date >= '2024-02-15'
    let predicates = vec![Expr::BinaryOp {
        op: BinaryOperator::GtEq,
        left: Box::new(Expr::Column {
            name: "date".to_string(),
            data_type: DataType::Date,
        }),
        right: Box::new(Expr::Literal {
            value: LiteralValue::String("2024-02-15".to_string()),
            data_type: DataType::Date,
        }),
    }];

    let result = PartitionPruner::prune_partitions(&partitions, &predicates, "date");

    // Should retain p2 and p3, prune p1
    assert_eq!(result.retained_partitions.len(), 2);
    assert_eq!(result.pruned_partitions.len(), 1);
    assert!(result.retained_partitions.contains(&2));
    assert!(result.retained_partitions.contains(&3));
    assert!(result.pruned_partitions.contains(&1));
}

#[test]
fn partition_pruner_test_list_partition_pruning() {
    let partitions = vec![
        PartitionMetadata {
            partition_id: 1,
            partition_name: "p_us".to_string(),
            partition_type: TablePartitionType::List,
            partition_values: PartitionValues::List {
                values: vec!["US".to_string(), "CA".to_string()],
            },
        },
        PartitionMetadata {
            partition_id: 2,
            partition_name: "p_eu".to_string(),
            partition_type: TablePartitionType::List,
            partition_values: PartitionValues::List {
                values: vec!["UK".to_string(), "DE".to_string()],
            },
        },
    ];

    // Predicate: country = 'US'
    let predicates = vec![Expr::BinaryOp {
        op: BinaryOperator::Eq,
        left: Box::new(Expr::Column {
            name: "country".to_string(),
            data_type: DataType::String,
        }),
        right: Box::new(Expr::Literal {
            value: LiteralValue::String("US".to_string()),
            data_type: DataType::String,
        }),
    }];

    let result = PartitionPruner::prune_partitions(&partitions, &predicates, "country");

    // Should retain only p_us
    assert_eq!(result.retained_partitions.len(), 1);
    assert_eq!(result.pruned_partitions.len(), 1);
    assert!(result.retained_partitions.contains(&1));
    assert!(result.pruned_partitions.contains(&2));
}

#[test]
fn test_extract_join_columns() {
    let predicate = Expr::BinaryOp {
        op: BinaryOperator::Eq,
        left: Box::new(Expr::Column {
            name: "t1.id".to_string(),
            data_type: DataType::Int,
        }),
        right: Box::new(Expr::Column {
            name: "t2.id".to_string(),
            data_type: DataType::Int,
        }),
    };

    let result = RuntimeFilterBuilder::extract_join_columns(&predicate);
    assert_eq!(result, Some(("t1.id".to_string(), "t2.id".to_string())));
}

#[test]
fn test_generate_filters_for_join() {
    let mut builder = RuntimeFilterBuilder::new();

    let join_node = PlanNode::HashJoin {
        left: Box::new(PlanNode::OlapScan {
            table_name: "fact_table".to_string(),
            columns: vec![],
            predicates: vec![],
            tablet_ids: vec![],
        }),
        right: Box::new(PlanNode::OlapScan {
            table_name: "dim_small".to_string(),
            columns: vec![],
            predicates: vec![],
            tablet_ids: vec![],
        }),
        join_type: JoinType::Inner,
        join_predicates: vec![Expr::BinaryOp {
            op: BinaryOperator::Eq,
            left: Box::new(Expr::Column {
                name: "fact_id".to_string(),
                data_type: DataType::Int,
            }),
            right: Box::new(Expr::Column {
                name: "dim_id".to_string(),
                data_type: DataType::Int,
            }),
        }],
    };

    let filters = builder.generate_filters_for_join(&join_node, 1, 2);
    assert!(!filters.is_empty());
    assert_eq!(filters[0].build_fragment_id, 1);
    assert!(filters[0].probe_fragment_ids.contains(&2));
}

#[test]
fn test_fragment_splitter_creation() {
    let query_id = Uuid::new_v4();
    let splitter = FragmentSplitter::new(query_id);
    assert_eq!(splitter.upcoming_fragment_id(), 0);
}

#[test]
fn test_recommend_partition_for_scan() {
    let scan = PlanNode::OlapScan {
        table_name: "test".to_string(),
        columns: vec![],
        predicates: vec![],
        tablet_ids: vec![],
    };

    let partition_info = recommend_partition_strategy(&scan);
    assert!(partition_info.is_some());
    assert!(matches!(
        partition_info.unwrap().partition_type,
        PartitionType::Random
    ));
}

#[test]
fn test_fragment_executor_creation() {
    let query_id = Uuid::new_v4();
    let executor = FragmentExecutor::new(query_id);
    assert_eq!(executor.get_query_id(), query_id);
}

#[test]
fn session_ctx_defaults_are_sane() {
    let session = SessionCtx::new();
    assert_eq!(session.database, None);
    assert_eq!(session.user, "root");
    assert_eq!(session.sql_mode, SqlMode::Default);
    assert_eq!(session.protocol, ProtocolType::Mysql);
}
