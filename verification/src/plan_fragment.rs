//! Plan fragments: the distributed plan tree that is split into fragments
//! and sent to backends for execution.
//!
//! Every tree type has a mathematical model (its view), in which strings are
//! character sequences and vectors are sequences. Contracts elsewhere in the
//! crate speak of these models.

use vstd::prelude::*;

verus! {

/// Identifier of a query (an outside type carried through unchanged).
#[verifier::external_type_specification]
#[verifier::external_body]
pub struct ExUuid(uuid::Uuid);

/// `Uuid::clone`: `Uuid` derives `Clone` and `Copy`, so a clone is the same
/// identifier.
pub assume_specification[ <uuid::Uuid as Clone>::clone ](u: &uuid::Uuid) -> (r: uuid::Uuid)
    ensures
        r == *u,
;

/// Data types matching Doris types.
#[derive(Debug, Clone, Copy, PartialEq, Eq, Structural)]
pub enum DataType {
    Boolean,
    TinyInt,
    SmallInt,
    Int,
    BigInt,
    Float,
    Double,
    Decimal { precision: u8, scale: u8 },
    Char { length: u32 },
    Varchar { length: u32 },
    String,
    Date,
    DateTime,
    Timestamp,
}

/// Literal values. A floating-point literal is held as the decimal text of
/// the value (its standard rendering), which is all the planner reads of it.
#[derive(Debug, Clone, PartialEq)]
pub enum LiteralValue {
    Null,
    Boolean(bool),
    Int8(i8),
    Int16(i16),
    Int32(i32),
    Int64(i64),
    Float32(String),
    Float64(String),
    String(String),
    Date(String),
    DateTime(String),
}

/// Binary operators.
#[derive(Debug, Clone, Copy, PartialEq, Eq, Structural)]
pub enum BinaryOperator {
    Add,
    Subtract,
    Multiply,
    Divide,
    Modulo,
    Eq,
    NotEq,
    Lt,
    LtEq,
    Gt,
    GtEq,
    And,
    Or,
}

/// Unary operators.
#[derive(Debug, Clone, Copy, PartialEq, Eq, Structural)]
pub enum UnaryOperator {
    Not,
    Negate,
    IsNull,
    IsNotNull,
}

/// Expression types.
#[derive(Debug)]
pub enum Expr {
    Column { name: String, data_type: DataType },
    Literal { value: LiteralValue, data_type: DataType },
    BinaryOp { op: BinaryOperator, left: Box<Expr>, right: Box<Expr> },
    UnaryOp { op: UnaryOperator, expr: Box<Expr> },
    Cast { expr: Box<Expr>, target_type: DataType },
    Function { name: String, args: Vec<Expr> },
}

/// Aggregate functions.
#[derive(Debug)]
pub enum AggregateFunction {
    Count { expr: Option<Expr>, distinct: bool },
    Sum { expr: Expr, distinct: bool },
    Avg { expr: Expr, distinct: bool },
    Min { expr: Expr },
    Max { expr: Expr },
}

/// Join types.
#[derive(Debug, Clone, Copy, PartialEq, Eq, Structural)]
pub enum JoinType {
    Inner,
    Left,
    Right,
    Full,
    Semi,
    Anti,
}

/// How data is shuffled between fragments.
#[derive(Debug)]
pub enum ExchangeType {
    /// Broadcast to all nodes
    Broadcast,
    /// Hash partition by keys
    HashPartition { partition_keys: Vec<Expr> },
    /// Random distribution
    Random,
    /// Gather all data to a single node
    Gather,
}

/// Order by expression.
#[derive(Debug)]
pub struct OrderByExpr {
    pub expr: Expr,
    pub ascending: bool,
    pub nulls_first: bool,
}

/// Partition information for a fragment.
#[derive(Debug, Clone, PartialEq)]
pub struct PartitionInfo {
    pub partition_type: PartitionType,
    pub num_partitions: usize,
}

#[derive(Debug, Clone, PartialEq)]
pub enum PartitionType {
    Random,
    Hash { keys: Vec<String> },
    Range { keys: Vec<String> },
}

/// Node types in the Doris execution plan.
#[derive(Debug)]
pub enum PlanNode {
    /// Scan OLAP table (tablets)
    OlapScan {
        table_name: String,
        columns: Vec<String>,
        predicates: Vec<Expr>,
        tablet_ids: Vec<i64>,
    },
    /// Filter/Selection
    Select { child: Box<PlanNode>, predicates: Vec<Expr> },
    /// Projection
    Project { child: Box<PlanNode>, exprs: Vec<Expr> },
    /// Aggregation (`is_merge`: final merge rather than local aggregation)
    Aggregation {
        child: Box<PlanNode>,
        group_by_exprs: Vec<Expr>,
        agg_functions: Vec<AggregateFunction>,
        is_merge: bool,
    },
    /// Hash Join
    HashJoin {
        left: Box<PlanNode>,
        right: Box<PlanNode>,
        join_type: JoinType,
        join_predicates: Vec<Expr>,
    },
    /// Sort
    Sort { child: Box<PlanNode>, order_by: Vec<OrderByExpr>, limit: Option<usize> },
    /// TopN (combined sort + limit)
    TopN { child: Box<PlanNode>, order_by: Vec<OrderByExpr>, limit: usize, offset: usize },
    /// Exchange (data shuffle between fragments)
    Exchange { child: Box<PlanNode>, exchange_type: ExchangeType },
    /// Union
    Union { children: Vec<PlanNode> },
}

/// A single fragment of a query plan that can be executed independently.
#[derive(Debug)]
pub struct PlanFragment {
    pub fragment_id: u32,
    pub root_node: PlanNode,
    pub output_exprs: Vec<Expr>,
    pub partition_info: Option<PartitionInfo>,
}

/// A complete query plan split into fragments for distributed execution.
#[derive(Debug)]
pub struct QueryPlan {
    pub query_id: uuid::Uuid,
    pub fragments: Vec<PlanFragment>,
}

// ---------------------------------------------------------------------------
// Models
// ---------------------------------------------------------------------------

pub enum LiteralModel {
    Null,
    Boolean(bool),
    Int8(i8),
    Int16(i16),
    Int32(i32),
    Int64(i64),
    Float32(Seq<char>),
    Float64(Seq<char>),
    Text(Seq<char>),
    Date(Seq<char>),
    DateTime(Seq<char>),
}

pub enum ExprModel {
    Column { name: Seq<char>, data_type: DataType },
    Literal { value: LiteralModel, data_type: DataType },
    BinaryOp { op: BinaryOperator, left: Box<ExprModel>, right: Box<ExprModel> },
    UnaryOp { op: UnaryOperator, expr: Box<ExprModel> },
    Cast { expr: Box<ExprModel>, target_type: DataType },
    Function { name: Seq<char>, args: Seq<ExprModel> },
}

pub enum AggregateModel {
    Count { expr: Option<ExprModel>, distinct: bool },
    Sum { expr: ExprModel, distinct: bool },
    Avg { expr: ExprModel, distinct: bool },
    Min { expr: ExprModel },
    Max { expr: ExprModel },
}

pub struct OrderByModel {
    pub expr: ExprModel,
    pub ascending: bool,
    pub nulls_first: bool,
}

pub enum ExchangeModel {
    Broadcast,
    HashPartition { partition_keys: Seq<ExprModel> },
    Random,
    Gather,
}

pub enum PlanModel {
    OlapScan {
        table_name: Seq<char>,
        columns: Seq<Seq<char>>,
        predicates: Seq<ExprModel>,
        tablet_ids: Seq<i64>,
    },
    Select { child: Box<PlanModel>, predicates: Seq<ExprModel> },
    Project { child: Box<PlanModel>, exprs: Seq<ExprModel> },
    Aggregation {
        child: Box<PlanModel>,
        group_by_exprs: Seq<ExprModel>,
        agg_functions: Seq<AggregateModel>,
        is_merge: bool,
    },
    HashJoin {
        left: Box<PlanModel>,
        right: Box<PlanModel>,
        join_type: JoinType,
        join_predicates: Seq<ExprModel>,
    },
    Sort { child: Box<PlanModel>, order_by: Seq<OrderByModel>, limit: Option<usize> },
    TopN { child: Box<PlanModel>, order_by: Seq<OrderByModel>, limit: usize, offset: usize },
    Exchange { child: Box<PlanModel>, exchange_type: ExchangeModel },
    Union { children: Seq<PlanModel> },
}

pub enum PartitionTypeModel {
    Random,
    Hash { keys: Seq<Seq<char>> },
    Range { keys: Seq<Seq<char>> },
}

pub struct PartitionInfoModel {
    pub partition_type: PartitionTypeModel,
    pub num_partitions: usize,
}

pub struct FragmentModel {
    pub fragment_id: u32,
    pub root_node: PlanModel,
    pub output_exprs: Seq<ExprModel>,
    pub partition_info: Option<PartitionInfoModel>,
}

pub open spec fn strings_model(s: Seq<String>) -> Seq<Seq<char>> {
    s.map_values(|x: String| x@)
}

pub open spec fn literal_model(v: LiteralValue) -> LiteralModel {
    match v {
        LiteralValue::Null => LiteralModel::Null,
        LiteralValue::Boolean(b) => LiteralModel::Boolean(b),
        LiteralValue::Int8(i) => LiteralModel::Int8(i),
        LiteralValue::Int16(i) => LiteralModel::Int16(i),
        LiteralValue::Int32(i) => LiteralModel::Int32(i),
        LiteralValue::Int64(i) => LiteralModel::Int64(i),
        LiteralValue::Float32(s) => LiteralModel::Float32(s@),
        LiteralValue::Float64(s) => LiteralModel::Float64(s@),
        LiteralValue::String(s) => LiteralModel::Text(s@),
        LiteralValue::Date(s) => LiteralModel::Date(s@),
        LiteralValue::DateTime(s) => LiteralModel::DateTime(s@),
    }
}

pub open spec fn expr_model(e: Expr) -> ExprModel
    decreases e,
{
    match e {
        Expr::Column { name, data_type } => ExprModel::Column { name: name@, data_type },
        Expr::Literal { value, data_type } => ExprModel::Literal {
            value: literal_model(value),
            data_type,
        },
        Expr::BinaryOp { op, left, right } => ExprModel::BinaryOp {
            op,
            left: Box::new(expr_model(*left)),
            right: Box::new(expr_model(*right)),
        },
        Expr::UnaryOp { op, expr } => ExprModel::UnaryOp { op, expr: Box::new(expr_model(*expr)) },
        Expr::Cast { expr, target_type } => ExprModel::Cast {
            expr: Box::new(expr_model(*expr)),
            target_type,
        },
        Expr::Function { name, args } => ExprModel::Function {
            name: name@,
            args: exprs_model(args@),
        },
    }
}

pub open spec fn exprs_model(s: Seq<Expr>) -> Seq<ExprModel>
    decreases s,
{
    if s.len() == 0 {
        Seq::empty()
    } else {
        exprs_model(s.drop_last()).push(expr_model(s.last()))
    }
}

pub open spec fn aggregate_model(a: AggregateFunction) -> AggregateModel {
    match a {
        AggregateFunction::Count { expr, distinct } => AggregateModel::Count {
            expr: match expr {
                Some(e) => Some(expr_model(e)),
                None => None,
            },
            distinct,
        },
        AggregateFunction::Sum { expr, distinct } => AggregateModel::Sum {
            expr: expr_model(expr),
            distinct,
        },
        AggregateFunction::Avg { expr, distinct } => AggregateModel::Avg {
            expr: expr_model(expr),
            distinct,
        },
        AggregateFunction::Min { expr } => AggregateModel::Min { expr: expr_model(expr) },
        AggregateFunction::Max { expr } => AggregateModel::Max { expr: expr_model(expr) },
    }
}

pub open spec fn aggregates_model(s: Seq<AggregateFunction>) -> Seq<AggregateModel> {
    s.map_values(|a: AggregateFunction| aggregate_model(a))
}

pub open spec fn order_by_model(o: OrderByExpr) -> OrderByModel {
    OrderByModel { expr: expr_model(o.expr), ascending: o.ascending, nulls_first: o.nulls_first }
}

pub open spec fn order_bys_model(s: Seq<OrderByExpr>) -> Seq<OrderByModel> {
    s.map_values(|o: OrderByExpr| order_by_model(o))
}

pub open spec fn exchange_model(x: ExchangeType) -> ExchangeModel {
    match x {
        ExchangeType::Broadcast => ExchangeModel::Broadcast,
        ExchangeType::HashPartition { partition_keys } => ExchangeModel::HashPartition {
            partition_keys: exprs_model(partition_keys@),
        },
        ExchangeType::Random => ExchangeModel::Random,
        ExchangeType::Gather => ExchangeModel::Gather,
    }
}

pub open spec fn plan_model(n: PlanNode) -> PlanModel
    decreases n,
{
    match n {
        PlanNode::OlapScan { table_name, columns, predicates, tablet_ids } => PlanModel::OlapScan {
            table_name: table_name@,
            columns: strings_model(columns@),
            predicates: exprs_model(predicates@),
            tablet_ids: tablet_ids@,
        },
        PlanNode::Select { child, predicates } => PlanModel::Select {
            child: Box::new(plan_model(*child)),
            predicates: exprs_model(predicates@),
        },
        PlanNode::Project { child, exprs } => PlanModel::Project {
            child: Box::new(plan_model(*child)),
            exprs: exprs_model(exprs@),
        },
        PlanNode::Aggregation { child, group_by_exprs, agg_functions, is_merge } =>
            PlanModel::Aggregation {
            child: Box::new(plan_model(*child)),
            group_by_exprs: exprs_model(group_by_exprs@),
            agg_functions: aggregates_model(agg_functions@),
            is_merge,
        },
        PlanNode::HashJoin { left, right, join_type, join_predicates } => PlanModel::HashJoin {
            left: Box::new(plan_model(*left)),
            right: Box::new(plan_model(*right)),
            join_type,
            join_predicates: exprs_model(join_predicates@),
        },
        PlanNode::Sort { child, order_by, limit } => PlanModel::Sort {
            child: Box::new(plan_model(*child)),
            order_by: order_bys_model(order_by@),
            limit,
        },
        PlanNode::TopN { child, order_by, limit, offset } => PlanModel::TopN {
            child: Box::new(plan_model(*child)),
            order_by: order_bys_model(order_by@),
            limit,
            offset,
        },
        PlanNode::Exchange { child, exchange_type } => PlanModel::Exchange {
            child: Box::new(plan_model(*child)),
            exchange_type: exchange_model(exchange_type),
        },
        PlanNode::Union { children } => PlanModel::Union { children: plans_model(children@) },
    }
}

pub open spec fn plans_model(s: Seq<PlanNode>) -> Seq<PlanModel>
    decreases s,
{
    if s.len() == 0 {
        Seq::empty()
    } else {
        plans_model(s.drop_last()).push(plan_model(s.last()))
    }
}

pub open spec fn partition_type_model(p: PartitionType) -> PartitionTypeModel {
    match p {
        PartitionType::Random => PartitionTypeModel::Random,
        PartitionType::Hash { keys } => PartitionTypeModel::Hash { keys: strings_model(keys@) },
        PartitionType::Range { keys } => PartitionTypeModel::Range { keys: strings_model(keys@) },
    }
}

pub open spec fn partition_info_model(p: PartitionInfo) -> PartitionInfoModel {
    PartitionInfoModel {
        partition_type: partition_type_model(p.partition_type),
        num_partitions: p.num_partitions,
    }
}

pub open spec fn fragment_model(f: PlanFragment) -> FragmentModel {
    FragmentModel {
        fragment_id: f.fragment_id,
        root_node: plan_model(f.root_node),
        output_exprs: exprs_model(f.output_exprs@),
        partition_info: match f.partition_info {
            Some(p) => Some(partition_info_model(p)),
            None => None,
        },
    }
}

pub open spec fn fragments_model(s: Seq<PlanFragment>) -> Seq<FragmentModel> {
    s.map_values(|f: PlanFragment| fragment_model(f))
}

impl View for LiteralValue {
    type V = LiteralModel;

    open spec fn view(&self) -> LiteralModel {
        literal_model(*self)
    }
}

impl View for Expr {
    type V = ExprModel;

    open spec fn view(&self) -> ExprModel {
        expr_model(*self)
    }
}

impl View for AggregateFunction {
    type V = AggregateModel;

    open spec fn view(&self) -> AggregateModel {
        aggregate_model(*self)
    }
}

impl View for OrderByExpr {
    type V = OrderByModel;

    open spec fn view(&self) -> OrderByModel {
        order_by_model(*self)
    }
}

impl View for ExchangeType {
    type V = ExchangeModel;

    open spec fn view(&self) -> ExchangeModel {
        exchange_model(*self)
    }
}

impl View for PlanNode {
    type V = PlanModel;

    open spec fn view(&self) -> PlanModel {
        plan_model(*self)
    }
}

impl View for PartitionInfo {
    type V = PartitionInfoModel;

    open spec fn view(&self) -> PartitionInfoModel {
        partition_info_model(*self)
    }
}

impl View for PlanFragment {
    type V = FragmentModel;

    open spec fn view(&self) -> FragmentModel {
        fragment_model(*self)
    }
}

pub broadcast proof fn lemma_exprs_model_len(s: Seq<Expr>)
    ensures
        #[trigger] exprs_model(s).len() == s.len(),
    decreases s.len(),
{
    if s.len() > 0 {
        lemma_exprs_model_len(s.drop_last());
    }
}

pub broadcast proof fn lemma_exprs_model_index(s: Seq<Expr>, i: int)
    requires
        0 <= i < s.len(),
    ensures
        #[trigger] exprs_model(s)[i] == expr_model(s[i]),
    decreases s.len(),
{
    lemma_exprs_model_len(s.drop_last());
    if i < s.len() - 1 {
        lemma_exprs_model_index(s.drop_last(), i);
    }
}

pub proof fn lemma_exprs_model_push(s: Seq<Expr>, e: Expr)
    ensures
        exprs_model(s.push(e)) == exprs_model(s).push(expr_model(e)),
{
    assert(s.push(e).drop_last() =~= s);
}

pub broadcast proof fn lemma_plans_model_len(s: Seq<PlanNode>)
    ensures
        #[trigger] plans_model(s).len() == s.len(),
    decreases s.len(),
{
    if s.len() > 0 {
        lemma_plans_model_len(s.drop_last());
    }
}

pub proof fn lemma_plans_model_push(s: Seq<PlanNode>, n: PlanNode)
    ensures
        plans_model(s.push(n)) == plans_model(s).push(plan_model(n)),
{
    assert(s.push(n).drop_last() =~= s);
}

// ---------------------------------------------------------------------------
// Copies with the same model
// ---------------------------------------------------------------------------

/// A copy of a list of strings.
pub fn copy_strings(v: &Vec<String>) -> (r: Vec<String>)
    ensures
        r@ == v@,
{
    let mut r: Vec<String> = Vec::new();
    let mut i: usize = 0;
    while i < v.len()
        invariant
            i <= v.len(),
            r@ == v@.subrange(0, i as int),
        decreases v.len() - i,
    {
        r.push(v[i].clone());
        assert(r@ =~= v@.subrange(0, i + 1));
        i = i + 1;
    }
    assert(r@ =~= v@);
    r
}

/// A copy of a list of integers.
pub fn copy_i64s(v: &Vec<i64>) -> (r: Vec<i64>)
    ensures
        r@ == v@,
{
    let mut r: Vec<i64> = Vec::new();
    let mut i: usize = 0;
    while i < v.len()
        invariant
            i <= v.len(),
            r@ == v@.subrange(0, i as int),
        decreases v.len() - i,
    {
        r.push(v[i]);
        assert(r@ =~= v@.subrange(0, i + 1));
        i = i + 1;
    }
    assert(r@ =~= v@);
    r
}

impl LiteralValue {
    pub fn deep_copy(&self) -> (r: LiteralValue)
        ensures
            r@ == self@,
    {
        match self {
            LiteralValue::Null => LiteralValue::Null,
            LiteralValue::Boolean(b) => LiteralValue::Boolean(*b),
            LiteralValue::Int8(i) => LiteralValue::Int8(*i),
            LiteralValue::Int16(i) => LiteralValue::Int16(*i),
            LiteralValue::Int32(i) => LiteralValue::Int32(*i),
            LiteralValue::Int64(i) => LiteralValue::Int64(*i),
            LiteralValue::Float32(s) => LiteralValue::Float32(s.clone()),
            LiteralValue::Float64(s) => LiteralValue::Float64(s.clone()),
            LiteralValue::String(s) => LiteralValue::String(s.clone()),
            LiteralValue::Date(s) => LiteralValue::Date(s.clone()),
            LiteralValue::DateTime(s) => LiteralValue::DateTime(s.clone()),
        }
    }
}

impl Expr {
    pub fn deep_copy(&self) -> (r: Expr)
        ensures
            r@ == self@,
        decreases self,
    {
        match self {
            Expr::Column { name, data_type } => Expr::Column {
                name: name.clone(),
                data_type: *data_type,
            },
            Expr::Literal { value, data_type } => Expr::Literal {
                value: value.deep_copy(),
                data_type: *data_type,
            },
            Expr::BinaryOp { op, left, right } => Expr::BinaryOp {
                op: *op,
                left: Box::new((**left).deep_copy()),
                right: Box::new((**right).deep_copy()),
            },
            Expr::UnaryOp { op, expr } => Expr::UnaryOp {
                op: *op,
                expr: Box::new((**expr).deep_copy()),
            },
            Expr::Cast { expr, target_type } => Expr::Cast {
                expr: Box::new((**expr).deep_copy()),
                target_type: *target_type,
            },
            Expr::Function { name, args } => Expr::Function {
                name: name.clone(),
                args: copy_exprs(args),
            },
        }
    }
}

/// A copy of a list of expressions.
pub fn copy_exprs(v: &Vec<Expr>) -> (r: Vec<Expr>)
    ensures
        exprs_model(r@) == exprs_model(v@),
    decreases v,
{
    let mut r: Vec<Expr> = Vec::new();
    let mut i: usize = 0;
    while i < v.len()
        invariant
            i <= v.len(),
            exprs_model(r@) == exprs_model(v@.subrange(0, i as int)),
        decreases v.len() - i,
    {
        let e = v[i].deep_copy();
        proof {
            lemma_exprs_model_push(r@, e);
            lemma_exprs_model_push(v@.subrange(0, i as int), v@[i as int]);
            assert(v@.subrange(0, i as int).push(v@[i as int]) =~= v@.subrange(0, i + 1));
        }
        r.push(e);
        i = i + 1;
    }
    assert(v@.subrange(0, v.len() as int) =~= v@);
    r
}

impl AggregateFunction {
    pub fn deep_copy(&self) -> (r: AggregateFunction)
        ensures
            r@ == self@,
    {
        match self {
            AggregateFunction::Count { expr, distinct } => AggregateFunction::Count {
                expr: match expr {
                    Some(e) => Some(e.deep_copy()),
                    None => None,
                },
                distinct: *distinct,
            },
            AggregateFunction::Sum { expr, distinct } => AggregateFunction::Sum {
                expr: expr.deep_copy(),
                distinct: *distinct,
            },
            AggregateFunction::Avg { expr, distinct } => AggregateFunction::Avg {
                expr: expr.deep_copy(),
                distinct: *distinct,
            },
            AggregateFunction::Min { expr } => AggregateFunction::Min { expr: expr.deep_copy() },
            AggregateFunction::Max { expr } => AggregateFunction::Max { expr: expr.deep_copy() },
        }
    }
}

/// A copy of a list of aggregate functions.
pub fn copy_aggregates(v: &Vec<AggregateFunction>) -> (r: Vec<AggregateFunction>)
    ensures
        aggregates_model(r@) == aggregates_model(v@),
{
    let mut r: Vec<AggregateFunction> = Vec::new();
    let mut i: usize = 0;
    while i < v.len()
        invariant
            i <= v.len(),
            r@.len() == i,
            forall|j: int| 0 <= j < i ==> #[trigger] aggregate_model(r@[j]) == aggregate_model(v@[j]),
        decreases v.len() - i,
    {
        let a = v[i].deep_copy();
        r.push(a);
        i = i + 1;
    }
    assert(aggregates_model(r@) =~= aggregates_model(v@));
    r
}

impl OrderByExpr {
    pub fn deep_copy(&self) -> (r: OrderByExpr)
        ensures
            r@ == self@,
    {
        OrderByExpr {
            expr: self.expr.deep_copy(),
            ascending: self.ascending,
            nulls_first: self.nulls_first,
        }
    }
}

/// A copy of a list of sort keys.
pub fn copy_order_bys(v: &Vec<OrderByExpr>) -> (r: Vec<OrderByExpr>)
    ensures
        order_bys_model(r@) == order_bys_model(v@),
{
    let mut r: Vec<OrderByExpr> = Vec::new();
    let mut i: usize = 0;
    while i < v.len()
        invariant
            i <= v.len(),
            r@.len() == i,
            forall|j: int| 0 <= j < i ==> #[trigger] order_by_model(r@[j]) == order_by_model(v@[j]),
        decreases v.len() - i,
    {
        let o = v[i].deep_copy();
        r.push(o);
        i = i + 1;
    }
    assert(order_bys_model(r@) =~= order_bys_model(v@));
    r
}

impl ExchangeType {
    pub fn deep_copy(&self) -> (r: ExchangeType)
        ensures
            r@ == self@,
    {
        match self {
            ExchangeType::Broadcast => ExchangeType::Broadcast,
            ExchangeType::HashPartition { partition_keys } => ExchangeType::HashPartition {
                partition_keys: copy_exprs(partition_keys),
            },
            ExchangeType::Random => ExchangeType::Random,
            ExchangeType::Gather => ExchangeType::Gather,
        }
    }
}

impl PlanNode {
    pub fn deep_copy(&self) -> (r: PlanNode)
        ensures
            r@ == self@,
        decreases self,
    {
        match self {
            PlanNode::OlapScan { table_name, columns, predicates, tablet_ids } =>
                PlanNode::OlapScan {
                table_name: table_name.clone(),
                columns: copy_strings(columns),
                predicates: copy_exprs(predicates),
                tablet_ids: copy_i64s(tablet_ids),
            },
            PlanNode::Select { child, predicates } => PlanNode::Select {
                child: Box::new((**child).deep_copy()),
                predicates: copy_exprs(predicates),
            },
            PlanNode::Project { child, exprs } => PlanNode::Project {
                child: Box::new((**child).deep_copy()),
                exprs: copy_exprs(exprs),
            },
            PlanNode::Aggregation { child, group_by_exprs, agg_functions, is_merge } =>
                PlanNode::Aggregation {
                child: Box::new((**child).deep_copy()),
                group_by_exprs: copy_exprs(group_by_exprs),
                agg_functions: copy_aggregates(agg_functions),
                is_merge: *is_merge,
            },
            PlanNode::HashJoin { left, right, join_type, join_predicates } => PlanNode::HashJoin {
                left: Box::new((**left).deep_copy()),
                right: Box::new((**right).deep_copy()),
                join_type: *join_type,
                join_predicates: copy_exprs(join_predicates),
            },
            PlanNode::Sort { child, order_by, limit } => PlanNode::Sort {
                child: Box::new((**child).deep_copy()),
                order_by: copy_order_bys(order_by),
                limit: *limit,
            },
            PlanNode::TopN { child, order_by, limit, offset } => PlanNode::TopN {
                child: Box::new((**child).deep_copy()),
                order_by: copy_order_bys(order_by),
                limit: *limit,
                offset: *offset,
            },
            PlanNode::Exchange { child, exchange_type } => PlanNode::Exchange {
                child: Box::new((**child).deep_copy()),
                exchange_type: exchange_type.deep_copy(),
            },
            PlanNode::Union { children } => PlanNode::Union { children: copy_plans(children) },
        }
    }
}

/// A copy of a list of plan nodes.
pub fn copy_plans(v: &Vec<PlanNode>) -> (r: Vec<PlanNode>)
    ensures
        plans_model(r@) == plans_model(v@),
    decreases v,
{
    let mut r: Vec<PlanNode> = Vec::new();
    let mut i: usize = 0;
    while i < v.len()
        invariant
            i <= v.len(),
            plans_model(r@) == plans_model(v@.subrange(0, i as int)),
        decreases v.len() - i,
    {
        let n = v[i].deep_copy();
        proof {
            lemma_plans_model_push(r@, n);
            lemma_plans_model_push(v@.subrange(0, i as int), v@[i as int]);
            assert(v@.subrange(0, i as int).push(v@[i as int]) =~= v@.subrange(0, i + 1));
        }
        r.push(n);
        i = i + 1;
    }
    assert(v@.subrange(0, v.len() as int) =~= v@);
    r
}

impl PlanFragment {
    /// A fragment with the given id and root, no output expressions and no
    /// partition information.
    pub fn new(fragment_id: u32, root_node: PlanNode) -> (r: Self)
        ensures
            r.fragment_id == fragment_id,
            r.root_node == root_node,
            r.output_exprs@.len() == 0,
            r.partition_info.is_none(),
    {
        PlanFragment { fragment_id, root_node, output_exprs: Vec::new(), partition_info: None }
    }

    /// The same fragment with its output expressions replaced.
    pub fn with_output_exprs(self, exprs: Vec<Expr>) -> (r: Self)
        ensures
            r.fragment_id == self.fragment_id,
            r.root_node == self.root_node,
            r.output_exprs == exprs,
            r.partition_info == self.partition_info,
    {
        let mut f = self;
        f.output_exprs = exprs;
        f
    }

    /// The same fragment with the given partition information.
    pub fn with_partition_info(self, info: PartitionInfo) -> (r: Self)
        ensures
            r.fragment_id == self.fragment_id,
            r.root_node == self.root_node,
            r.output_exprs == self.output_exprs,
            r.partition_info == Some(info),
    {
        let mut f = self;
        f.partition_info = Some(info);
        f
    }
}

impl QueryPlan {
    /// An empty plan for the given query.
    pub fn new(query_id: uuid::Uuid) -> (r: Self)
        ensures
            r.query_id == query_id,
            r.fragments@.len() == 0,
    {
        QueryPlan { query_id, fragments: Vec::new() }
    }

    /// Appends a fragment at the end of the plan.
    pub fn add_fragment(&mut self, fragment: PlanFragment)
        ensures
            final(self).query_id == old(self).query_id,
            final(self).fragments@ == old(self).fragments@.push(fragment),
    {
        self.fragments.push(fragment);
    }
}

} // verus!
