//! Fragment executor: renders plan fragments as SQL for the backends and
//! decides how a multi-fragment plan is run.

use vstd::prelude::*;
use std::sync::Arc;
use crate::error::DorisError;
use crate::feature_flags::QueryFeatureFlags;
use crate::plan_fragment::{
    aggregate_model, exprs_model, lemma_exprs_model_index, lemma_exprs_model_len,
    lemma_exprs_model_push, order_by_model, AggregateFunction, AggregateModel, BinaryOperator,
    DataType, Expr, ExprModel, LiteralModel, LiteralValue, OrderByExpr, OrderByModel, PlanFragment,
    PlanModel, PlanNode, QueryPlan, UnaryOperator,
};
use crate::text::{int_text, nat_digits, push_i64_text, push_str, push_u64_digits, string_of};

verus! {

/// Coordinates execution of multi-fragment distributed queries.
pub struct FragmentExecutor {
    query_id: uuid::Uuid,
    feature_flags: Arc<QueryFeatureFlags>,
}

pub open spec fn binary_op_text(op: BinaryOperator) -> Seq<char> {
    match op {
        BinaryOperator::Eq => "="@,
        BinaryOperator::NotEq => "!="@,
        BinaryOperator::Lt => "<"@,
        BinaryOperator::LtEq => "<="@,
        BinaryOperator::Gt => ">"@,
        BinaryOperator::GtEq => ">="@,
        BinaryOperator::Add => "+"@,
        BinaryOperator::Subtract => "-"@,
        BinaryOperator::Multiply => "*"@,
        BinaryOperator::Divide => "/"@,
        BinaryOperator::Modulo => "%"@,
        BinaryOperator::And => "AND"@,
        BinaryOperator::Or => "OR"@,
    }
}

pub open spec fn unary_op_text(op: UnaryOperator) -> Seq<char> {
    match op {
        UnaryOperator::Not => "NOT"@,
        UnaryOperator::Negate => "-"@,
        UnaryOperator::IsNull => "IS NULL"@,
        UnaryOperator::IsNotNull => "IS NOT NULL"@,
    }
}

/// The debug rendering of a data type (as `{:?}` prints it).
pub open spec fn data_type_text(t: DataType) -> Seq<char> {
    match t {
        DataType::Boolean => "Boolean"@,
        DataType::TinyInt => "TinyInt"@,
        DataType::SmallInt => "SmallInt"@,
        DataType::Int => "Int"@,
        DataType::BigInt => "BigInt"@,
        DataType::Float => "Float"@,
        DataType::Double => "Double"@,
        DataType::Decimal { precision, scale } => "Decimal { precision: "@ + nat_digits(
            precision as nat,
        ) + ", scale: "@ + nat_digits(scale as nat) + " }"@,
        DataType::Char { length } => "Char { length: "@ + nat_digits(length as nat) + " }"@,
        DataType::Varchar { length } => "Varchar { length: "@ + nat_digits(length as nat) + " }"@,
        DataType::String => "String"@,
        DataType::Date => "Date"@,
        DataType::DateTime => "DateTime"@,
        DataType::Timestamp => "Timestamp"@,
    }
}

/// SQL text of a literal: quoted strings and dates, decimal numbers.
pub open spec fn literal_text(v: LiteralModel) -> Seq<char> {
    match v {
        LiteralModel::Null => "NULL"@,
        LiteralModel::Boolean(b) => if b {
            "true"@
        } else {
            "false"@
        },
        LiteralModel::Int8(i) => int_text(i as int),
        LiteralModel::Int16(i) => int_text(i as int),
        LiteralModel::Int32(i) => int_text(i as int),
        LiteralModel::Int64(i) => int_text(i as int),
        LiteralModel::Float32(s) => s,
        LiteralModel::Float64(s) => s,
        LiteralModel::Text(s) => "'"@ + s + "'"@,
        LiteralModel::Date(s) => "'"@ + s + "'"@,
        LiteralModel::DateTime(s) => "'"@ + s + "'"@,
    }
}

/// SQL text of an expression.
pub open spec fn expr_text(e: ExprModel) -> Seq<char>
    decreases e,
{
    match e {
        ExprModel::Column { name, .. } => name,
        ExprModel::Literal { value, .. } => literal_text(value),
        ExprModel::BinaryOp { op, left, right } => expr_text(*left) + " "@ + binary_op_text(op)
            + " "@ + expr_text(*right),
        ExprModel::UnaryOp { op, expr } => unary_op_text(op) + " "@ + expr_text(*expr),
        ExprModel::Cast { expr, target_type } => "CAST("@ + expr_text(*expr) + " AS "@
            + data_type_text(target_type) + ")"@,
        ExprModel::Function { name, args } => name + "("@ + exprs_text(args) + ")"@,
    }
}

/// SQL text of a list of expressions, separated by `, `.
pub open spec fn exprs_text(s: Seq<ExprModel>) -> Seq<char>
    decreases s,
{
    if s.len() == 0 {
        Seq::empty()
    } else if s.len() == 1 {
        expr_text(s[0])
    } else {
        exprs_text(s.drop_last()) + ", "@ + expr_text(s.last())
    }
}

fn binary_op_to_sql(op: &BinaryOperator) -> (r: &'static str)
    ensures
        r@ == binary_op_text(*op),
{
    match op {
        BinaryOperator::Eq => "=",
        BinaryOperator::NotEq => "!=",
        BinaryOperator::Lt => "<",
        BinaryOperator::LtEq => "<=",
        BinaryOperator::Gt => ">",
        BinaryOperator::GtEq => ">=",
        BinaryOperator::Add => "+",
        BinaryOperator::Subtract => "-",
        BinaryOperator::Multiply => "*",
        BinaryOperator::Divide => "/",
        BinaryOperator::Modulo => "%",
        BinaryOperator::And => "AND",
        BinaryOperator::Or => "OR",
    }
}

fn unary_op_to_sql(op: &UnaryOperator) -> (r: &'static str)
    ensures
        r@ == unary_op_text(*op),
{
    match op {
        UnaryOperator::Not => "NOT",
        UnaryOperator::Negate => "-",
        UnaryOperator::IsNull => "IS NULL",
        UnaryOperator::IsNotNull => "IS NOT NULL",
    }
}

fn push_data_type(out: &mut String, t: &DataType)
    ensures
        final(out)@ == old(out)@ + data_type_text(*t),
{
    match t {
        DataType::Boolean => push_str(out, "Boolean"),
        DataType::TinyInt => push_str(out, "TinyInt"),
        DataType::SmallInt => push_str(out, "SmallInt"),
        DataType::Int => push_str(out, "Int"),
        DataType::BigInt => push_str(out, "BigInt"),
        DataType::Float => push_str(out, "Float"),
        DataType::Double => push_str(out, "Double"),
        DataType::Decimal { precision, scale } => {
            push_str(out, "Decimal { precision: ");
            push_u64_digits(out, *precision as u64);
            push_str(out, ", scale: ");
            push_u64_digits(out, *scale as u64);
            push_str(out, " }");
        },
        DataType::Char { length } => {
            push_str(out, "Char { length: ");
            push_u64_digits(out, *length as u64);
            push_str(out, " }");
        },
        DataType::Varchar { length } => {
            push_str(out, "Varchar { length: ");
            push_u64_digits(out, *length as u64);
            push_str(out, " }");
        },
        DataType::String => push_str(out, "String"),
        DataType::Date => push_str(out, "Date"),
        DataType::DateTime => push_str(out, "DateTime"),
        DataType::Timestamp => push_str(out, "Timestamp"),
    }
    assert(final(out)@ =~= old(out)@ + data_type_text(*t));
}

fn push_literal(out: &mut String, v: &LiteralValue)
    ensures
        final(out)@ == old(out)@ + literal_text(v@),
{
    match v {
        LiteralValue::Null => push_str(out, "NULL"),
        LiteralValue::Boolean(b) => if *b {
            push_str(out, "true")
        } else {
            push_str(out, "false")
        },
        LiteralValue::Int8(i) => push_i64_text(out, *i as i64),
        LiteralValue::Int16(i) => push_i64_text(out, *i as i64),
        LiteralValue::Int32(i) => push_i64_text(out, *i as i64),
        LiteralValue::Int64(i) => push_i64_text(out, *i),
        LiteralValue::Float32(s) => push_str(out, s.as_str()),
        LiteralValue::Float64(s) => push_str(out, s.as_str()),
        LiteralValue::String(s) | LiteralValue::Date(s) | LiteralValue::DateTime(s) => {
            push_str(out, "'");
            push_str(out, s.as_str());
            push_str(out, "'");
        },
    }
    assert(final(out)@ =~= old(out)@ + literal_text(v@));
}

/// Appends the SQL text of an expression.
fn push_expr(out: &mut String, e: &Expr)
    ensures
        final(out)@ == old(out)@ + expr_text(e@),
    decreases e,
{
    match e {
        Expr::Column { name, .. } => push_str(out, name.as_str()),
        Expr::Literal { value, .. } => push_literal(out, value),
        Expr::BinaryOp { op, left, right } => {
            push_expr(out, left);
            push_str(out, " ");
            push_str(out, binary_op_to_sql(op));
            push_str(out, " ");
            push_expr(out, right);
        },
        Expr::UnaryOp { op, expr } => {
            push_str(out, unary_op_to_sql(op));
            push_str(out, " ");
            push_expr(out, expr);
        },
        Expr::Cast { expr, target_type } => {
            push_str(out, "CAST(");
            push_expr(out, expr);
            push_str(out, " AS ");
            push_data_type(out, target_type);
            push_str(out, ")");
        },
        Expr::Function { name, args } => {
            push_str(out, name.as_str());
            push_str(out, "(");
            push_exprs(out, args);
            push_str(out, ")");
        },
    }
    assert(final(out)@ =~= old(out)@ + expr_text(e@));
}

/// Appends the SQL text of a list of expressions, separated by `, `.
fn push_exprs(out: &mut String, v: &Vec<Expr>)
    ensures
        final(out)@ == old(out)@ + exprs_text(exprs_model(v@)),
    decreases v,
{
    let ghost out0 = out@;
    let mut i: usize = 0;
    while i < v.len()
        invariant
            i <= v.len(),
            out@ == out0 + exprs_text(exprs_model(v@.subrange(0, i as int))),
        decreases v.len() - i,
    {
        let ghost prefix = v@.subrange(0, i as int);
        proof {
            lemma_exprs_model_push(prefix, v@[i as int]);
            assert(prefix.push(v@[i as int]) =~= v@.subrange(0, i + 1));
            lemma_exprs_model_len(prefix);
        }
        if i > 0 {
            push_str(out, ", ");
        }
        push_expr(out, &v[i]);
        proof {
            let m = exprs_model(v@.subrange(0, i + 1));
            assert(m.drop_last() =~= exprs_model(prefix));
            if i == 0 {
                assert(exprs_model(prefix) =~= Seq::<ExprModel>::empty());
                assert(m[0] == expr_model_of(v@[0]));
            }
        }
        assert(out@ =~= out0 + exprs_text(exprs_model(v@.subrange(0, i + 1))));
        i = i + 1;
    }
    assert(v@.subrange(0, v.len() as int) =~= v@);
}

spec fn expr_model_of(e: Expr) -> ExprModel {
    e@
}

/// An expression rendered as SQL.
pub fn expr_to_sql(expr: &Expr) -> (r: String)
    ensures
        r@ == expr_text(expr@),
{
    let mut r = String::new();
    push_expr(&mut r, expr);
    assert(r@ =~= expr_text(expr@));
    r
}

/// Texts joined with `, `.
pub open spec fn joined(s: Seq<Seq<char>>) -> Seq<char>
    decreases s.len(),
{
    if s.len() == 0 {
        Seq::empty()
    } else if s.len() == 1 {
        s[0]
    } else {
        joined(s.drop_last()) + ", "@ + s.last()
    }
}

proof fn lemma_joined_push(s: Seq<Seq<char>>, x: Seq<char>)
    ensures
        joined(s.push(x)) == if s.len() == 0 {
            x
        } else {
            joined(s) + ", "@ + x
        },
{
    assert(s.push(x).drop_last() =~= s);
}

/// SQL text of an aggregate function (a count is always `COUNT(*)`).
pub open spec fn aggregate_text(a: AggregateModel) -> Seq<char> {
    match a {
        AggregateModel::Count { .. } => "COUNT(*)"@,
        AggregateModel::Sum { expr, .. } => "SUM("@ + expr_text(expr) + ")"@,
        AggregateModel::Avg { expr, .. } => "AVG("@ + expr_text(expr) + ")"@,
        AggregateModel::Min { expr } => "MIN("@ + expr_text(expr) + ")"@,
        AggregateModel::Max { expr } => "MAX("@ + expr_text(expr) + ")"@,
    }
}

pub open spec fn aggregates_text(s: Seq<AggregateFunction>) -> Seq<char> {
    joined(s.map_values(|a: AggregateFunction| aggregate_text(aggregate_model(a))))
}

/// SQL text of a sort key: expression and direction.
pub open spec fn order_text(o: OrderByModel) -> Seq<char> {
    expr_text(o.expr) + " "@ + if o.ascending {
        "ASC"@
    } else {
        "DESC"@
    }
}

pub open spec fn orders_text(s: Seq<OrderByExpr>) -> Seq<char> {
    joined(s.map_values(|o: OrderByExpr| order_text(order_by_model(o))))
}

/// `s` ends with `t`.
pub open spec fn ends_with(s: Seq<char>, t: Seq<char>) -> bool {
    t.len() <= s.len() && s.subrange(s.len() - t.len(), s.len() as int) == t
}

/// The SQL of a sort key ends in ` ASC` when the key is ascending and in
/// ` DESC` when it is descending.
pub proof fn lemma_sort_key_direction(o: OrderByModel)
    ensures
        o.ascending ==> ends_with(order_text(o), " ASC"@),
        !o.ascending ==> ends_with(order_text(o), " DESC"@),
        !(ends_with(order_text(o), " ASC"@) && ends_with(order_text(o), " DESC"@)),
{
    reveal_strlit(" ");
    reveal_strlit("ASC");
    reveal_strlit("DESC");
    reveal_strlit(" ASC");
    reveal_strlit(" DESC");
    let t = order_text(o);
    if o.ascending {
        assert(t.subrange(t.len() - 4, t.len() as int) =~= " ASC"@);
        if 5 <= t.len() {
            assert(t.subrange(t.len() - 5, t.len() as int)[1] == ' ');
        }
    } else {
        assert(t.subrange(t.len() - 5, t.len() as int) =~= " DESC"@);
        assert(t.subrange(t.len() - 4, t.len() as int)[0] == 'D');
    }
}

/// The SQL of a TopN fragment with one sort key orders by that key's
/// expression, `ASC` when the key is ascending and `DESC` when it is
/// descending, then limits and offsets as the TopN says.
pub proof fn lemma_topn_sql_sort_direction(root: PlanNode)
    requires
        root matches PlanNode::TopN { order_by, .. } && order_by@.len() == 1,
    ensures
        root matches PlanNode::TopN { child, order_by, limit, offset } && fragment_text(root) == "SELECT * FROM ("@
            + source_text(child@) + ") ORDER BY "@ + expr_text(order_by@[0].expr@) + (if order_by@[0].ascending {
            " ASC"@
        } else {
            " DESC"@
        }) + " LIMIT "@ + nat_digits(limit as nat) + " OFFSET "@ + nat_digits(offset as nat),
{
    reveal_strlit(" ");
    reveal_strlit("ASC");
    reveal_strlit("DESC");
    reveal_strlit(" ASC");
    reveal_strlit(" DESC");
    match root {
        PlanNode::TopN { child, order_by, limit, offset } => {
            let keys = order_by@.map_values(|o: OrderByExpr| order_text(order_by_model(o)));
            assert(keys =~= seq![order_text(order_by_model(order_by@[0]))]);
            let ord = orders_text(order_by@);
            assert(ord == order_text(order_by_model(order_by@[0])));
            let e = expr_text(order_by@[0].expr@);
            if order_by@[0].ascending {
                assert(ord =~= e + " ASC"@);
            } else {
                assert(ord =~= e + " DESC"@);
            }
            assert(ord.len() > 0);
        },
        _ => {},
    }
}

/// The source that a fragment reads from: a scanned table (seen through
/// exchanges), else a subquery.
pub open spec fn source_text(n: PlanModel) -> Seq<char>
    decreases n,
{
    match n {
        PlanModel::OlapScan { table_name, .. } => table_name,
        PlanModel::Exchange { child, .. } => source_text(*child),
        _ => "subquery"@,
    }
}

/// The SQL sent to a backend for a fragment rooted at `root`.
pub open spec fn fragment_text(root: PlanNode) -> Seq<char> {
    match root {
        PlanNode::OlapScan { table_name, .. } => "SELECT * FROM "@ + table_name@,
        PlanNode::Aggregation { child, group_by_exprs, agg_functions, .. } => {
            let agg = aggregates_text(agg_functions@);
            let src = source_text(child@);
            if group_by_exprs@.len() == 0 {
                "SELECT "@ + agg + " FROM ("@ + src + ")"@
            } else {
                let g = exprs_text(exprs_model(group_by_exprs@));
                "SELECT "@ + g + ", "@ + agg + " FROM ("@ + src + ") GROUP BY "@ + g
            }
        },
        PlanNode::TopN { child, order_by, limit, offset } => {
            let src = source_text(child@);
            let ord = orders_text(order_by@);
            if ord.len() == 0 {
                "SELECT * FROM ("@ + src + ") LIMIT "@ + nat_digits(limit as nat) + " OFFSET "@
                    + nat_digits(offset as nat)
            } else {
                "SELECT * FROM ("@ + src + ") ORDER BY "@ + ord + " LIMIT "@ + nat_digits(
                    limit as nat,
                ) + " OFFSET "@ + nat_digits(offset as nat)
            }
        },
        _ => "SELECT 1"@,
    }
}

fn push_aggregate(out: &mut String, a: &AggregateFunction)
    ensures
        final(out)@ == old(out)@ + aggregate_text(a@),
{
    match a {
        AggregateFunction::Count { .. } => push_str(out, "COUNT(*)"),
        AggregateFunction::Sum { expr, .. } => {
            push_str(out, "SUM(");
            push_expr(out, expr);
            push_str(out, ")");
        },
        AggregateFunction::Avg { expr, .. } => {
            push_str(out, "AVG(");
            push_expr(out, expr);
            push_str(out, ")");
        },
        AggregateFunction::Min { expr } => {
            push_str(out, "MIN(");
            push_expr(out, expr);
            push_str(out, ")");
        },
        AggregateFunction::Max { expr } => {
            push_str(out, "MAX(");
            push_expr(out, expr);
            push_str(out, ")");
        },
    }
    assert(final(out)@ =~= old(out)@ + aggregate_text(a@));
}

fn push_aggregates(out: &mut String, v: &Vec<AggregateFunction>)
    ensures
        final(out)@ == old(out)@ + aggregates_text(v@),
{
    let ghost out0 = out@;
    let ghost f = |a: AggregateFunction| aggregate_text(aggregate_model(a));
    let mut i: usize = 0;
    while i < v.len()
        invariant
            i <= v.len(),
            f == (|a: AggregateFunction| aggregate_text(aggregate_model(a))),
            out@ == out0 + joined(v@.subrange(0, i as int).map_values(f)),
        decreases v.len() - i,
    {
        let ghost prefix = v@.subrange(0, i as int).map_values(f);
        proof {
            assert(v@.subrange(0, i + 1).map_values(f) =~= prefix.push(f(v@[i as int])));
            lemma_joined_push(prefix, f(v@[i as int]));
        }
        if i > 0 {
            push_str(out, ", ");
        }
        push_aggregate(out, &v[i]);
        assert(out@ =~= out0 + joined(v@.subrange(0, i + 1).map_values(f)));
        i = i + 1;
    }
    assert(v@.subrange(0, v.len() as int) =~= v@);
}

fn push_order(out: &mut String, o: &OrderByExpr)
    ensures
        final(out)@ == old(out)@ + order_text(o@),
{
    push_expr(out, &o.expr);
    push_str(out, " ");
    if o.ascending {
        push_str(out, "ASC");
    } else {
        push_str(out, "DESC");
    }
    assert(final(out)@ =~= old(out)@ + order_text(o@));
}

fn push_orders(out: &mut String, v: &Vec<OrderByExpr>)
    ensures
        final(out)@ == old(out)@ + orders_text(v@),
{
    let ghost out0 = out@;
    let ghost f = |o: OrderByExpr| order_text(order_by_model(o));
    let mut i: usize = 0;
    while i < v.len()
        invariant
            i <= v.len(),
            f == (|o: OrderByExpr| order_text(order_by_model(o))),
            out@ == out0 + joined(v@.subrange(0, i as int).map_values(f)),
        decreases v.len() - i,
    {
        let ghost prefix = v@.subrange(0, i as int).map_values(f);
        proof {
            assert(v@.subrange(0, i + 1).map_values(f) =~= prefix.push(f(v@[i as int])));
            lemma_joined_push(prefix, f(v@[i as int]));
        }
        if i > 0 {
            push_str(out, ", ");
        }
        push_order(out, &v[i]);
        assert(out@ =~= out0 + joined(v@.subrange(0, i + 1).map_values(f)));
        i = i + 1;
    }
    assert(v@.subrange(0, v.len() as int) =~= v@);
}

/// The source a fragment reads from (see `source_text`).
fn fragment_to_sql_node(node: &PlanNode) -> (r: String)
    ensures
        r@ == source_text(node@),
    decreases node,
{
    match node {
        PlanNode::OlapScan { table_name, .. } => table_name.clone(),
        // Exchange boundary - reference child fragment
        PlanNode::Exchange { child, .. } => fragment_to_sql_node(child),
        _ => string_of("subquery"),
    }
}

impl FragmentExecutor {
    pub fn new(query_id: uuid::Uuid) -> (r: Self)
        ensures
            r.query_id() == query_id,
    {
        Self::with_feature_flags(query_id, Arc::new(QueryFeatureFlags::default()))
    }

    pub fn with_feature_flags(query_id: uuid::Uuid, feature_flags: Arc<QueryFeatureFlags>) -> (r:
        Self)
        ensures
            r.query_id() == query_id,
    {
        FragmentExecutor { query_id, feature_flags }
    }

    pub closed spec fn query_id(&self) -> uuid::Uuid {
        self.query_id
    }

    /// The id of the query this executor runs.
    pub fn get_query_id(&self) -> (r: uuid::Uuid)
        ensures
            r == self.query_id(),
    {
        self.query_id
    }

    /// Renders a fragment as SQL for a backend (see `fragment_text`).
    pub fn fragment_to_sql(&self, fragment: &PlanFragment) -> (r: String)
        ensures
            r@ == fragment_text(fragment.root_node),
    {
        match &fragment.root_node {
            PlanNode::OlapScan { table_name, .. } => {
                let mut r = string_of("SELECT * FROM ");
                push_str(&mut r, table_name.as_str());
                r
            },
            PlanNode::Aggregation { child, group_by_exprs, agg_functions, .. } => {
                let mut agg_str = String::new();
                push_aggregates(&mut agg_str, agg_functions);
                let child_sql = fragment_to_sql_node(child);
                proof {
                    lemma_exprs_model_len(group_by_exprs@);
                }
                let mut r = string_of("SELECT ");
                if group_by_exprs.len() == 0 {
                    push_str(&mut r, agg_str.as_str());
                    push_str(&mut r, " FROM (");
                    push_str(&mut r, child_sql.as_str());
                    push_str(&mut r, ")");
                } else {
                    let mut group_by_str = String::new();
                    push_exprs(&mut group_by_str, group_by_exprs);
                    push_str(&mut r, group_by_str.as_str());
                    push_str(&mut r, ", ");
                    push_str(&mut r, agg_str.as_str());
                    push_str(&mut r, " FROM (");
                    push_str(&mut r, child_sql.as_str());
                    push_str(&mut r, ") GROUP BY ");
                    push_str(&mut r, group_by_str.as_str());
                }
                assert(r@ =~= fragment_text(fragment.root_node));
                r
            },
            PlanNode::TopN { child, order_by, limit, offset } => {
                let child_sql = fragment_to_sql_node(child);
                let mut order_str = String::new();
                push_orders(&mut order_str, order_by);
                let mut r = string_of("SELECT * FROM (");
                push_str(&mut r, child_sql.as_str());
                if order_str.as_str().is_empty() {
                    push_str(&mut r, ") LIMIT ");
                } else {
                    push_str(&mut r, ") ORDER BY ");
                    push_str(&mut r, order_str.as_str());
                    push_str(&mut r, " LIMIT ");
                }
                push_u64_digits(&mut r, *limit as u64);
                push_str(&mut r, " OFFSET ");
                push_u64_digits(&mut r, *offset as u64);
                assert(r@ =~= fragment_text(fragment.root_node));
                r
            },
            // Fallback for other node types
            _ => string_of("SELECT 1"),
        }
    }

    /// The SQL of each fragment of a plan, in the order the fragments are
    /// executed; a plan without fragments cannot be executed.
    pub fn fragment_statements(&self, query_plan: &QueryPlan) -> (r: Result<Vec<String>, DorisError>)
        ensures
            query_plan.fragments@.len() == 0 <==> r is Err,
            r matches Err(e) ==> e matches DorisError::QueryExecution(msg) && msg@
                == "Query plan has no fragments"@,
            r matches Ok(sqls) ==> sqls@.len() == query_plan.fragments@.len() && forall|i: int|
                0 <= i < sqls@.len() ==> #[trigger] sqls@[i]@ == fragment_text(
                    query_plan.fragments@[i].root_node,
                ),
    {
        if query_plan.fragments.len() == 0 {
            return Err(DorisError::QueryExecution(string_of("Query plan has no fragments")));
        }
        let mut sqls: Vec<String> = Vec::new();
        let mut i: usize = 0;
        while i < query_plan.fragments.len()
            invariant
                i <= query_plan.fragments@.len(),
                sqls@.len() == i,
                forall|j: int|
                    0 <= j < i ==> #[trigger] sqls@[j]@ == fragment_text(
                        query_plan.fragments@[j].root_node,
                    ),
            decreases query_plan.fragments@.len() - i,
        {
            sqls.push(self.fragment_to_sql(&query_plan.fragments[i]));
            i = i + 1;
        }
        Ok(sqls)
    }
}

} // verus!
