//! The plan nodes that physical plan operators become, and the text
//! conventions by which scans and expressions are recognized: the decisions
//! of converting an executed plan into plan fragments.

use vstd::prelude::*;
use crate::plan_fragment::{
    copy_exprs, exprs_model, lemma_exprs_model_index, lemma_exprs_model_len, AggregateFunction,
    AggregateModel, BinaryOperator, DataType, Expr, ExprModel, LiteralModel, LiteralValue,
    OrderByExpr, PlanFragment, PlanModel, PlanNode, QueryPlan,
};
use crate::text::{chars_of, contains_seq, push_char, str_contains, string_of};

verus! {

/// Converts executed plans into query plans of one fragment, with fragment
/// ids from its counter.
pub struct PlanConverter {
    query_id: uuid::Uuid,
    next_fragment_id: u32,
}

/// `pat` occurs in `s` at `i`.
pub open spec fn occurs_at(s: Seq<char>, pat: Seq<char>, i: int) -> bool {
    0 <= i && i + pat.len() <= s.len() && s.subrange(i, i + pat.len()) == pat
}

/// The first place where `pat` occurs in `s`.
pub open spec fn first_occurrence(s: Seq<char>, pat: Seq<char>) -> Option<int> {
    if exists|i: int| #[trigger] occurs_at(s, pat, i) {
        Some(
            choose|i: int|
                #[trigger] occurs_at(s, pat, i) && forall|j: int| 0 <= j < i ==> !occurs_at(s, pat, j),
        )
    } else {
        None
    }
}

/// `s` without its leading `"` characters.
pub open spec fn trim_quotes_start(s: Seq<char>) -> Seq<char>
    decreases s.len(),
{
    if s.len() > 0 && s[0] == '"' {
        trim_quotes_start(s.drop_first())
    } else {
        s
    }
}

/// `s` without its trailing `"` characters.
pub open spec fn trim_quotes_end(s: Seq<char>) -> Seq<char>
    decreases s.len(),
{
    if s.len() > 0 && s.last() == '"' {
        trim_quotes_end(s.drop_last())
    } else {
        s
    }
}

/// The part of `s` before the first occurrence of `pat` (all of `s` when
/// there is none).
pub open spec fn before(s: Seq<char>, pat: Seq<char>) -> Seq<char> {
    match first_occurrence(s, pat) {
        Some(i) => s.subrange(0, i),
        None => s,
    }
}

/// The name that the debug rendering of a column expression gives: the
/// text after the first `name: `, up to the next `name: ` and then up to
/// the first comma, without surrounding double quotes.
pub open spec fn debug_column_name(text: Seq<char>) -> Option<Seq<char>> {
    match first_occurrence(text, "name: "@) {
        Some(i) => {
            let rest = text.subrange(i + 6, text.len() as int);
            Some(trim_quotes_end(trim_quotes_start(before(before(rest, "name: "@), ","@))))
        },
        None => None,
    }
}

/// The expression read from the debug rendering of a physical expression:
/// a column when the text mentions `Column`, a placeholder literal for
/// `Literal`, a placeholder equality for `BinaryExpr`, else a column named
/// by the whole text.
pub open spec fn debug_expr(text: Seq<char>) -> ExprModel {
    if contains_seq(text, "Column"@) {
        ExprModel::Column {
            name: match debug_column_name(text) {
                Some(n) => n,
                None => "unknown_column"@,
            },
            data_type: DataType::String,
        }
    } else if contains_seq(text, "Literal"@) {
        ExprModel::Literal {
            value: LiteralModel::Text("literal_value"@),
            data_type: DataType::String,
        }
    } else if contains_seq(text, "BinaryExpr"@) {
        ExprModel::BinaryOp {
            op: BinaryOperator::Eq,
            left: Box::new(ExprModel::Column { name: "left"@, data_type: DataType::String }),
            right: Box::new(
                ExprModel::Literal {
                    value: LiteralModel::Text("right"@),
                    data_type: DataType::String,
                },
            ),
        }
    } else {
        ExprModel::Column { name: text, data_type: DataType::String }
    }
}

/// Operators whose name says they read a table become scans.
pub open spec fn is_scan_name(name: Seq<char>) -> bool {
    contains_seq(name, "Scan"@) || contains_seq(name, "Csv"@) || contains_seq(name, "Empty"@)
}

/// The first occurrence of `pat` in `s` at or after `from`, if any (see
/// `first_occurrence`).
fn find_from(s: &Vec<char>, pat: &Vec<char>, from: usize) -> (r: Option<usize>)
    requires
        pat@.len() > 0,
        from <= s@.len(),
        forall|j: int| 0 <= j < from ==> !occurs_at(s@, pat@, j),
    ensures
        match r {
            Some(i) => first_occurrence(s@, pat@) == Some(i as int) && occurs_at(s@, pat@, i as int),
            None => first_occurrence(s@, pat@) is None,
        },
{
    let mut i: usize = from;
    while i < s.len() && pat.len() <= s.len() - i
        invariant
            from <= i <= s@.len(),
            forall|j: int| 0 <= j < i ==> !occurs_at(s@, pat@, j),
        decreases s@.len() - i,
    {
        let mut k: usize = 0;
        let mut ok = true;
        while k < pat.len()
            invariant
                i + pat@.len() <= s@.len(),
                s@.len() <= usize::MAX,
                k <= pat@.len(),
                ok ==> forall|m: int| 0 <= m < k ==> s@[i + m] == pat@[m],
                !ok ==> !occurs_at(s@, pat@, i as int),
            decreases pat@.len() - k,
        {
            assert(i + k < s@.len());
            if s[i + k] != pat[k] {
                ok = false;
                assert(s@.subrange(i as int, i + pat@.len())[k as int] != pat@[k as int]);
            }
            k = k + 1;
        }
        if ok {
            assert(s@.subrange(i as int, i + pat@.len()) =~= pat@);
            proof {
                assert(occurs_at(s@, pat@, i as int));
                let c = choose|c: int|
                    #[trigger] occurs_at(s@, pat@, c) && forall|j: int| 0 <= j < c ==> !occurs_at(s@, pat@, j);
                if c < i {
                    assert(!occurs_at(s@, pat@, c));
                } else if c > i {
                    assert(!occurs_at(s@, pat@, i as int));
                }
            }
            return Some(i);
        }
        i = i + 1;
    }
    proof {
        assert forall|j: int| !occurs_at(s@, pat@, j) by {
            if 0 <= j && j + pat@.len() <= s@.len() && j >= i {
                assert(i < s@.len());
                assert(pat@.len() <= s@.len() - i);
            }
        }
    }
    None
}

/// The characters of `s` from `lo` up to `hi`.
fn slice_chars(s: &Vec<char>, lo: usize, hi: usize) -> (r: Vec<char>)
    requires
        lo <= hi <= s@.len(),
    ensures
        r@ == s@.subrange(lo as int, hi as int),
{
    let mut r: Vec<char> = Vec::new();
    let mut i: usize = lo;
    while i < hi
        invariant
            lo <= i <= hi <= s@.len(),
            r@ == s@.subrange(lo as int, i as int),
        decreases hi - i,
    {
        r.push(s[i]);
        assert(s@.subrange(lo as int, i + 1) =~= s@.subrange(lo as int, i as int).push(s@[i as int]));
        i = i + 1;
    }
    r
}

/// The part of `s` before the first occurrence of `pat` (see `before`).
fn before_chars(s: &Vec<char>, pat: &Vec<char>) -> (r: Vec<char>)
    requires
        pat@.len() > 0,
    ensures
        r@ == before(s@, pat@),
{
    match find_from(s, pat, 0) {
        Some(i) => slice_chars(s, 0, i),
        None => {
            let n = s.len();
            let r = slice_chars(s, 0, n);
            assert(r@ =~= s@);
            r
        },
    }
}

/// `s` without leading and trailing `"` characters.
fn trim_quotes(s: &Vec<char>) -> (r: String)
    ensures
        r@ == trim_quotes_end(trim_quotes_start(s@)),
{
    let mut a: usize = 0;
    assert(s@.subrange(0, s@.len() as int) =~= s@);
    while a < s.len() && s[a] == '"'
        invariant
            a <= s@.len(),
            trim_quotes_start(s@) == trim_quotes_start(s@.subrange(a as int, s@.len() as int)),
        decreases s@.len() - a,
    {
        assert(s@.subrange(a as int, s@.len() as int).drop_first() =~= s@.subrange(
            a + 1,
            s@.len() as int,
        ));
        a = a + 1;
    }
    let mut b: usize = s.len();
    let ghost mid = s@.subrange(a as int, s@.len() as int);
    assert(trim_quotes_start(s@) == mid) by {
        if a < s@.len() {
            assert(mid[0] == s@[a as int]);
        }
    }
    assert(s@.subrange(a as int, b as int) =~= mid);
    while b > a && s[b - 1] == '"'
        invariant
            a <= b <= s@.len(),
            mid == s@.subrange(a as int, s@.len() as int),
            trim_quotes_end(mid) == trim_quotes_end(s@.subrange(a as int, b as int)),
        decreases b,
    {
        assert(s@.subrange(a as int, b as int).drop_last() =~= s@.subrange(a as int, b - 1));
        b = b - 1;
    }
    let ghost fin = s@.subrange(a as int, b as int);
    assert(trim_quotes_end(fin) == fin) by {
        if fin.len() > 0 {
            assert(fin.last() == s@[b - 1]);
        }
    }
    let mut r = String::new();
    let mut i: usize = a;
    while i < b
        invariant
            a <= i <= b <= s@.len(),
            r@ == s@.subrange(a as int, i as int),
        decreases b - i,
    {
        push_char(&mut r, s[i]);
        assert(s@.subrange(a as int, i + 1) =~= s@.subrange(a as int, i as int).push(s@[i as int]));
        i = i + 1;
    }
    r
}

impl PlanConverter {
    /// The id that the next fragment will get.
    pub closed spec fn next_id(&self) -> u32 {
        self.next_fragment_id
    }

    /// The query that the plans are for.
    pub closed spec fn query(&self) -> uuid::Uuid {
        self.query_id
    }

    pub fn new(query_id: uuid::Uuid) -> (r: Self)
        ensures
            r.next_id() == 0,
            r.query() == query_id,
    {
        PlanConverter { query_id, next_fragment_id: 0 }
    }

    /// The id that the next fragment will get.
    pub fn upcoming_fragment_id(&self) -> (r: u32)
        ensures
            r == self.next_id(),
    {
        self.next_fragment_id
    }

    fn next_fragment_id(&mut self) -> (r: u32)
        requires
            old(self).next_id() < u32::MAX,
        ensures
            r == old(self).next_id(),
            final(self).next_id() == old(self).next_id() + 1,
            final(self).query() == old(self).query(),
    {
        let id = self.next_fragment_id;
        self.next_fragment_id = self.next_fragment_id + 1;
        id
    }

    /// The query plan of a converted plan: one fragment, with the next id,
    /// holding the whole plan.
    pub fn plan_of_root(&mut self, root_node: PlanNode) -> (r: QueryPlan)
        requires
            old(self).next_id() < u32::MAX,
        ensures
            r.query_id == old(self).query(),
            r.fragments@.len() == 1,
            r.fragments@[0].fragment_id == old(self).next_id(),
            r.fragments@[0].root_node == root_node,
            r.fragments@[0].output_exprs@.len() == 0,
            r.fragments@[0].partition_info is None,
            final(self).next_id() == old(self).next_id() + 1,
            final(self).query() == old(self).query(),
    {
        let mut query_plan = QueryPlan::new(self.query_id);
        let fragment = PlanFragment::new(self.next_fragment_id(), root_node);
        query_plan.add_fragment(fragment);
        query_plan
    }

    /// Whether an operator of this name reads a table (see `is_scan_name`).
    pub fn is_scan_plan(plan_name: &str) -> (r: bool)
        ensures
            r == is_scan_name(plan_name@),
    {
        str_contains(plan_name, "Scan") || str_contains(plan_name, "Csv") || str_contains(
            plan_name,
            "Empty",
        )
    }

    /// The scan node of a table-reading operator: a CSV reader stands for
    /// `lineitem`, any other for `unknown_table`; the columns are those of
    /// the operator's output.
    pub fn scan_node(plan_name: &str, columns: Vec<String>) -> (r: PlanNode)
        ensures
            r@ == (PlanModel::OlapScan {
                table_name: if contains_seq(plan_name@, "CsvExec"@) {
                    "lineitem"@
                } else {
                    "unknown_table"@
                },
                columns: crate::plan_fragment::strings_model(columns@),
                predicates: Seq::empty(),
                tablet_ids: Seq::empty(),
            }),
    {
        let table_name = if str_contains(plan_name, "CsvExec") {
            string_of("lineitem")
        } else {
            string_of("unknown_table")
        };
        let r = PlanNode::OlapScan { table_name, columns, predicates: Vec::new(), tablet_ids: Vec::new() };
        proof {
            lemma_exprs_model_len(Seq::<Expr>::empty());
        }
        assert(exprs_model(Seq::<Expr>::empty()) =~= Seq::<ExprModel>::empty());
        r
    }

    /// The aggregation node of an aggregate operator: its grouping, one
    /// `COUNT(*)` per aggregate expression, and a merge when the operator is
    /// a final aggregation.
    pub fn aggregate_node(
        child: PlanNode,
        group_by_exprs: Vec<Expr>,
        num_agg_exprs: usize,
        is_final: bool,
    ) -> (r: PlanNode)
        ensures
            r@ == (PlanModel::Aggregation {
                child: Box::new(child@),
                group_by_exprs: exprs_model(group_by_exprs@),
                agg_functions: Seq::new(
                    num_agg_exprs as nat,
                    |i: int| AggregateModel::Count { expr: None, distinct: false },
                ),
                is_merge: is_final,
            }),
    {
        let mut agg_functions: Vec<AggregateFunction> = Vec::new();
        let mut i: usize = 0;
        while i < num_agg_exprs
            invariant
                i <= num_agg_exprs,
                crate::plan_fragment::aggregates_model(agg_functions@) =~= Seq::new(
                    i as nat,
                    |k: int| AggregateModel::Count { expr: None, distinct: false },
                ),
            decreases num_agg_exprs - i,
        {
            let ghost before = agg_functions@;
            agg_functions.push(AggregateFunction::Count { expr: None, distinct: false });
            assert(crate::plan_fragment::aggregates_model(agg_functions@) =~= crate::plan_fragment::aggregates_model(
                before,
            ).push(AggregateModel::Count { expr: None, distinct: false }));
            i = i + 1;
        }
        PlanNode::Aggregation {
            child: Box::new(child),
            group_by_exprs,
            agg_functions,
            is_merge: is_final,
        }
    }

    /// The node of a limit over `child`: a top-N that takes over the order
    /// of a sort directly below it; no fetch count means 0.
    pub fn limit_node(child: PlanNode, fetch: Option<usize>, skip: usize) -> (r: PlanNode)
        ensures
            ({
                let limit = match fetch {
                    Some(n) => n,
                    None => 0usize,
                };
                match child@ {
                    PlanModel::Sort { child: sort_child, order_by, .. } => r@ == (PlanModel::TopN {
                        child: sort_child,
                        order_by,
                        limit,
                        offset: skip,
                    }),
                    _ => r@ == (PlanModel::TopN {
                        child: Box::new(child@),
                        order_by: Seq::empty(),
                        limit,
                        offset: skip,
                    }),
                }
            }),
    {
        let limit_count = match fetch {
            Some(n) => n,
            None => 0,
        };
        match child {
            PlanNode::Sort { child: sort_child, order_by, .. } => PlanNode::TopN {
                child: sort_child,
                order_by,
                limit: limit_count,
                offset: skip,
            },
            other => {
                let order_by: Vec<OrderByExpr> = Vec::new();
                assert(crate::plan_fragment::order_bys_model(order_by@) =~= Seq::empty());
                PlanNode::TopN { child: Box::new(other), order_by, limit: limit_count, offset: skip }
            },
        }
    }

    /// The column name in the debug rendering of a column expression (see
    /// `debug_column_name`), `unknown_column` when it names none.
    #[verifier::rlimit(40)]
    pub fn column_name_from_debug(text: &str) -> (r: String)
        ensures
            r@ == match debug_column_name(text@) {
                Some(n) => n,
                None => "unknown_column"@,
            },
    {
        proof {
            reveal_strlit("name: ");
            reveal_strlit(",");
        }
        let cs = chars_of(text);
        let marker = chars_of("name: ");
        let comma = chars_of(",");
        match find_from(&cs, &marker, 0) {
            Some(i) => {
                assert(marker@.len() == 6);
                assert(occurs_at(cs@, marker@, i as int));
                assert(i + 6 <= cs@.len());
                let n = cs.len();
                assert(n == cs@.len());
                let start: usize = i + 6;
                let rest = slice_chars(&cs, start, n);
                let seg = before_chars(&rest, &marker);
                let field = before_chars(&seg, &comma);
                let r = trim_quotes(&field);
                assert(rest@ == text@.subrange(i + 6, text@.len() as int));
                assert(first_occurrence(text@, "name: "@) == Some(i as int));
                r
            },
            None => {
                assert(first_occurrence(text@, "name: "@) is None);
                string_of("unknown_column")
            },
        }
    }

    /// The expression read from the debug rendering of a physical
    /// expression (see `debug_expr`).
    pub fn expr_from_debug(text: &str) -> (r: Expr)
        ensures
            r@ == debug_expr(text@),
    {
        if str_contains(text, "Column") {
            let name = Self::column_name_from_debug(text);
            return Expr::Column { name, data_type: DataType::String };
        }
        if str_contains(text, "Literal") {
            return Expr::Literal {
                value: LiteralValue::String(string_of("literal_value")),
                data_type: DataType::String,
            };
        }
        if str_contains(text, "BinaryExpr") {
            let left = Expr::Column { name: string_of("left"), data_type: DataType::String };
            let right = Expr::Literal {
                value: LiteralValue::String(string_of("right")),
                data_type: DataType::String,
            };
            assert(left@ == ExprModel::Column { name: "left"@, data_type: DataType::String });
            assert(right@ == ExprModel::Literal {
                value: LiteralModel::Text("right"@),
                data_type: DataType::String,
            });
            let r = Expr::BinaryOp { op: BinaryOperator::Eq, left: Box::new(left), right: Box::new(right) };
            return r;
        }
        Expr::Column { name: string_of(text), data_type: DataType::String }
    }
}

} // verus!
