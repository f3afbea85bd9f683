//! Lowering of an expression chain into a polars `LazyFrame`: each
//! filter node becomes a predicate over a named column, applied as a row
//! filter to the running query.
//!
//! The polars calls themselves stand behind trusted wrappers; what each
//! call returns is named by an uninterpreted spec function of the call's
//! arguments, and the compiler is verified against those names.

use polars::prelude::{col, lit, Expr, LazyFrame, NULL};

use std::sync::Arc;

use vstd::prelude::*;

use crate::expression::{
    spec_column_name, AxonTimestamp, Const, DataSource, Expression, Filter, Operator,
};
use crate::translate::{DataProvider, Translate};

verus! {

#[verifier::external_type_specification]
#[verifier::external_body]
pub struct ExExpr(Expr);

#[verifier::external_type_specification]
#[verifier::external_body]
pub struct ExLazyFrame(LazyFrame);

/// What polars's `col` returns for a column name.
pub uninterp spec fn col_expr(name: Seq<char>) -> Expr;

/// What polars's `lit` returns for the literal a `Const` carries.
pub uninterp spec fn lit_of(value: Const) -> Expr;

/// What `Expr::eq` returns for a column and a value expression.
pub uninterp spec fn eq_expr(column: Expr, value: Expr) -> Expr;

/// What `Expr::neq` returns for a column and a value expression.
pub uninterp spec fn neq_expr(column: Expr, value: Expr) -> Expr;

/// What `Expr::gt` returns for a column and a value expression.
pub uninterp spec fn gt_expr(column: Expr, value: Expr) -> Expr;

/// What `Expr::gt_eq` returns for a column and a value expression.
pub uninterp spec fn gt_eq_expr(column: Expr, value: Expr) -> Expr;

/// What `Expr::lt` returns for a column and a value expression.
pub uninterp spec fn lt_expr(column: Expr, value: Expr) -> Expr;

/// What `Expr::lt_eq` returns for a column and a value expression.
pub uninterp spec fn lt_eq_expr(column: Expr, value: Expr) -> Expr;

/// What `LazyFrame::filter` returns: the query with the predicate
/// applied as a row filter.
pub uninterp spec fn filtered_frame(frame: LazyFrame, predicate: Expr) -> LazyFrame;

/// Relies on polars's `col`: the returned column reference is a
/// function of the name alone.
#[verifier::external_body]
fn col_of(name: &str) -> (r: Expr)
    ensures
        r == col_expr(name@),
{
    col(name)
}

/// Relies on polars's `lit` for the null literal.
#[verifier::external_body]
fn lit_null() -> (r: Expr)
    ensures
        r == lit_of(Const::Null),
{
    lit(NULL)
}

/// Relies on polars's `lit` for `bool`.
#[verifier::external_body]
fn lit_bool(x: bool) -> (r: Expr)
    ensures
        r == lit_of(Const::Boolean(x)),
{
    lit(x)
}

/// Relies on polars's `lit` for `String`.
#[verifier::external_body]
fn lit_string(x: &String) -> (r: Expr)
    ensures
        r == lit_of(Const::String(*x)),
{
    lit(x.clone())
}

/// Relies on polars's `lit` for `u32`.
#[verifier::external_body]
fn lit_u32(x: u32) -> (r: Expr)
    ensures
        r == lit_of(Const::Uint32(x)),
{
    lit(x)
}

/// Relies on polars's `lit` for `i32`.
#[verifier::external_body]
fn lit_i32(x: i32) -> (r: Expr)
    ensures
        r == lit_of(Const::Int32(x)),
{
    lit(x)
}

/// Relies on chrono's `NaiveDate::from_ymd_opt`, `NaiveTime::from_hms_opt`
/// and `NaiveDateTime::new`, and on polars's `lit` for `NaiveDateTime`:
/// the combined date-time literal is a function of the validated fields
/// alone.  The chrono constructors accept every field combination the
/// timestamp invariant admits.
#[verifier::external_body]
fn lit_timestamp(ts: &AxonTimestamp) -> (r: Expr)
    requires
        ts.wf(),
    ensures
        r == lit_of(Const::Timestamp(*ts)),
{
    let date = ts.date();
    let time = ts.time();
    let d = chrono::NaiveDate::from_ymd_opt(
        date.year() as i32,
        date.month() as u32,
        date.day() as u32,
    ).unwrap();
    let t = chrono::NaiveTime::from_hms_opt(
        time.hour() as u32,
        time.minute() as u32,
        time.second() as u32,
    ).unwrap();
    lit(chrono::NaiveDateTime::new(d, t))
}

/// Relies on polars's `Expr::eq`: the comparison node it builds
/// carries an operator tag distinct from the other five comparisons'.
#[verifier::external_body]
fn expr_eq(column: Expr, value: Expr) -> (r: Expr)
    ensures
        r == eq_expr(column, value),
        r != neq_expr(column, value),
        r != gt_expr(column, value),
        r != gt_eq_expr(column, value),
        r != lt_expr(column, value),
        r != lt_eq_expr(column, value),
{
    column.eq(value)
}

/// Relies on polars's `Expr::neq`: the comparison node it builds
/// carries an operator tag distinct from the other five comparisons'.
#[verifier::external_body]
fn expr_neq(column: Expr, value: Expr) -> (r: Expr)
    ensures
        r == neq_expr(column, value),
        r != eq_expr(column, value),
        r != gt_expr(column, value),
        r != gt_eq_expr(column, value),
        r != lt_expr(column, value),
        r != lt_eq_expr(column, value),
{
    column.neq(value)
}

/// Relies on polars's `Expr::gt`: the comparison node it builds
/// carries an operator tag distinct from the other five comparisons'.
#[verifier::external_body]
fn expr_gt(column: Expr, value: Expr) -> (r: Expr)
    ensures
        r == gt_expr(column, value),
        r != eq_expr(column, value),
        r != neq_expr(column, value),
        r != gt_eq_expr(column, value),
        r != lt_expr(column, value),
        r != lt_eq_expr(column, value),
{
    column.gt(value)
}

/// Relies on polars's `Expr::gt_eq`: the comparison node it builds
/// carries an operator tag distinct from the other five comparisons'.
#[verifier::external_body]
fn expr_gt_eq(column: Expr, value: Expr) -> (r: Expr)
    ensures
        r == gt_eq_expr(column, value),
        r != eq_expr(column, value),
        r != neq_expr(column, value),
        r != gt_expr(column, value),
        r != lt_expr(column, value),
        r != lt_eq_expr(column, value),
{
    column.gt_eq(value)
}

/// Relies on polars's `Expr::lt`: the comparison node it builds
/// carries an operator tag distinct from the other five comparisons'.
#[verifier::external_body]
fn expr_lt(column: Expr, value: Expr) -> (r: Expr)
    ensures
        r == lt_expr(column, value),
        r != eq_expr(column, value),
        r != neq_expr(column, value),
        r != gt_expr(column, value),
        r != gt_eq_expr(column, value),
        r != lt_eq_expr(column, value),
{
    column.lt(value)
}

/// Relies on polars's `Expr::lt_eq`: the comparison node it builds
/// carries an operator tag distinct from the other five comparisons'.
#[verifier::external_body]
fn expr_lt_eq(column: Expr, value: Expr) -> (r: Expr)
    ensures
        r == lt_eq_expr(column, value),
        r != eq_expr(column, value),
        r != neq_expr(column, value),
        r != gt_expr(column, value),
        r != gt_eq_expr(column, value),
        r != lt_expr(column, value),
{
    column.lt_eq(value)
}

/// Relies on polars's `LazyFrame::filter`: the narrowed query is a
/// function of the running query and the predicate.
#[verifier::external_body]
fn apply_filter(frame: LazyFrame, predicate: Expr) -> (r: LazyFrame)
    ensures
        r == filtered_frame(frame, predicate),
{
    frame.filter(predicate)
}

/// Whether the backend lowering covers the literal a filter carries.
/// Float literals are carried in the model as bit patterns only and
/// have no lowering here; every other literal kind is covered.
pub open spec fn spec_filter_lowerable(f: Filter) -> bool {
    !(f.spec_value() matches Const::Float32(_))
}

/// Whether every node of a chain can be lowered.
pub open spec fn spec_chain_lowerable(e: Expression) -> bool
    decreases e,
{
    match e {
        Expression::FilterValue(f, next) => spec_filter_lowerable(f) && match *next {
            Option::Some(rest) => spec_chain_lowerable(rest),
            Option::None => true,
        },
    }
}

/// The predicate a filter node lowers to: the comparison selected by
/// the operator, applied to the column reference and the literal.  Each
/// of the six operators selects exactly one backend comparison.
pub open spec fn spec_filter_expr(f: Filter) -> Expr {
    let column = col_expr(spec_column_name(f.spec_column()));
    let value = lit_of(f.spec_value());
    match f.spec_op() {
        Operator::Eq => eq_expr(column, value),
        Operator::NotEq => neq_expr(column, value),
        Operator::Gt => gt_expr(column, value),
        Operator::GtEq => gt_eq_expr(column, value),
        Operator::Lt => lt_expr(column, value),
        Operator::LtEq => lt_eq_expr(column, value),
    }
}

/// What a whole chain compiles to over a base table: each node narrows
/// the query produced by the nodes before it, in chain order, until the
/// terminal absent link.
pub open spec fn spec_lower_chain(frame: LazyFrame, e: Expression) -> LazyFrame
    decreases e,
{
    match e {
        Expression::FilterValue(f, next) => {
            let narrowed = filtered_frame(frame, spec_filter_expr(f));
            match *next {
                Option::Some(rest) => spec_lower_chain(narrowed, rest),
                Option::None => narrowed,
            }
        },
    }
}

/// Lowers one literal operand to the backend literal expression, or
/// reports absence for the one literal kind this lowering does not
/// cover.
pub fn translate_const(value: &Const) -> (r: Option<Expr>)
    ensures
        r is Some <==> !(value matches Const::Float32(_)),
        r matches Some(e) ==> e == lit_of(*value),
{
    match value {
        Const::Null => Some(lit_null()),
        Const::Boolean(x) => Some(lit_bool(*x)),
        Const::String(x) => Some(lit_string(x)),
        Const::Uint32(x) => Some(lit_u32(*x)),
        Const::Int32(x) => Some(lit_i32(*x)),
        Const::Float32(_) => None,
        Const::Timestamp(x) => {
            proof {
                use_type_invariant(*x);
            }
            Some(lit_timestamp(x))
        },
    }
}

/// Lowers one filter node to its backend predicate, or reports absence
/// when its literal has no lowering.  The operator mapping is total and
/// injective: each operator selects its own backend comparison, and for
/// the same column and literal no two operators produce the same
/// predicate.
pub fn translate_filter(filter: &Filter) -> (r: Option<Expr>)
    ensures
        r is Some <==> spec_filter_lowerable(*filter),
        r matches Some(e) ==> e == spec_filter_expr(*filter),
        r matches Some(e) ==> forall|g: Filter|
            g.column == filter.column && g.value == filter.value && g.op != filter.op
                ==> e != #[trigger] spec_filter_expr(g),
{
    let column = col_of(filter.column.name());
    let value = match translate_const(&filter.value) {
        Option::Some(v) => v,
        Option::None => {
            return None;
        },
    };
    let e = match filter.op {
        Operator::Eq => expr_eq(column, value),
        Operator::NotEq => expr_neq(column, value),
        Operator::Gt => expr_gt(column, value),
        Operator::GtEq => expr_gt_eq(column, value),
        Operator::Lt => expr_lt(column, value),
        Operator::LtEq => expr_lt_eq(column, value),
    };
    Some(e)
}

impl DataSource {
    /// Lowers the chain onto an already resolved base table.  An absent
    /// table yields an absent result whatever the chain holds; a present
    /// one compiles to the full fold of the chain over it, in chain
    /// order, unless some node's literal has no lowering.
    pub fn translate_resolved(&self, base: Option<LazyFrame>) -> (r: Option<LazyFrame>)
        ensures
            base is None ==> r is None,
            base matches Some(frame) ==> {
                &&& r is Some <==> spec_chain_lowerable(self.spec_expression())
                &&& spec_chain_lowerable(self.spec_expression()) ==> r == Some(
                    spec_lower_chain(frame, self.spec_expression()),
                )
            },
    {
        let ghost base0 = base;
        let mut current = match base {
            Option::Some(frame) => frame,
            Option::None => {
                return None;
            },
        };
        let mut node: &Expression = &*self.exp;
        loop
            invariant
                base == base0,
                base0 is Some,
                spec_chain_lowerable(self.spec_expression()) <==> spec_chain_lowerable(*node),
                spec_chain_lowerable(*node) ==> spec_lower_chain(
                    base0->Some_0,
                    self.spec_expression(),
                ) == spec_lower_chain(current, *node),
            decreases *node,
        {
            match node {
                Expression::FilterValue(filter, next) => {
                    let predicate = match translate_filter(filter) {
                        Option::Some(p) => p,
                        Option::None => {
                            return None;
                        },
                    };
                    current = apply_filter(current, predicate);
                    match &**next {
                        Option::Some(rest) => {
                            node = rest;
                        },
                        Option::None => {
                            return Some(current);
                        },
                    }
                },
            }
        }
    }
}

/// Translate an expression chain into a polars `LazyFrame`.  What the
/// provider hands back is the host's business; whatever it was, a
/// present result is the full in-order fold of this chain over some
/// base table, and comes only for chains whose literals all lower.
impl Translate<LazyFrame> for DataSource {
    fn translate<P: DataProvider>(&self, data_provider: &P) -> (r: Option<LazyFrame>)
        ensures
            r is Some ==> spec_chain_lowerable(self.spec_expression()),
            r matches Some(q) ==> exists|frame: LazyFrame|
                q == spec_lower_chain(frame, self.spec_expression()),
    {
        let base = data_provider.retrieve_feature_data(self.feature_name.as_str());
        let r = self.translate_resolved(base);
        proof {
            if r is Some {
                assert(r->Some_0 == spec_lower_chain(base->Some_0, self.spec_expression()));
            }
        }
        r
    }
}

/// A chain with exactly one node and an absent link compiles to the
/// base table with only that node's filter applied.
pub proof fn lemma_single_node_chain(base: LazyFrame, f: Filter, link: Arc<Option<Expression>>)
    requires
        *link is None,
    ensures
        spec_lower_chain(base, Expression::FilterValue(f, link)) == filtered_frame(
            base,
            spec_filter_expr(f),
        ),
{
}

/// Chain composition is sequential narrowing: a chain of two filters
/// compiles to the first applied to the base table and the second
/// applied to that result, in chain order — never the other order, and
/// never only one of them.
pub proof fn lemma_chain_composes_in_order(
    base: LazyFrame,
    f1: Filter,
    f2: Filter,
    tail: Arc<Option<Expression>>,
    link: Arc<Option<Expression>>,
)
    requires
        *link is None,
        *tail == Some(Expression::FilterValue(f2, link)),
    ensures
        spec_lower_chain(base, Expression::FilterValue(f1, tail)) == filtered_frame(
            filtered_frame(base, spec_filter_expr(f1)),
            spec_filter_expr(f2),
        ),
{
    let narrowed = filtered_frame(base, spec_filter_expr(f1));
    assert(spec_lower_chain(base, Expression::FilterValue(f1, tail)) == spec_lower_chain(
        narrowed,
        Expression::FilterValue(f2, link),
    ));
}

} // verus!
