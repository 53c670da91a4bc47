use vstd::prelude::*;

use crate::column::{Column, Rotation};

verus! {

/// A symbolic polynomial over column queries. Building one never evaluates
/// anything: each operation adds a node to the tree.
#[derive(Debug)]
pub enum Expression<F> {
    Constant(F),
    Query(Column, Rotation),
    Sum(Box<Expression<F>>, Box<Expression<F>>),
    Product(Box<Expression<F>>, Box<Expression<F>>),
    Scaled(Box<Expression<F>>, F),
}

impl<F> Expression<F> {
    /// The constant node `c`.
    pub fn constant(c: F) -> (r: Expression<F>)
        ensures
            r == Expression::Constant(c),
    {
        Expression::Constant(c)
    }

    /// The node `self + other`.
    pub fn sum(self, other: Expression<F>) -> (r: Expression<F>)
        ensures
            r == Expression::Sum(Box::new(self), Box::new(other)),
    {
        Expression::Sum(Box::new(self), Box::new(other))
    }

    /// The node `self * other`.
    pub fn product(self, other: Expression<F>) -> (r: Expression<F>)
        ensures
            r == Expression::Product(Box::new(self), Box::new(other)),
    {
        Expression::Product(Box::new(self), Box::new(other))
    }

    /// The node `self * scalar`.
    pub fn scale(self, scalar: F) -> (r: Expression<F>)
        ensures
            r == Expression::Scaled(Box::new(self), scalar),
    {
        Expression::Scaled(Box::new(self), scalar)
    }

    /// Whether this node is a query.
    pub fn is_query(&self) -> (r: bool)
        ensures
            r == (self is Query),
    {
        match self {
            Expression::Query(_, _) => true,
            _ => false,
        }
    }
}

/// Every column that the expression queries satisfies `p`.
pub open spec fn queries_only<F>(e: Expression<F>, p: spec_fn(Column) -> bool) -> bool
    decreases e,
{
    match e {
        Expression::Constant(_) => true,
        Expression::Query(c, _) => p(c),
        Expression::Sum(a, b) => queries_only(*a, p) && queries_only(*b, p),
        Expression::Product(a, b) => queries_only(*a, p) && queries_only(*b, p),
        Expression::Scaled(a, _) => queries_only(*a, p),
    }
}

/// Value of `e` on row `row`, where `cell(col, r)` is the witness value in
/// column `col` at row `r`, and `plus` and `times` are the field's addition and
/// multiplication. The evaluator is supplied from outside the algebra, which
/// itself never evaluates.
pub open spec fn evaluate<F>(
    e: Expression<F>,
    row: int,
    cell: spec_fn(Column, int) -> F,
    plus: spec_fn(F, F) -> F,
    times: spec_fn(F, F) -> F,
) -> F
    decreases e,
{
    match e {
        Expression::Constant(c) => c,
        Expression::Query(col, rot) => cell(col, row + rot.0),
        Expression::Sum(a, b) => plus(evaluate(*a, row, cell, plus, times), evaluate(*b, row, cell, plus, times)),
        Expression::Product(a, b) => times(
            evaluate(*a, row, cell, plus, times),
            evaluate(*b, row, cell, plus, times),
        ),
        Expression::Scaled(a, s) => times(evaluate(*a, row, cell, plus, times), s),
    }
}

} // verus!
