use vstd::prelude::*;

use crate::column::Column;
use crate::expression::{evaluate, Expression};

verus! {

/// A named sequence of expressions that must all vanish on every active row.
/// Names are diagnostic labels only and need not be unique.
#[derive(Debug)]
pub struct Gate<F> {
    pub name: String,
    pub polys: Vec<Expression<F>>,
}

/// What a gate is, as plain values.
pub struct GateModel<F> {
    pub name: Seq<char>,
    pub polys: Seq<Expression<F>>,
}

impl<F> View for Gate<F> {
    type V = GateModel<F>;

    open spec fn view(&self) -> GateModel<F> {
        GateModel { name: self.name@, polys: self.polys@ }
    }
}

impl<F> Gate<F> {
    /// Name of this gate.
    pub fn name(&self) -> (r: &str)
        ensures
            r@ == self.name@,
    {
        self.name.as_str()
    }

    /// Expressions of this gate, in registration order.
    pub fn polynomials(&self) -> (r: &Vec<Expression<F>>)
        ensures
            r@ == self.polys@,
    {
        &self.polys
    }
}

/// Gate `g` holds on row `row`: each of its expressions evaluates to `zero`.
pub open spec fn gate_satisfied<F>(
    g: GateModel<F>,
    row: int,
    cell: spec_fn(Column, int) -> F,
    plus: spec_fn(F, F) -> F,
    times: spec_fn(F, F) -> F,
    zero: F,
) -> bool {
    forall|i: int| 0 <= i < g.polys.len() ==> #[trigger] evaluate(g.polys[i], row, cell, plus, times) == zero
}

/// A gate with no expressions is satisfied on every row, whatever the witness.
pub proof fn lemma_empty_gate_satisfied<F>(
    g: GateModel<F>,
    row: int,
    cell: spec_fn(Column, int) -> F,
    plus: spec_fn(F, F) -> F,
    times: spec_fn(F, F) -> F,
    zero: F,
)
    requires
        g.polys.len() == 0,
    ensures
        gate_satisfied(g, row, cell, plus, times, zero),
{
}

} // verus!
