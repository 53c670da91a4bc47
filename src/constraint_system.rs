use vstd::prelude::*;

use crate::column::{Any, Column, Rotation};
use crate::error::Error;
use crate::expression::{evaluate, queries_only, Expression};
use crate::gate::{Gate, GateModel};

verus! {

/// Largest number of columns of one kind that a builder hands out.
pub const MAX_COLUMNS_PER_KIND: usize = 65536;

/// Largest number of gates that a builder registers.
pub const MAX_GATES: usize = 65536;

/// The shape of a constraint system as plain values.
pub struct CsModel<F> {
    pub num_advice: nat,
    pub num_fixed: nat,
    pub num_instance: nat,
    /// Columns enrolled in the equality argument, in enrolment order.
    pub equality: Seq<Column>,
    /// Registered gates, in registration order.
    pub gates: Seq<GateModel<F>>,
    /// Configuration has finished: the builder takes no more declarations.
    pub frozen: bool,
}

impl<F> CsModel<F> {
    /// The shape of a fresh builder.
    pub open spec fn empty() -> CsModel<F> {
        CsModel {
            num_advice: 0,
            num_fixed: 0,
            num_instance: 0,
            equality: Seq::empty(),
            gates: Seq::empty(),
            frozen: false,
        }
    }

    /// Number of columns of kind `kind` allocated so far.
    pub open spec fn count(self, kind: Any) -> nat {
        match kind {
            Any::Advice => self.num_advice,
            Any::Fixed => self.num_fixed,
            Any::Instance => self.num_instance,
        }
    }

    /// The column was handed out by this builder.
    pub open spec fn is_allocated(self, col: Column) -> bool {
        col.index < self.count(col.column_type)
    }

    /// Every column that `e` queries was handed out by this builder.
    pub open spec fn references_allocated(self, e: Expression<F>) -> bool {
        queries_only(e, |c: Column| self.is_allocated(c))
    }

    /// Counts within their limits, the equality set free of duplicates and
    /// made of allocated columns, and every gate querying only allocated
    /// columns.
    pub open spec fn wf(self) -> bool {
        &&& self.num_advice <= MAX_COLUMNS_PER_KIND
        &&& self.num_fixed <= MAX_COLUMNS_PER_KIND
        &&& self.num_instance <= MAX_COLUMNS_PER_KIND
        &&& self.gates.len() <= MAX_GATES
        &&& self.equality.no_duplicates()
        &&& forall|i: int| 0 <= i < self.equality.len() ==> self.is_allocated(#[trigger] self.equality[i])
        &&& forall|i: int, j: int|
            0 <= i < self.gates.len() && 0 <= j < self.gates[i].polys.len()
                ==> self.references_allocated(#[trigger] self.gates[i].polys[j])
    }

    /// The same shape with `n` columns of kind `kind`.
    pub open spec fn with_count(self, kind: Any, n: nat) -> CsModel<F> {
        match kind {
            Any::Advice => CsModel { num_advice: n, ..self },
            Any::Fixed => CsModel { num_fixed: n, ..self },
            Any::Instance => CsModel { num_instance: n, ..self },
        }
    }

    /// Outcome of allocating a column of kind `kind`: the next index of that
    /// kind, unless the builder is frozen or the kind is full.
    pub open spec fn allocate(self, kind: Any) -> (CsModel<F>, Result<Column, Error>) {
        if self.frozen {
            (self, Err(Error::ConfigurationContractViolation))
        } else if self.count(kind) >= MAX_COLUMNS_PER_KIND {
            (self, Err(Error::CapacityExceeded))
        } else {
            (
                self.with_count(kind, self.count(kind) + 1),
                Ok(Column { index: self.count(kind) as usize, column_type: kind }),
            )
        }
    }

    /// The equality set after enrolling `col`: enrolling a column twice
    /// leaves a single entry.
    pub open spec fn enrol(self, col: Column) -> Seq<Column> {
        if self.equality.contains(col) {
            self.equality
        } else {
            self.equality.push(col)
        }
    }

    /// Outcome of enrolling `col` in the equality argument.
    pub open spec fn enable_equality(self, col: Column) -> (CsModel<F>, Result<(), Error>) {
        if self.frozen || !self.is_allocated(col) {
            (self, Err(Error::ConfigurationContractViolation))
        } else {
            (CsModel { equality: self.enrol(col), ..self }, Ok(()))
        }
    }

    /// Outcome of querying `col` at `rot` as a column of kind `kind`.
    pub open spec fn query(self, kind: Any, col: Column, rot: Rotation) -> Result<Expression<F>, Error> {
        if self.frozen || col.column_type != kind || !self.is_allocated(col) {
            Err(Error::ConfigurationContractViolation)
        } else {
            Ok(Expression::Query(col, rot))
        }
    }

    /// Outcome of registering a gate named `name` with expressions `polys`.
    pub open spec fn create_gate(self, name: Seq<char>, polys: Seq<Expression<F>>) -> (CsModel<F>, Result<(), Error>) {
        if self.frozen || exists|j: int| 0 <= j < polys.len() && !self.references_allocated(#[trigger] polys[j]) {
            (self, Err(Error::ConfigurationContractViolation))
        } else if self.gates.len() >= MAX_GATES {
            (self, Err(Error::CapacityExceeded))
        } else {
            (CsModel { gates: self.gates.push(GateModel { name, polys }), ..self }, Ok(()))
        }
    }
}

/// A query that holds for one builder holds for any builder with at least
/// as many columns of each kind.
pub proof fn lemma_references_allocated_grows<F>(e: Expression<F>, m: CsModel<F>, n: CsModel<F>)
    requires
        m.references_allocated(e),
        m.num_advice <= n.num_advice,
        m.num_fixed <= n.num_fixed,
        m.num_instance <= n.num_instance,
    ensures
        n.references_allocated(e),
    decreases e,
{
    match e {
        Expression::Constant(_) => {},
        Expression::Query(_, _) => {},
        Expression::Sum(a, b) => {
            lemma_references_allocated_grows(*a, m, n);
            lemma_references_allocated_grows(*b, m, n);
        },
        Expression::Product(a, b) => {
            lemma_references_allocated_grows(*a, m, n);
            lemma_references_allocated_grows(*b, m, n);
        },
        Expression::Scaled(a, _) => {
            lemma_references_allocated_grows(*a, m, n);
        },
    }
}

/// Outcome of allocating one column of each kind in `kinds`, in order: the
/// final shape and the result of each call.
pub open spec fn allocate_all<F>(m: CsModel<F>, kinds: Seq<Any>) -> (CsModel<F>, Seq<Result<Column, Error>>)
    decreases kinds.len(),
{
    if kinds.len() == 0 {
        (m, Seq::empty())
    } else {
        let (before, results) = allocate_all(m, kinds.drop_last());
        let (after, r) = before.allocate(kinds.last());
        (after, results.push(r))
    }
}

/// For every sequence of allocation calls, each column handed out has the
/// kind asked for and an index that no earlier builder state had used, and
/// within each kind the indices strictly increase.
pub proof fn lemma_allocation_indices_increase<F>(m: CsModel<F>, kinds: Seq<Any>)
    ensures
        allocate_all(m, kinds).1.len() == kinds.len(),
        forall|i: int| #![trigger allocate_all(m, kinds).1[i]]
            0 <= i < kinds.len() && allocate_all(m, kinds).1[i] is Ok ==> {
                let col = allocate_all(m, kinds).1[i]->Ok_0;
                &&& col.column_type == kinds[i]
                &&& m.count(kinds[i]) <= col.index
                &&& col.index < allocate_all(m, kinds).0.count(kinds[i])
            },
        forall|i: int, j: int|
            0 <= i < j < kinds.len() && kinds[i] == kinds[j]
                && #[trigger] allocate_all(m, kinds).1[i] is Ok
                && #[trigger] allocate_all(m, kinds).1[j] is Ok
                ==> allocate_all(m, kinds).1[i]->Ok_0.index < allocate_all(m, kinds).1[j]->Ok_0.index,
        forall|kind: Any| m.count(kind) <= #[trigger] allocate_all(m, kinds).0.count(kind),
    decreases kinds.len(),
{
    if kinds.len() > 0 {
        let prefix = kinds.drop_last();
        lemma_allocation_indices_increase(m, prefix);
        let (before, results) = allocate_all(m, prefix);
        let (after, r) = before.allocate(kinds.last());
        let rs = results.push(r);
        assert(allocate_all(m, kinds) == (after, rs));
        assert forall|kind: Any| before.count(kind) <= #[trigger] after.count(kind) by {}
        assert forall|i: int| 0 <= i < prefix.len() implies #[trigger] rs[i] == results[i] && kinds[i] == prefix[i] by {}
    }
}

/// A query accepted by the builder evaluates, for any witness, to the value
/// of its column `rot` rows away from the row being constrained: the current
/// row for rotation 0, the next row for 1, the previous row for -1.
pub proof fn lemma_query_evaluates<F>(
    m: CsModel<F>,
    kind: Any,
    col: Column,
    rot: Rotation,
    row: int,
    cell: spec_fn(Column, int) -> F,
    plus: spec_fn(F, F) -> F,
    times: spec_fn(F, F) -> F,
)
    requires
        m.query(kind, col, rot) is Ok,
    ensures
        ({
            let v = evaluate(m.query(kind, col, rot)->Ok_0, row, cell, plus, times);
            &&& v == cell(col, row + rot.0)
            &&& rot.0 == 0 ==> v == cell(col, row)
            &&& rot.0 == 1 ==> v == cell(col, row + 1)
            &&& rot.0 == -1 ==> v == cell(col, row - 1)
        }),
{
}

/// Outcome of enrolling `col` `n` times in a row: the final shape and the
/// result of the last call.
pub open spec fn enable_equality_times<F>(m: CsModel<F>, col: Column, n: nat) -> (CsModel<F>, Result<(), Error>)
    decreases n,
{
    if n <= 1 {
        m.enable_equality(col)
    } else {
        enable_equality_times(m, col, (n - 1) as nat).0.enable_equality(col)
    }
}

/// Enrolling a column N >= 1 times gives the same equality set, and the same
/// result, as enrolling it once.
pub proof fn lemma_enable_equality_idempotent<F>(m: CsModel<F>, col: Column, n: nat)
    requires
        n >= 1,
    ensures
        enable_equality_times(m, col, n) == m.enable_equality(col),
    decreases n,
{
    if n > 1 {
        lemma_enable_equality_idempotent(m, col, (n - 1) as nat);
        let once = m.enable_equality(col);
        if once.1 is Ok {
            assert(once.0.equality.contains(col)) by {
                if !m.equality.contains(col) {
                    assert(m.equality.push(col)[m.equality.len() as int] == col);
                }
            }
            assert(once.0.enrol(col) == once.0.equality);
            assert(once.0.enable_equality(col).0 == once.0);
        }
    }
}

/// The gates of `m` query only columns that `k` has allocated, where `k`
/// has the same gates and at least as many columns of each kind.
pub proof fn lemma_gates_stay_allocated<F>(m: CsModel<F>, k: CsModel<F>)
    requires
        m.wf(),
        k.gates == m.gates,
        m.num_advice <= k.num_advice,
        m.num_fixed <= k.num_fixed,
        m.num_instance <= k.num_instance,
    ensures
        forall|i: int, j: int|
            0 <= i < k.gates.len() && 0 <= j < k.gates[i].polys.len()
                ==> k.references_allocated(#[trigger] k.gates[i].polys[j]),
{
    assert forall|i: int, j: int|
        0 <= i < k.gates.len() && 0 <= j < k.gates[i].polys.len()
            implies k.references_allocated(#[trigger] k.gates[i].polys[j]) by {
        lemma_references_allocated_grows(m.gates[i].polys[j], m, k);
    }
}

/// The constraint-system builder that a circuit declares its shape against.
/// It owns the allocated columns, the equality set and the gates.
pub struct ConstraintSystem<F> {
    num_advice: usize,
    num_fixed: usize,
    num_instance: usize,
    equality: Vec<Column>,
    gates: Vec<Gate<F>>,
    frozen: bool,
}

impl<F> View for ConstraintSystem<F> {
    type V = CsModel<F>;

    closed spec fn view(&self) -> CsModel<F> {
        CsModel {
            num_advice: self.num_advice as nat,
            num_fixed: self.num_fixed as nat,
            num_instance: self.num_instance as nat,
            equality: self.equality@,
            gates: self.gates@.map_values(|g: Gate<F>| g@),
            frozen: self.frozen,
        }
    }
}

impl<F> ConstraintSystem<F> {
    /// Well-formedness of the builder.
    pub open spec fn wf(&self) -> bool {
        self@.wf()
    }

    /// A fresh builder, with no columns, gates or enrolled columns.
    pub fn new() -> (r: ConstraintSystem<F>)
        ensures
            r@ == CsModel::<F>::empty(),
            r.wf(),
    {
        let r = ConstraintSystem {
            num_advice: 0,
            num_fixed: 0,
            num_instance: 0,
            equality: Vec::new(),
            gates: Vec::new(),
            frozen: false,
        };
        assert(r@.equality =~= Seq::<Column>::empty());
        assert(r@.gates =~= Seq::<GateModel<F>>::empty());
        r
    }

    /// Number of columns of kind `kind` allocated so far.
    pub fn num_columns(&self, kind: Any) -> (r: usize)
        ensures
            r == self@.count(kind),
    {
        match kind {
            Any::Advice => self.num_advice,
            Any::Fixed => self.num_fixed,
            Any::Instance => self.num_instance,
        }
    }

    /// Whether configuration has finished on this builder.
    pub fn is_frozen(&self) -> (r: bool)
        ensures
            r == self@.frozen,
    {
        self.frozen
    }

    /// Whether `col` was handed out by this builder.
    pub fn is_allocated(&self, col: Column) -> (r: bool)
        ensures
            r == self@.is_allocated(col),
    {
        col.index < self.num_columns(col.column_type)
    }

    /// Allocates a column of kind `kind`, with the next index of that kind.
    pub fn allocate_column(&mut self, kind: Any) -> (r: Result<Column, Error>)
        requires
            old(self).wf(),
        ensures
            final(self).wf(),
            (final(self)@, r) == old(self)@.allocate(kind),
    {
        if self.frozen {
            return Err(Error::ConfigurationContractViolation);
        }
        let n = self.num_columns(kind);
        if n >= MAX_COLUMNS_PER_KIND {
            return Err(Error::CapacityExceeded);
        }
        match kind {
            Any::Advice => self.num_advice = n + 1,
            Any::Fixed => self.num_fixed = n + 1,
            Any::Instance => self.num_instance = n + 1,
        }
        proof {
            let m = old(self)@;
            let k = final(self)@;
            lemma_gates_stay_allocated(m, k);
            assert(k == m.with_count(kind, m.count(kind) + 1));
        }
        Ok(Column { index: n, column_type: kind })
    }

    /// Allocates a witness column.
    pub fn advice_column(&mut self) -> (r: Result<Column, Error>)
        requires
            old(self).wf(),
        ensures
            final(self).wf(),
            (final(self)@, r) == old(self)@.allocate(Any::Advice),
    {
        self.allocate_column(Any::Advice)
    }

    /// Allocates a fixed column.
    pub fn fixed_column(&mut self) -> (r: Result<Column, Error>)
        requires
            old(self).wf(),
        ensures
            final(self).wf(),
            (final(self)@, r) == old(self)@.allocate(Any::Fixed),
    {
        self.allocate_column(Any::Fixed)
    }

    /// Allocates a public-input column.
    pub fn instance_column(&mut self) -> (r: Result<Column, Error>)
        requires
            old(self).wf(),
        ensures
            final(self).wf(),
            (final(self)@, r) == old(self)@.allocate(Any::Instance),
    {
        self.allocate_column(Any::Instance)
    }

    /// Whether `col` is enrolled in the equality argument.
    pub fn is_enrolled(&self, col: Column) -> (r: bool)
        ensures
            r == self@.equality.contains(col),
    {
        let mut i: usize = 0;
        while i < self.equality.len()
            invariant
                0 <= i <= self.equality@.len(),
                forall|j: int| 0 <= j < i ==> self.equality@[j] != col,
            decreases self.equality@.len() - i,
        {
            if self.equality[i] == col {
                assert(self.equality@[i as int] == col);
                return true;
            }
            i += 1;
        }
        false
    }

    /// Enrols `col` in the equality argument, so that copy constraints may
    /// target it. Enrolling a column again changes nothing.
    pub fn enable_equality(&mut self, col: Column) -> (r: Result<(), Error>)
        requires
            old(self).wf(),
        ensures
            final(self).wf(),
            (final(self)@, r) == old(self)@.enable_equality(col),
    {
        if self.frozen || !self.is_allocated(col) {
            return Err(Error::ConfigurationContractViolation);
        }
        if !self.is_enrolled(col) {
            self.equality.push(col);
            proof {
                let m = old(self)@;
                let k = final(self)@;
                assert forall|i: int, j: int| 0 <= i < j < k.equality.len()
                    implies k.equality[i] != k.equality[j] by {
                    if j == k.equality.len() - 1 {
                        assert(m.equality[i] != col);
                    }
                }
                assert forall|i: int| 0 <= i < k.equality.len()
                    implies k.is_allocated(#[trigger] k.equality[i]) by {
                    if i < m.equality.len() {
                        assert(k.equality[i] == m.equality[i]);
                    }
                }
                lemma_gates_stay_allocated(m, k);
                assert(k.equality == m.enrol(col));
            }
        }
        proof {
            assert(final(self)@ == CsModel { equality: old(self)@.enrol(col), ..old(self)@ });
        }
        Ok(())
    }

    /// A query of `col` at `rot` as a witness column.
    pub fn query_advice(&self, col: Column, rot: Rotation) -> (r: Result<Expression<F>, Error>)
        ensures
            r == self@.query(Any::Advice, col, rot),
    {
        self.query_any(Any::Advice, col, rot)
    }

    /// A query of `col` at `rot` as a fixed column.
    pub fn query_fixed(&self, col: Column, rot: Rotation) -> (r: Result<Expression<F>, Error>)
        ensures
            r == self@.query(Any::Fixed, col, rot),
    {
        self.query_any(Any::Fixed, col, rot)
    }

    /// A query of `col` at `rot` as a public-input column.
    pub fn query_instance(&self, col: Column, rot: Rotation) -> (r: Result<Expression<F>, Error>)
        ensures
            r == self@.query(Any::Instance, col, rot),
    {
        self.query_any(Any::Instance, col, rot)
    }

    /// A query of `col` at `rot`, accepted only where `col` is an allocated
    /// column of kind `kind`.
    pub fn query_any(&self, kind: Any, col: Column, rot: Rotation) -> (r: Result<Expression<F>, Error>)
        ensures
            r == self@.query(kind, col, rot),
    {
        if self.frozen || col.column_type != kind || !self.is_allocated(col) {
            Err(Error::ConfigurationContractViolation)
        } else {
            Ok(Expression::Query(col, rot))
        }
    }

    /// Registers a gate named `name` whose expressions `polys` must all
    /// vanish. The expressions are those a gate builder produced from
    /// this system's queries; an empty sequence registers a gate that always
    /// holds. Expressions that query a column this builder never handed out
    /// are refused.
    pub fn create_gate(&mut self, name: String, polys: Vec<Expression<F>>) -> (r: Result<(), Error>)
        requires
            old(self).wf(),
        ensures
            final(self).wf(),
            (final(self)@, r) == old(self)@.create_gate(name@, polys@),
    {
        if self.frozen {
            return Err(Error::ConfigurationContractViolation);
        }
        let mut j: usize = 0;
        while j < polys.len()
            invariant
                0 <= j <= polys@.len(),
                self@ == old(self)@,
                self.wf(),
                forall|k: int| 0 <= k < j ==> self@.references_allocated(#[trigger] polys@[k]),
            decreases polys@.len() - j,
        {
            if !self.references_allocated(&polys[j]) {
                return Err(Error::ConfigurationContractViolation);
            }
            j += 1;
        }
        if self.gates.len() >= MAX_GATES {
            return Err(Error::CapacityExceeded);
        }
        let ghost gate_model = GateModel { name: name@, polys: polys@ };
        self.gates.push(Gate { name, polys });
        proof {
            let m = old(self)@;
            let k = final(self)@;
            assert(k.gates =~= m.gates.push(gate_model));
            assert forall|i: int, j: int|
                0 <= i < k.gates.len() && 0 <= j < k.gates[i].polys.len()
                    implies k.references_allocated(#[trigger] k.gates[i].polys[j]) by {
                if i < m.gates.len() {
                    assert(k.gates[i] == m.gates[i]);
                }
                lemma_references_allocated_grows(k.gates[i].polys[j], m, k);
            }
        }
        Ok(())
    }

    /// Ends configuration: afterwards the builder refuses every declaration
    /// and query.
    pub fn freeze(&mut self)
        requires
            old(self).wf(),
        ensures
            final(self).wf(),
            final(self)@ == (CsModel { frozen: true, ..old(self)@ }),
    {
        self.frozen = true;
        proof {
            lemma_gates_stay_allocated(old(self)@, final(self)@);
        }
    }

    /// The columns enrolled in the equality argument, in enrolment order.
    pub fn equality_columns(&self) -> (r: &Vec<Column>)
        ensures
            r@ == self@.equality,
    {
        &self.equality
    }

    /// Number of registered gates.
    pub fn num_gates(&self) -> (r: usize)
        ensures
            r == self@.gates.len(),
    {
        self.gates.len()
    }

    /// The registered gates, in registration order.
    pub fn gates(&self) -> (r: &Vec<Gate<F>>)
        ensures
            r@.map_values(|g: Gate<F>| g@) == self@.gates,
    {
        &self.gates
    }

    /// Whether every column that `e` queries was handed out by this builder.
    pub fn references_allocated(&self, e: &Expression<F>) -> (r: bool)
        ensures
            r == self@.references_allocated(*e),
        decreases e,
    {
        match e {
            Expression::Constant(_) => true,
            Expression::Query(c, _) => self.is_allocated(*c),
            Expression::Sum(a, b) => self.references_allocated(a) && self.references_allocated(b),
            Expression::Product(a, b) => self.references_allocated(a) && self.references_allocated(b),
            Expression::Scaled(a, _) => self.references_allocated(a),
        }
    }
}

} // verus!
