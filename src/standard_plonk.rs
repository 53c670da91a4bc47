use vstd::prelude::*;

use crate::column::{Any, Column, Rotation};
use crate::constraint_system::{ConstraintSystem, CsModel, MAX_COLUMNS_PER_KIND, MAX_GATES};
use crate::error::Error;
use crate::expression::Expression;
use crate::gate::GateModel;

verus! {

/// Name under which the standard gate is registered.
pub const STANDARD_GATE_NAME: &'static str = "q_a·a + q_b·b + q_c·c + q_ab·a·b + constant + instance = 0";

/// Columns of the standard PLONK circuit.
#[derive(Clone, Copy, Debug, PartialEq, Eq, Structural, Hash)]
pub struct StandardPlonkConfig {
    pub a: Column,
    pub b: Column,
    pub c: Column,
    pub q_a: Column,
    pub q_b: Column,
    pub q_c: Column,
    pub q_ab: Column,
    pub constant: Column,
    pub instance: Column,
}

/// The query of `col` at the current row.
pub open spec fn cur<F>(col: Column) -> Expression<F> {
    Expression::Query(col, Rotation(0))
}

/// `x + y` as a tree node.
pub open spec fn add_node<F>(x: Expression<F>, y: Expression<F>) -> Expression<F> {
    Expression::Sum(Box::new(x), Box::new(y))
}

/// `x * y` as a tree node.
pub open spec fn mul_node<F>(x: Expression<F>, y: Expression<F>) -> Expression<F> {
    Expression::Product(Box::new(x), Box::new(y))
}

/// The standard gate over the configuration's columns, all queried at the
/// current row: `q_a·a + q_b·b + q_c·c + q_ab·a·b + constant + instance`.
pub open spec fn standard_gate<F>(cfg: StandardPlonkConfig) -> Expression<F> {
    add_node(
        add_node(
            add_node(
                add_node(
                    add_node(mul_node(cur(cfg.q_a), cur(cfg.a)), mul_node(cur(cfg.q_b), cur(cfg.b))),
                    mul_node(cur(cfg.q_c), cur(cfg.c)),
                ),
                mul_node(mul_node(cur(cfg.q_ab), cur(cfg.a)), cur(cfg.b)),
            ),
            cur(cfg.constant),
        ),
        cur(cfg.instance),
    )
}

/// The configuration that the standard circuit gets from a builder of shape
/// `m`: the next three advice columns, the next five fixed columns and the
/// next instance column.
pub open spec fn standard_config<F>(m: CsModel<F>) -> StandardPlonkConfig {
    StandardPlonkConfig {
        a: Column { index: m.num_advice as usize, column_type: Any::Advice },
        b: Column { index: (m.num_advice + 1) as usize, column_type: Any::Advice },
        c: Column { index: (m.num_advice + 2) as usize, column_type: Any::Advice },
        q_a: Column { index: m.num_fixed as usize, column_type: Any::Fixed },
        q_b: Column { index: (m.num_fixed + 1) as usize, column_type: Any::Fixed },
        q_c: Column { index: (m.num_fixed + 2) as usize, column_type: Any::Fixed },
        q_ab: Column { index: (m.num_fixed + 3) as usize, column_type: Any::Fixed },
        constant: Column { index: (m.num_fixed + 4) as usize, column_type: Any::Fixed },
        instance: Column { index: m.num_instance as usize, column_type: Any::Instance },
    }
}

/// The builder has room for the standard circuit's columns and gate.
pub open spec fn has_room<F>(m: CsModel<F>) -> bool {
    &&& m.num_advice + 3 <= MAX_COLUMNS_PER_KIND
    &&& m.num_fixed + 5 <= MAX_COLUMNS_PER_KIND
    &&& m.num_instance + 1 <= MAX_COLUMNS_PER_KIND
    &&& m.gates.len() + 1 <= MAX_GATES
}

/// Outcome of configuring the standard circuit on a builder of shape `m`.
/// On success every column is enrolled in the equality argument, the fixed
/// columns first, then `a, b, c`, then the instance column; one gate is
/// registered and the builder is frozen. A failure leaves the builder as it
/// was.
pub open spec fn configure_outcome<F>(m: CsModel<F>) -> (CsModel<F>, Result<StandardPlonkConfig, Error>) {
    if m.frozen {
        (m, Err(Error::ConfigurationContractViolation))
    } else if !has_room(m) {
        (m, Err(Error::CapacityExceeded))
    } else {
        let cfg = standard_config(m);
        (
            CsModel {
                num_advice: m.num_advice + 3,
                num_fixed: m.num_fixed + 5,
                num_instance: m.num_instance + 1,
                equality: m.equality + seq![
                    cfg.q_a,
                    cfg.q_b,
                    cfg.q_c,
                    cfg.q_ab,
                    cfg.constant,
                    cfg.a,
                    cfg.b,
                    cfg.c,
                    cfg.instance,
                ],
                gates: m.gates.push(
                    GateModel { name: STANDARD_GATE_NAME@, polys: seq![standard_gate(cfg)] },
                ),
                frozen: true,
            },
            Ok(cfg),
        )
    }
}

impl StandardPlonkConfig {
    /// Declares the standard circuit on `meta`: three advice columns
    /// `a, b, c`, five fixed columns `q_a, q_b, q_c, q_ab, constant` and one
    /// instance column, all enrolled in the equality argument, and a gate
    /// `q_a·a + q_b·b + q_c·c + q_ab·a·b + constant + instance = 0`. The
    /// builder is frozen afterwards. Nothing is declared unless all of it
    /// fits.
    pub fn configure<F>(meta: &mut ConstraintSystem<F>) -> (r: Result<StandardPlonkConfig, Error>)
        requires
            old(meta).wf(),
        ensures
            final(meta).wf(),
            (final(meta)@, r) == configure_outcome(old(meta)@),
    {
        if meta.is_frozen() {
            return Err(Error::ConfigurationContractViolation);
        }
        if meta.num_columns(Any::Advice) > MAX_COLUMNS_PER_KIND - 3
            || meta.num_columns(Any::Fixed) > MAX_COLUMNS_PER_KIND - 5
            || meta.num_columns(Any::Instance) > MAX_COLUMNS_PER_KIND - 1
            || meta.num_gates() > MAX_GATES - 1
        {
            return Err(Error::CapacityExceeded);
        }
        let ghost m = meta@;
        let a = meta.advice_column()?;
        let b = meta.advice_column()?;
        let c = meta.advice_column()?;
        let q_a = meta.fixed_column()?;
        meta.enable_equality(q_a)?;
        let q_b = meta.fixed_column()?;
        meta.enable_equality(q_b)?;
        let q_c = meta.fixed_column()?;
        meta.enable_equality(q_c)?;
        let q_ab = meta.fixed_column()?;
        meta.enable_equality(q_ab)?;
        let constant = meta.fixed_column()?;
        meta.enable_equality(constant)?;
        let instance = meta.instance_column()?;
        meta.enable_equality(a)?;
        meta.enable_equality(b)?;
        meta.enable_equality(c)?;
        meta.enable_equality(instance)?;

        let cur = Rotation::cur();
        let gate = meta.query_fixed(q_a, cur)?.product(meta.query_advice(a, cur)?).sum(
            meta.query_fixed(q_b, cur)?.product(meta.query_advice(b, cur)?),
        ).sum(meta.query_fixed(q_c, cur)?.product(meta.query_advice(c, cur)?)).sum(
            meta.query_fixed(q_ab, cur)?.product(meta.query_advice(a, cur)?).product(
                meta.query_advice(b, cur)?,
            ),
        ).sum(meta.query_fixed(constant, cur)?).sum(meta.query_instance(instance, cur)?);
        let ghost cfg_spec = standard_config::<F>(m);
        proof {
            assert(gate == standard_gate::<F>(cfg_spec));
            reveal_with_fuel(crate::expression::queries_only, 8);
            assert(meta@.references_allocated(gate));
            assert forall|i: int| 0 <= i < m.equality.len()
                implies #[trigger] m.equality[i].index < m.count(m.equality[i].column_type) by {}
            assert(meta@.equality =~= m.equality + seq![
                cfg_spec.q_a,
                cfg_spec.q_b,
                cfg_spec.q_c,
                cfg_spec.q_ab,
                cfg_spec.constant,
                cfg_spec.a,
                cfg_spec.b,
                cfg_spec.c,
                cfg_spec.instance,
            ]);
        }
        let mut polys: Vec<Expression<F>> = Vec::new();
        polys.push(gate);
        meta.create_gate(STANDARD_GATE_NAME.to_owned(), polys)?;
        meta.freeze();

        let cfg = StandardPlonkConfig { a, b, c, q_a, q_b, q_c, q_ab, constant, instance };
        proof {
            assert(cfg == standard_config(m));
        }
        Ok(cfg)
    }
}

/// The standard PLONK circuit. It carries no witness data and serves only to
/// configure a builder, e.g. to recover a verification key's shape:
/// synthesis on it always fails with `Error::SynthesisMisuse`.
#[derive(Clone, Copy, Debug, PartialEq, Eq, Structural, Hash)]
pub struct StandardPlonk;

impl Default for StandardPlonk {
    fn default() -> (r: StandardPlonk)
        ensures
            r == StandardPlonk,
    {
        StandardPlonk
    }
}

impl StandardPlonk {
    /// The circuit's shape with no witness data bound.
    pub open spec fn stripped(self) -> StandardPlonk {
        StandardPlonk
    }

    /// The same circuit with no witness data bound. The circuit is
    /// stateless, so this is the circuit itself.
    pub fn without_witnesses(&self) -> (r: StandardPlonk)
        ensures
            r == self.stripped(),
            r == *self,
    {
        StandardPlonk
    }

    /// Declares the circuit's shape on `meta`; see
    /// `StandardPlonkConfig::configure`.
    pub fn configure<F>(meta: &mut ConstraintSystem<F>) -> (r: Result<StandardPlonkConfig, Error>)
        requires
            old(meta).wf(),
        ensures
            final(meta).wf(),
            (final(meta)@, r) == configure_outcome(old(meta)@),
    {
        StandardPlonkConfig::configure(meta)
    }

    /// Synthesis is not available on a configuration-only circuit: every call
    /// reports the misuse.
    pub fn synthesize(&self, _config: &StandardPlonkConfig) -> (r: Result<(), Error>)
        ensures
            r == Err::<(), Error>(Error::SynthesisMisuse),
    {
        Err(Error::SynthesisMisuse)
    }
}

/// Configuring on two fresh builders gives the same columns, equality set,
/// gates and configuration: the configuration whose columns are the first of
/// each kind.
pub proof fn lemma_configure_deterministic<F>(m1: CsModel<F>, m2: CsModel<F>)
    requires
        m1 == CsModel::<F>::empty(),
        m2 == CsModel::<F>::empty(),
    ensures
        configure_outcome(m1) == configure_outcome(m2),
        configure_outcome(m1).1 == Ok::<StandardPlonkConfig, Error>(standard_config(m1)),
{
}

/// Stripping the witnesses of a stateless circuit, once or again, gives the
/// circuit itself; configuration depends on the builder's shape alone, so the
/// stripped circuit configured on a builder of the same shape yields an
/// identical configuration and constraint system.
pub proof fn lemma_without_witnesses_configures_alike<F>(
    circuit: StandardPlonk,
    m1: CsModel<F>,
    m2: CsModel<F>,
)
    requires
        m1 == m2,
    ensures
        circuit.stripped() == circuit,
        circuit.stripped().stripped() == circuit,
        configure_outcome(m1) == configure_outcome(m2),
{
}

} // verus!
