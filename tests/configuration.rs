use plonk_config::column::{Any, Column, Rotation};
use plonk_config::constraint_system::{ConstraintSystem, MAX_COLUMNS_PER_KIND};
use plonk_config::error::Error;
use plonk_config::expression::Expression;
use plonk_config::standard_plonk::{StandardPlonk, StandardPlonkConfig, STANDARD_GATE_NAME};

fn col(index: usize, column_type: Any) -> Column {
    Column { index, column_type }
}

#[test]
fn standard_plonk_configures_nine_columns() {
    let mut cs: ConstraintSystem<u64> = ConstraintSystem::new();
    let cfg = StandardPlonk::configure(&mut cs).unwrap();
    assert_eq!(cfg.a, col(0, Any::Advice));
    assert_eq!(cfg.b, col(1, Any::Advice));
    assert_eq!(cfg.c, col(2, Any::Advice));
    assert_eq!(cfg.q_a, col(0, Any::Fixed));
    assert_eq!(cfg.q_b, col(1, Any::Fixed));
    assert_eq!(cfg.q_c, col(2, Any::Fixed));
    assert_eq!(cfg.q_ab, col(3, Any::Fixed));
    assert_eq!(cfg.constant, col(4, Any::Fixed));
    assert_eq!(cfg.instance, col(0, Any::Instance));
    assert_eq!(cs.num_columns(Any::Advice), 3);
    assert_eq!(cs.num_columns(Any::Fixed), 5);
    assert_eq!(cs.num_columns(Any::Instance), 1);
    assert_eq!(cs.num_gates(), 1);
    assert_eq!(cs.gates()[0].name(), STANDARD_GATE_NAME);
    assert_eq!(cs.gates()[0].polynomials().len(), 1);
    assert_eq!(
        cs.equality_columns().clone(),
        vec![cfg.q_a, cfg.q_b, cfg.q_c, cfg.q_ab, cfg.constant, cfg.a, cfg.b, cfg.c, cfg.instance]
    );
    assert!(cs.is_frozen());
    assert_eq!(StandardPlonk.synthesize(&cfg), Err(Error::SynthesisMisuse));
}

#[test]
fn standard_gate_has_expected_tree() {
    let mut cs: ConstraintSystem<u64> = ConstraintSystem::new();
    let cfg = StandardPlonk::configure(&mut cs).unwrap();
    let poly = &cs.gates()[0].polynomials()[0];
    // ((((q_a*a + q_b*b) + q_c*c) + (q_ab*a)*b) + constant) + instance
    let (rest, instance) = match poly {
        Expression::Sum(x, y) => (x, y),
        _ => panic!("top node is not a sum"),
    };
    assert!(matches!(**instance, Expression::Query(c, Rotation(0)) if c == cfg.instance));
    let (rest, constant) = match &**rest {
        Expression::Sum(x, y) => (x, y),
        _ => panic!("expected a sum"),
    };
    assert!(matches!(**constant, Expression::Query(c, Rotation(0)) if c == cfg.constant));
    let (rest, abterm) = match &**rest {
        Expression::Sum(x, y) => (x, y),
        _ => panic!("expected a sum"),
    };
    match &**abterm {
        Expression::Product(x, y) => {
            assert!(matches!(**y, Expression::Query(c, Rotation(0)) if c == cfg.b));
            match &**x {
                Expression::Product(p, q) => {
                    assert!(matches!(**p, Expression::Query(c, Rotation(0)) if c == cfg.q_ab));
                    assert!(matches!(**q, Expression::Query(c, Rotation(0)) if c == cfg.a));
                }
                _ => panic!("expected a product"),
            }
        }
        _ => panic!("expected a product"),
    }
    assert!(matches!(**rest, Expression::Sum(_, _)));
}

#[test]
fn synthesize_always_reports_misuse() {
    let cfg = StandardPlonkConfig {
        a: col(7, Any::Advice),
        b: col(8, Any::Advice),
        c: col(9, Any::Advice),
        q_a: col(0, Any::Fixed),
        q_b: col(1, Any::Fixed),
        q_c: col(2, Any::Fixed),
        q_ab: col(3, Any::Fixed),
        constant: col(4, Any::Fixed),
        instance: col(0, Any::Instance),
    };
    assert_eq!(StandardPlonk::default().synthesize(&cfg), Err(Error::SynthesisMisuse));
}

#[test]
fn configuring_twice_on_one_builder_is_refused() {
    let mut cs: ConstraintSystem<u64> = ConstraintSystem::new();
    assert!(StandardPlonk::configure(&mut cs).is_ok());
    assert_eq!(StandardPlonk::configure(&mut cs), Err(Error::ConfigurationContractViolation));
    assert_eq!(cs.num_columns(Any::Advice), 3);
    assert_eq!(cs.num_gates(), 1);
    assert_eq!(cs.advice_column(), Err(Error::ConfigurationContractViolation));
    assert_eq!(cs.enable_equality(col(0, Any::Advice)), Err(Error::ConfigurationContractViolation));
    assert_eq!(cs.create_gate("late".to_string(), Vec::new()), Err(Error::ConfigurationContractViolation));
    assert!(cs.query_advice(col(0, Any::Advice), Rotation::cur()).is_err());
}

#[test]
fn configuring_fresh_builders_is_deterministic() {
    let mut cs1: ConstraintSystem<u64> = ConstraintSystem::new();
    let mut cs2: ConstraintSystem<u64> = ConstraintSystem::new();
    let cfg1 = StandardPlonk::configure(&mut cs1).unwrap();
    let cfg2 = StandardPlonk::configure(&mut cs2).unwrap();
    assert_eq!(cfg1, cfg2);
    assert_eq!(cs1.equality_columns().clone(), cs2.equality_columns().clone());
    assert_eq!(cs1.num_gates(), cs2.num_gates());
    assert_eq!(cs1.gates()[0].name(), cs2.gates()[0].name());
    for kind in [Any::Advice, Any::Fixed, Any::Instance] {
        assert_eq!(cs1.num_columns(kind), cs2.num_columns(kind));
    }
}

#[test]
fn without_witnesses_configures_identically() {
    let circuit = StandardPlonk;
    let stripped = circuit.without_witnesses();
    assert_eq!(stripped, circuit);
    assert_eq!(stripped.without_witnesses(), circuit);
    let mut cs1: ConstraintSystem<u64> = ConstraintSystem::new();
    let mut cs2: ConstraintSystem<u64> = ConstraintSystem::new();
    assert_eq!(StandardPlonk::configure(&mut cs1), StandardPlonk::configure(&mut cs2));
}

#[test]
fn configure_after_other_columns_uses_next_indices() {
    let mut cs: ConstraintSystem<u64> = ConstraintSystem::new();
    cs.advice_column().unwrap();
    cs.fixed_column().unwrap();
    cs.fixed_column().unwrap();
    let cfg = StandardPlonk::configure(&mut cs).unwrap();
    assert_eq!(cfg.a, col(1, Any::Advice));
    assert_eq!(cfg.c, col(3, Any::Advice));
    assert_eq!(cfg.q_a, col(2, Any::Fixed));
    assert_eq!(cfg.constant, col(6, Any::Fixed));
    assert_eq!(cfg.instance, col(0, Any::Instance));
}

#[test]
fn configure_without_room_changes_nothing() {
    let mut cs: ConstraintSystem<u64> = ConstraintSystem::new();
    for _ in 0..MAX_COLUMNS_PER_KIND - 2 {
        cs.instance_column().unwrap();
    }
    for _ in 0..MAX_COLUMNS_PER_KIND - 4 {
        cs.fixed_column().unwrap();
    }
    assert_eq!(StandardPlonk::configure(&mut cs), Err(Error::CapacityExceeded));
    assert_eq!(cs.num_columns(Any::Fixed), MAX_COLUMNS_PER_KIND - 4);
    assert_eq!(cs.num_columns(Any::Advice), 0);
    assert_eq!(cs.num_columns(Any::Instance), MAX_COLUMNS_PER_KIND - 2);
    assert_eq!(cs.num_gates(), 0);
    assert!(cs.equality_columns().is_empty());
    assert!(!cs.is_frozen());
}
