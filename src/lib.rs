//! Configuration layer of a PLONK-style arithmetization: typed columns,
//! symbolic gate expressions over rotated column queries, equality
//! (copy-constraint) enrolment, and a configuration-only standard circuit.

pub mod column;
pub mod error;
pub mod expression;
pub mod gate;
pub mod constraint_system;
pub mod standard_plonk;
