use vstd::prelude::*;

verus! {

/// Failures of configuration and synthesis.
#[derive(Clone, Copy, Debug, PartialEq, Eq, Structural, Hash)]
pub enum Error {
    /// A column or gate was allocated beyond the builder's limits.
    CapacityExceeded,
    /// A column was queried as the wrong kind or was never allocated, or the
    /// builder was used after its configuration had finished.
    ConfigurationContractViolation,
    /// Synthesis was invoked on a circuit that serves for configuration only.
    SynthesisMisuse,
}

} // verus!
