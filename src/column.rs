use vstd::prelude::*;

verus! {

/// The kind of a column: witness, fixed, or public input.
#[derive(Clone, Copy, Debug, PartialEq, Eq, Structural, Hash)]
pub enum Any {
    Advice,
    Fixed,
    Instance,
}

/// A column handle. Its identity is the pair of its kind and its index
/// among the columns of that kind.
#[derive(Clone, Copy, Debug, PartialEq, Eq, Structural, Hash)]
pub struct Column {
    pub index: usize,
    pub column_type: Any,
}

impl Column {
    /// Kind of the column.
    pub fn column_type(&self) -> (r: Any)
        ensures
            r == self.column_type,
    {
        self.column_type
    }

    /// Index of the column among the columns of its kind.
    pub fn index(&self) -> (r: usize)
        ensures
            r == self.index,
    {
        self.index
    }
}

/// A signed row offset relative to the row being constrained.
#[derive(Clone, Copy, Debug, PartialEq, Eq, Structural, Hash)]
pub struct Rotation(pub i32);

impl Rotation {
    /// The row being constrained.
    pub fn cur() -> (r: Rotation)
        ensures
            r.0 == 0,
    {
        Rotation(0)
    }

    /// The row after the one being constrained.
    pub fn next() -> (r: Rotation)
        ensures
            r.0 == 1,
    {
        Rotation(1)
    }

    /// The row before the one being constrained.
    pub fn prev() -> (r: Rotation)
        ensures
            r.0 == -1,
    {
        Rotation(-1)
    }
}

} // verus!
