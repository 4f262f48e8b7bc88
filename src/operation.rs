use vstd::prelude::*;

verus! {

/// An arithmetic operator awaiting its right-hand operand.
#[derive(Clone, Copy, Debug, PartialEq, Eq, Structural)]
pub enum Operation {
    Add,
    Subtract,
    Multiply,
    Divide,
    /// No operator has been selected: applying it passes the right-hand operand through.
    NoOp,
}

} // verus!
