use vstd::prelude::*;

verus! {

/// The single failure of the engine: a checked arithmetic step whose result
/// does not fit its target width, or a division by zero.
#[derive(Clone, Copy, Debug, PartialEq, Eq, Structural)]
pub enum ObricError {
    NumOverflowing,
}

} // verus!
