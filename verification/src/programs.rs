//! Where a module keeps its gas accounting.

use vstd::prelude::*;

verus! {

/// The two globals of a module that hold its gas accounting. A module has them
/// only when gas is metered in software.
#[derive(Clone, Copy, Debug, PartialEq, Eq, Structural)]
pub struct StylusGlobals {
    /// Index of the global that holds the gas left.
    pub gas_left: u32,
    /// Index of the global that holds the status: whether the gas ran out.
    pub gas_status: u32,
}

impl StylusGlobals {
    /// The two indices as operands: first that of the gas left, then that of the status.
    pub open spec fn spec_offsets(self) -> (u64, u64) {
        (self.gas_left as u64, self.gas_status as u64)
    }

    /// The two indices as operands: first that of the gas left, then that of the status.
    #[verifier::when_used_as_spec(spec_offsets)]
    pub fn offsets(self) -> (pair: (u64, u64))
        ensures
            pair == self.spec_offsets(),
    {
        (self.gas_left as u64, self.gas_status as u64)
    }
}

} // verus!
