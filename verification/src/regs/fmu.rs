//! Model of the Flash Management Unit (FMU) control register.

use vstd::prelude::*;

verus! {

/// The FMU control register: the flash wait-state count.
#[derive(Clone, Copy, Debug, PartialEq, Eq, Structural)]
pub struct FmuRegs {
    /// FCTRL.RWSC: read wait-state count.
    pub rwsc: u8,
}

impl FmuRegs {
    /// The power-on state: the conservative maximum wait-state count.
    pub open spec fn reset_spec() -> FmuRegs {
        FmuRegs { rwsc: 3 }
    }

    /// Returns the block in its power-on state.
    pub fn new() -> (r: FmuRegs)
        ensures
            r == FmuRegs::reset_spec(),
    {
        FmuRegs { rwsc: 3 }
    }
}

} // verus!
