//! Generic MRCC register logic: reset, clock-gate and automatic
//! clock-gating writes addressed by a (register group, bit index) pair.

use crate::regs::mrcc::MrccRegs;
use crate::regs::{clear_bit, set_bit};
use vstd::prelude::*;

verus! {

/// MRCC coordinates of one peripheral: register group and bit index.
#[derive(Clone, Copy, Debug, PartialEq, Eq, Structural)]
pub struct MrccGate {
    pub group: u8,
    pub bit: u8,
}

impl MrccGate {
    /// Well-formedness: the coordinates address an existing register bit.
    pub open spec fn wf(self) -> bool {
        self.group < 3 && self.bit < 32
    }
}

/// The MRCC state after a reset-control write: releasing sets the bit
/// through the write-1-to-set register, asserting clears it.
pub open spec fn rst_state(s: MrccRegs, g: MrccGate, release: bool) -> MrccRegs {
    if g.group == 0 {
        MrccRegs {
            rst0: if release {
                set_bit(s.rst0, g.bit)
            } else {
                clear_bit(s.rst0, g.bit)
            },
            ..s
        }
    } else if g.group == 1 {
        MrccRegs {
            rst1: if release {
                set_bit(s.rst1, g.bit)
            } else {
                clear_bit(s.rst1, g.bit)
            },
            ..s
        }
    } else {
        MrccRegs {
            rst2: if release {
                set_bit(s.rst2, g.bit)
            } else {
                clear_bit(s.rst2, g.bit)
            },
            ..s
        }
    }
}

/// The MRCC state after a clock-gate write: enabling sets the bit through
/// the write-1-to-set register, disabling clears it.
pub open spec fn cc_state(s: MrccRegs, g: MrccGate, enable: bool) -> MrccRegs {
    if g.group == 0 {
        MrccRegs {
            cc0: if enable {
                set_bit(s.cc0, g.bit)
            } else {
                clear_bit(s.cc0, g.bit)
            },
            ..s
        }
    } else if g.group == 1 {
        MrccRegs {
            cc1: if enable {
                set_bit(s.cc1, g.bit)
            } else {
                clear_bit(s.cc1, g.bit)
            },
            ..s
        }
    } else {
        MrccRegs {
            cc2: if enable {
                set_bit(s.cc2, g.bit)
            } else {
                clear_bit(s.cc2, g.bit)
            },
            ..s
        }
    }
}

/// A bitmap with `bit` toggled.
pub open spec fn toggle_bit(bm: u32, bit: u8) -> u32 {
    bm ^ (1u32 << bit)
}

/// The MRCC state after an automatic clock-gating write. The register is
/// plain read-modify-write: enabling toggles the peripheral's bit,
/// disabling clears it.
pub open spec fn acc_state(s: MrccRegs, g: MrccGate, enable: bool) -> MrccRegs {
    if g.group == 0 {
        MrccRegs {
            acc0: if enable {
                toggle_bit(s.acc0, g.bit)
            } else {
                clear_bit(s.acc0, g.bit)
            },
            ..s
        }
    } else if g.group == 1 {
        MrccRegs {
            acc1: if enable {
                toggle_bit(s.acc1, g.bit)
            } else {
                clear_bit(s.acc1, g.bit)
            },
            ..s
        }
    } else {
        MrccRegs {
            acc2: if enable {
                toggle_bit(s.acc2, g.bit)
            } else {
                clear_bit(s.acc2, g.bit)
            },
            ..s
        }
    }
}

/// Performs a reset-control write for a gate.
pub fn mrcc_rst_write(mrcc: &mut MrccRegs, g: MrccGate, release: bool)
    requires
        g.wf(),
    ensures
        *final(mrcc) == rst_state(*old(mrcc), g, release),
{
    let set_mask: u32 = 1u32 << g.bit;
    let clear_mask: u32 = !set_mask;
    if g.group == 0 {
        mrcc.rst0 = if release {
            mrcc.rst0 | set_mask
        } else {
            mrcc.rst0 & clear_mask
        };
    } else if g.group == 1 {
        mrcc.rst1 = if release {
            mrcc.rst1 | set_mask
        } else {
            mrcc.rst1 & clear_mask
        };
    } else {
        mrcc.rst2 = if release {
            mrcc.rst2 | set_mask
        } else {
            mrcc.rst2 & clear_mask
        };
    }
}

/// Performs a clock-gate write for a gate.
pub fn mrcc_cc_write(mrcc: &mut MrccRegs, g: MrccGate, enable: bool)
    requires
        g.wf(),
    ensures
        *final(mrcc) == cc_state(*old(mrcc), g, enable),
{
    let set_mask: u32 = 1u32 << g.bit;
    let clear_mask: u32 = !set_mask;
    if g.group == 0 {
        mrcc.cc0 = if enable {
            mrcc.cc0 | set_mask
        } else {
            mrcc.cc0 & clear_mask
        };
    } else if g.group == 1 {
        mrcc.cc1 = if enable {
            mrcc.cc1 | set_mask
        } else {
            mrcc.cc1 & clear_mask
        };
    } else {
        mrcc.cc2 = if enable {
            mrcc.cc2 | set_mask
        } else {
            mrcc.cc2 & clear_mask
        };
    }
}

/// Performs an automatic clock-gating write for a gate.
pub fn mrcc_acc_write(mrcc: &mut MrccRegs, g: MrccGate, enable: bool)
    requires
        g.wf(),
    ensures
        *final(mrcc) == acc_state(*old(mrcc), g, enable),
{
    let set_mask: u32 = 1u32 << g.bit;
    let clear_mask: u32 = !set_mask;
    if g.group == 0 {
        mrcc.acc0 = if enable {
            mrcc.acc0 ^ set_mask
        } else {
            mrcc.acc0 & clear_mask
        };
    } else if g.group == 1 {
        mrcc.acc1 = if enable {
            mrcc.acc1 ^ set_mask
        } else {
            mrcc.acc1 & clear_mask
        };
    } else {
        mrcc.acc2 = if enable {
            mrcc.acc2 ^ set_mask
        } else {
            mrcc.acc2 & clear_mask
        };
    }
}

/// Enabling a peripheral's MRCC clock gate twice in a row ends in the same
/// register state as enabling it once; likewise for disabling.
pub proof fn lemma_cc_write_idempotent(s: MrccRegs, g: MrccGate, enable: bool)
    requires
        g.wf(),
    ensures
        cc_state(cc_state(s, g, enable), g, enable) == cc_state(s, g, enable),
{
    let bm = if g.group == 0 {
        s.cc0
    } else if g.group == 1 {
        s.cc1
    } else {
        s.cc2
    };
    let bit = g.bit;
    assert((bm | (1u32 << bit)) | (1u32 << bit) == bm | (1u32 << bit)) by (bit_vector);
    assert((bm & !(1u32 << bit)) & !(1u32 << bit) == bm & !(1u32 << bit)) by (bit_vector);
}

/// A peripheral addressed through the MRCC: its register coordinates.
pub trait PeripheralMRCC {
    /// The peripheral's (register group, bit index) pair.
    spec fn gate_spec(&self) -> MrccGate;

    /// Returns the peripheral's coordinates from the registry table.
    fn gate(&self) -> (g: MrccGate)
        ensures
            g == self.gate_spec(),
            g.wf(),
    ;
}

/// Reset control feature in the MRCC.
pub trait PeripheralRST: PeripheralMRCC {
    /// Asserts (`release == false`) or releases (`release == true`) the
    /// peripheral's reset.
    fn reset(&self, mrcc: &mut MrccRegs, release: bool)
        ensures
            *final(mrcc) == rst_state(*old(mrcc), self.gate_spec(), release),
    ;
}

/// AHB clock control feature in the MRCC.
pub trait PeripheralCC: PeripheralMRCC {
    /// Opens or closes the peripheral's clock gate.
    fn clock(&self, mrcc: &mut MrccRegs, enable: bool)
        ensures
            *final(mrcc) == cc_state(*old(mrcc), self.gate_spec(), enable),
    ;
}

/// Automatic clock-gating feature in the MRCC.
pub trait PeripheralACC: PeripheralMRCC {
    /// Enables or disables automatic clock gating.
    fn auto_clock_gating(&self, mrcc: &mut MrccRegs, enable: bool)
        ensures
            *final(mrcc) == acc_state(*old(mrcc), self.gate_spec(), enable),
    ;
}

} // verus!
