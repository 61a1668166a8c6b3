//! Model of the System Controller (SYSCON) register block used on
//! N-series parts: AHB clock gates, system-tick and CLKOUT clock selection,
//! and the bus and reference-clock dividers.

use crate::regs::DivReg;
use vstd::prelude::*;

verus! {

/// The SYSCON register block.
///
/// The AHB clock-control registers are 32-bit bitmaps, one bit per
/// peripheral; hardware exposes them through write-1-to-set and
/// write-1-to-clear companion registers, modelled here as operations on the
/// bitmap fields.
#[derive(Clone, Copy, Debug, PartialEq, Eq, Structural)]
pub struct SysconRegs {
    /// AHBCLKCTRL0: clock-gate bitmap, register group 0.
    pub ahbclkctrl0: u32,
    /// AHBCLKCTRL1: clock-gate bitmap, register group 1.
    pub ahbclkctrl1: u32,
    /// AHBCLKCTRL2: clock-gate bitmap, register group 2.
    pub ahbclkctrl2: u32,
    /// AHBCLKCTRL3: clock-gate bitmap, register group 3.
    pub ahbclkctrl3: u32,
    /// SYSTICKCLKSEL0: clock-source select for system tick 0.
    pub systick0_sel: u8,
    /// SYSTICKCLKDIV0.
    pub systick0_div: DivReg,
    /// SYSTICKCLKSEL1: clock-source select for system tick 1.
    pub systick1_sel: u8,
    /// SYSTICKCLKDIV1.
    pub systick1_div: DivReg,
    /// CLKOUTSEL.
    pub clkout_sel: u8,
    /// CLKOUTDIV.
    pub clkout_div: DivReg,
    /// AHBCLKDIV: the main bus divider.
    pub ahbclkdiv: DivReg,
    /// FROLFDIV: divider from the 12 MHz internal reference.
    pub frolfdiv: DivReg,
    /// FROHFDIV: divider from the fast internal reference.
    pub frohfdiv: DivReg,
    /// PLL1CLKDIV: divider from the system PLL output.
    pub pll1clkdiv: DivReg,
}

impl SysconRegs {
    /// The power-on state: all gates closed, all dividers halted, select
    /// fields zero.
    pub open spec fn reset_spec() -> SysconRegs {
        SysconRegs {
            ahbclkctrl0: 0,
            ahbclkctrl1: 0,
            ahbclkctrl2: 0,
            ahbclkctrl3: 0,
            systick0_sel: 0,
            systick0_div: DivReg { div: 0, halt: true, reset: false },
            systick1_sel: 0,
            systick1_div: DivReg { div: 0, halt: true, reset: false },
            clkout_sel: 0,
            clkout_div: DivReg { div: 0, halt: true, reset: false },
            ahbclkdiv: DivReg { div: 0, halt: true, reset: false },
            frolfdiv: DivReg { div: 0, halt: true, reset: false },
            frohfdiv: DivReg { div: 0, halt: true, reset: false },
            pll1clkdiv: DivReg { div: 0, halt: true, reset: false },
        }
    }

    /// Returns the block in its power-on state.
    pub fn new() -> (r: SysconRegs)
        ensures
            r == SysconRegs::reset_spec(),
    {
        SysconRegs {
            ahbclkctrl0: 0,
            ahbclkctrl1: 0,
            ahbclkctrl2: 0,
            ahbclkctrl3: 0,
            systick0_sel: 0,
            systick0_div: DivReg::new(),
            systick1_sel: 0,
            systick1_div: DivReg::new(),
            clkout_sel: 0,
            clkout_div: DivReg::new(),
            ahbclkdiv: DivReg::new(),
            frolfdiv: DivReg::new(),
            frohfdiv: DivReg::new(),
            pll1clkdiv: DivReg::new(),
        }
    }

    /// The clock-gate bitmap of register group `n`.
    pub open spec fn ahbclkctrl_spec(self, n: int) -> u32 {
        if n == 0 {
            self.ahbclkctrl0
        } else if n == 1 {
            self.ahbclkctrl1
        } else if n == 2 {
            self.ahbclkctrl2
        } else {
            self.ahbclkctrl3
        }
    }

    /// Reads the clock-gate bitmap of register group `n`.
    pub fn ahbclkctrl(&self, n: u8) -> (r: u32)
        requires
            n < 4,
        ensures
            r == self.ahbclkctrl_spec(n as int),
    {
        if n == 0 {
            self.ahbclkctrl0
        } else if n == 1 {
            self.ahbclkctrl1
        } else if n == 2 {
            self.ahbclkctrl2
        } else {
            self.ahbclkctrl3
        }
    }
}

} // verus!
