//! Model of the Module Reset and Clock Control (MRCC) register block used
//! on A-series parts: peripheral reset, clock-gate and automatic
//! clock-gating bitmaps, and the CLKOUT divider pair.

use crate::regs::DivReg;
use vstd::prelude::*;

verus! {

/// The clock-select and divider register pair of one peripheral clock
/// slot.
#[derive(Clone, Copy, Debug, PartialEq, Eq, Structural)]
pub struct MrccClkCfg {
    /// CLKSEL.MUX: the selected clock source code.
    pub sel: u8,
    /// CLKDIV.
    pub div: DivReg,
}

impl MrccClkCfg {
    /// The power-on state: source code zero, divider halted.
    pub open spec fn reset_spec() -> MrccClkCfg {
        MrccClkCfg { sel: 0, div: DivReg { div: 0, halt: true, reset: false } }
    }
}

/// The peripheral clock slots of the MRCC: each owns a clock-select and a
/// divider register pair.
#[derive(Clone, Copy, Debug, PartialEq, Eq, Structural)]
pub enum PeripheralClockSlot {
    Lpuart0,
    Lpuart1,
    Lpuart2,
    Lpuart3,
    Lpuart4,
    Lpuart5,
    Ctimer0,
    Ctimer1,
    Ctimer2,
    Ctimer3,
    Ctimer4,
}

/// The MRCC register block.
///
/// The reset and clock-gate registers are 32-bit bitmaps in three register
/// groups; hardware exposes each through write-1-to-set and write-1-to-clear
/// companion registers, modelled here as operations on the bitmap fields.
#[derive(Clone, Copy, Debug, PartialEq, Eq, Structural)]
pub struct MrccRegs {
    /// Reset-release bitmap, register group 0 (bit set: reset released).
    pub rst0: u32,
    /// Reset-release bitmap, register group 1.
    pub rst1: u32,
    /// Reset-release bitmap, register group 2.
    pub rst2: u32,
    /// Clock-gate bitmap, register group 0 (bit set: clock delivered).
    pub cc0: u32,
    /// Clock-gate bitmap, register group 1.
    pub cc1: u32,
    /// Clock-gate bitmap, register group 2.
    pub cc2: u32,
    /// Automatic clock-gating bitmap, register group 0.
    pub acc0: u32,
    /// Automatic clock-gating bitmap, register group 1.
    pub acc1: u32,
    /// Automatic clock-gating bitmap, register group 2.
    pub acc2: u32,
    /// MRCC_CLKOUT_CLKSEL.MUX.
    pub clkout_sel: u8,
    /// MRCC_CLKOUT_CLKDIV.
    pub clkout_div: DivReg,
    /// MRCC_LPUART0_CLKSEL and MRCC_LPUART0_CLKDIV.
    pub lpuart0_clk: MrccClkCfg,
    /// MRCC_LPUART1_CLKSEL and MRCC_LPUART1_CLKDIV.
    pub lpuart1_clk: MrccClkCfg,
    /// MRCC_LPUART2_CLKSEL and MRCC_LPUART2_CLKDIV.
    pub lpuart2_clk: MrccClkCfg,
    /// MRCC_LPUART3_CLKSEL and MRCC_LPUART3_CLKDIV.
    pub lpuart3_clk: MrccClkCfg,
    /// MRCC_LPUART4_CLKSEL and MRCC_LPUART4_CLKDIV.
    pub lpuart4_clk: MrccClkCfg,
    /// MRCC_LPUART5_CLKSEL and MRCC_LPUART5_CLKDIV.
    pub lpuart5_clk: MrccClkCfg,
    /// MRCC_CTIMER0_CLKSEL and MRCC_CTIMER0_CLKDIV.
    pub ctimer0_clk: MrccClkCfg,
    /// MRCC_CTIMER1_CLKSEL and MRCC_CTIMER1_CLKDIV.
    pub ctimer1_clk: MrccClkCfg,
    /// MRCC_CTIMER2_CLKSEL and MRCC_CTIMER2_CLKDIV.
    pub ctimer2_clk: MrccClkCfg,
    /// MRCC_CTIMER3_CLKSEL and MRCC_CTIMER3_CLKDIV.
    pub ctimer3_clk: MrccClkCfg,
    /// MRCC_CTIMER4_CLKSEL and MRCC_CTIMER4_CLKDIV.
    pub ctimer4_clk: MrccClkCfg,
}

impl MrccRegs {
    /// The power-on state: every peripheral held in reset with its clock
    /// gated off.
    pub open spec fn reset_spec() -> MrccRegs {
        MrccRegs {
            rst0: 0,
            rst1: 0,
            rst2: 0,
            cc0: 0,
            cc1: 0,
            cc2: 0,
            acc0: 0,
            acc1: 0,
            acc2: 0,
            clkout_sel: 0,
            clkout_div: DivReg { div: 0, halt: true, reset: false },
            lpuart0_clk: MrccClkCfg { sel: 0, div: DivReg { div: 0, halt: true, reset: false } },
            lpuart1_clk: MrccClkCfg { sel: 0, div: DivReg { div: 0, halt: true, reset: false } },
            lpuart2_clk: MrccClkCfg { sel: 0, div: DivReg { div: 0, halt: true, reset: false } },
            lpuart3_clk: MrccClkCfg { sel: 0, div: DivReg { div: 0, halt: true, reset: false } },
            lpuart4_clk: MrccClkCfg { sel: 0, div: DivReg { div: 0, halt: true, reset: false } },
            lpuart5_clk: MrccClkCfg { sel: 0, div: DivReg { div: 0, halt: true, reset: false } },
            ctimer0_clk: MrccClkCfg { sel: 0, div: DivReg { div: 0, halt: true, reset: false } },
            ctimer1_clk: MrccClkCfg { sel: 0, div: DivReg { div: 0, halt: true, reset: false } },
            ctimer2_clk: MrccClkCfg { sel: 0, div: DivReg { div: 0, halt: true, reset: false } },
            ctimer3_clk: MrccClkCfg { sel: 0, div: DivReg { div: 0, halt: true, reset: false } },
            ctimer4_clk: MrccClkCfg { sel: 0, div: DivReg { div: 0, halt: true, reset: false } },
        }
    }

    /// Returns the block in its power-on state.
    pub fn new() -> (r: MrccRegs)
        ensures
            r == MrccRegs::reset_spec(),
    {
        MrccRegs {
            rst0: 0,
            rst1: 0,
            rst2: 0,
            cc0: 0,
            cc1: 0,
            cc2: 0,
            acc0: 0,
            acc1: 0,
            acc2: 0,
            clkout_sel: 0,
            clkout_div: DivReg::new(),
            lpuart0_clk: MrccClkCfg { sel: 0, div: DivReg::new() },
            lpuart1_clk: MrccClkCfg { sel: 0, div: DivReg::new() },
            lpuart2_clk: MrccClkCfg { sel: 0, div: DivReg::new() },
            lpuart3_clk: MrccClkCfg { sel: 0, div: DivReg::new() },
            lpuart4_clk: MrccClkCfg { sel: 0, div: DivReg::new() },
            lpuart5_clk: MrccClkCfg { sel: 0, div: DivReg::new() },
            ctimer0_clk: MrccClkCfg { sel: 0, div: DivReg::new() },
            ctimer1_clk: MrccClkCfg { sel: 0, div: DivReg::new() },
            ctimer2_clk: MrccClkCfg { sel: 0, div: DivReg::new() },
            ctimer3_clk: MrccClkCfg { sel: 0, div: DivReg::new() },
            ctimer4_clk: MrccClkCfg { sel: 0, div: DivReg::new() },
        }
    }

    /// The reset-release bitmap of register group `n`.
    pub open spec fn rst_spec(self, n: int) -> u32 {
        if n == 0 {
            self.rst0
        } else if n == 1 {
            self.rst1
        } else {
            self.rst2
        }
    }

    /// The clock-gate bitmap of register group `n`.
    pub open spec fn cc_spec(self, n: int) -> u32 {
        if n == 0 {
            self.cc0
        } else if n == 1 {
            self.cc1
        } else {
            self.cc2
        }
    }

    /// The automatic clock-gating bitmap of register group `n`.
    pub open spec fn acc_spec(self, n: int) -> u32 {
        if n == 0 {
            self.acc0
        } else if n == 1 {
            self.acc1
        } else {
            self.acc2
        }
    }

    /// Reads the reset-release bitmap of register group `n`.
    pub fn rst(&self, n: u8) -> (r: u32)
        requires
            n < 3,
        ensures
            r == self.rst_spec(n as int),
    {
        if n == 0 {
            self.rst0
        } else if n == 1 {
            self.rst1
        } else {
            self.rst2
        }
    }

    /// Reads the clock-gate bitmap of register group `n`.
    pub fn cc(&self, n: u8) -> (r: u32)
        requires
            n < 3,
        ensures
            r == self.cc_spec(n as int),
    {
        if n == 0 {
            self.cc0
        } else if n == 1 {
            self.cc1
        } else {
            self.cc2
        }
    }

    /// Reads the automatic clock-gating bitmap of register group `n`.
    pub fn acc(&self, n: u8) -> (r: u32)
        requires
            n < 3,
        ensures
            r == self.acc_spec(n as int),
    {
        if n == 0 {
            self.acc0
        } else if n == 1 {
            self.acc1
        } else {
            self.acc2
        }
    }


    /// The clock-select/divider register pair of a peripheral clock slot.
    pub open spec fn slot_spec(self, slot: PeripheralClockSlot) -> MrccClkCfg {
        match slot {
            PeripheralClockSlot::Lpuart0 => self.lpuart0_clk,
            PeripheralClockSlot::Lpuart1 => self.lpuart1_clk,
            PeripheralClockSlot::Lpuart2 => self.lpuart2_clk,
            PeripheralClockSlot::Lpuart3 => self.lpuart3_clk,
            PeripheralClockSlot::Lpuart4 => self.lpuart4_clk,
            PeripheralClockSlot::Lpuart5 => self.lpuart5_clk,
            PeripheralClockSlot::Ctimer0 => self.ctimer0_clk,
            PeripheralClockSlot::Ctimer1 => self.ctimer1_clk,
            PeripheralClockSlot::Ctimer2 => self.ctimer2_clk,
            PeripheralClockSlot::Ctimer3 => self.ctimer3_clk,
            PeripheralClockSlot::Ctimer4 => self.ctimer4_clk,
        }
    }

    /// The block with one peripheral clock slot replaced.
    pub open spec fn with_slot(self, slot: PeripheralClockSlot, cfg: MrccClkCfg) -> MrccRegs {
        match slot {
            PeripheralClockSlot::Lpuart0 => MrccRegs { lpuart0_clk: cfg, ..self },
            PeripheralClockSlot::Lpuart1 => MrccRegs { lpuart1_clk: cfg, ..self },
            PeripheralClockSlot::Lpuart2 => MrccRegs { lpuart2_clk: cfg, ..self },
            PeripheralClockSlot::Lpuart3 => MrccRegs { lpuart3_clk: cfg, ..self },
            PeripheralClockSlot::Lpuart4 => MrccRegs { lpuart4_clk: cfg, ..self },
            PeripheralClockSlot::Lpuart5 => MrccRegs { lpuart5_clk: cfg, ..self },
            PeripheralClockSlot::Ctimer0 => MrccRegs { ctimer0_clk: cfg, ..self },
            PeripheralClockSlot::Ctimer1 => MrccRegs { ctimer1_clk: cfg, ..self },
            PeripheralClockSlot::Ctimer2 => MrccRegs { ctimer2_clk: cfg, ..self },
            PeripheralClockSlot::Ctimer3 => MrccRegs { ctimer3_clk: cfg, ..self },
            PeripheralClockSlot::Ctimer4 => MrccRegs { ctimer4_clk: cfg, ..self },
        }
    }

    /// Reads the clock-select/divider register pair of a slot.
    pub fn slot(&self, slot: PeripheralClockSlot) -> (r: MrccClkCfg)
        ensures
            r == self.slot_spec(slot),
    {
        match slot {
            PeripheralClockSlot::Lpuart0 => self.lpuart0_clk,
            PeripheralClockSlot::Lpuart1 => self.lpuart1_clk,
            PeripheralClockSlot::Lpuart2 => self.lpuart2_clk,
            PeripheralClockSlot::Lpuart3 => self.lpuart3_clk,
            PeripheralClockSlot::Lpuart4 => self.lpuart4_clk,
            PeripheralClockSlot::Lpuart5 => self.lpuart5_clk,
            PeripheralClockSlot::Ctimer0 => self.ctimer0_clk,
            PeripheralClockSlot::Ctimer1 => self.ctimer1_clk,
            PeripheralClockSlot::Ctimer2 => self.ctimer2_clk,
            PeripheralClockSlot::Ctimer3 => self.ctimer3_clk,
            PeripheralClockSlot::Ctimer4 => self.ctimer4_clk,
        }
    }
}

} // verus!
