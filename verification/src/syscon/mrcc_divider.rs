//! MRCC clock-source selection and peripheral clock dividers.
//!
//! Every peripheral divider register behaves identically, so one routine
//! serves them all: a divider value runs the divider and polls the
//! "unstable" flag out; `None` halts it.

use crate::regs::mrcc::{MrccClkCfg, MrccRegs, PeripheralClockSlot};
use crate::regs::{divider_state, DivReg};
use crate::syscon::MRCCClockSource;
use vstd::prelude::*;

verus! {

/// CLKOUT clock sources in the MRCC.
#[derive(Clone, Copy, Debug, PartialEq, Eq, Structural)]
pub enum ClkOutSource {
    FroLF,
    FroHfDiv,
    ClkIn,
    Clk16K,
    SPll,
    SlowClk,
    NoClock,
}

impl ClkOutSource {
    /// The MUX field code of this source.
    pub open spec fn code_spec(self) -> u8 {
        match self {
            ClkOutSource::FroLF => 0,
            ClkOutSource::FroHfDiv => 1,
            ClkOutSource::ClkIn => 2,
            ClkOutSource::Clk16K => 3,
            ClkOutSource::SPll => 5,
            ClkOutSource::SlowClk => 6,
            ClkOutSource::NoClock => 7,
        }
    }

    /// Returns the MUX field code of this source.
    pub fn code(&self) -> (r: u8)
        ensures
            r == self.code_spec(),
    {
        match self {
            ClkOutSource::FroLF => 0,
            ClkOutSource::FroHfDiv => 1,
            ClkOutSource::ClkIn => 2,
            ClkOutSource::Clk16K => 3,
            ClkOutSource::SPll => 5,
            ClkOutSource::SlowClk => 6,
            ClkOutSource::NoClock => 7,
        }
    }
}

/// Programs one peripheral clock-divider register: a value runs the
/// divider with halt and reset deasserted and polls the "unstable" flag
/// out; `None` writes divider zero with halt asserted, leaving reset
/// deasserted.
pub fn setup_divider(reg: &mut DivReg, divider: Option<u8>)
    ensures
        *final(reg) == divider_state(divider),
{
    match divider {
        Some(div) => {
            *reg = DivReg { div, halt: false, reset: false };
            reg.wait_stable();
        },
        None => {
            *reg = DivReg { div: 0, halt: true, reset: false };
        },
    }
}

/// Selects the CLKOUT clock source.
pub fn setup_clkout_clock_source(mrcc: &mut MrccRegs, clock: ClkOutSource)
    ensures
        *final(mrcc) == (MrccRegs { clkout_sel: clock.code_spec(), ..*old(mrcc) }),
{
    mrcc.clkout_sel = clock.code();
}

/// Programs the CLKOUT divider.
pub fn setup_clkout_divider(mrcc: &mut MrccRegs, divider: Option<u8>)
    ensures
        *final(mrcc) == (MrccRegs { clkout_div: divider_state(divider), ..*old(mrcc) }),
{
    setup_divider(&mut mrcc.clkout_div, divider);
}

/// Selects the clock source of one peripheral clock slot. One routine
/// serves every slot: the registers behave identically, so the slot is a
/// parameter rather than a generated function per peripheral.
pub fn setup_peripheral_clock_source(
    mrcc: &mut MrccRegs,
    slot: PeripheralClockSlot,
    clock: MRCCClockSource,
)
    ensures
        *final(mrcc) == old(mrcc).with_slot(
            slot,
            (MrccClkCfg { sel: clock.code_spec(), ..old(mrcc).slot_spec(slot) }),
        ),
{
    let code = clock.code();
    match slot {
        PeripheralClockSlot::Lpuart0 => mrcc.lpuart0_clk.sel = code,
        PeripheralClockSlot::Lpuart1 => mrcc.lpuart1_clk.sel = code,
        PeripheralClockSlot::Lpuart2 => mrcc.lpuart2_clk.sel = code,
        PeripheralClockSlot::Lpuart3 => mrcc.lpuart3_clk.sel = code,
        PeripheralClockSlot::Lpuart4 => mrcc.lpuart4_clk.sel = code,
        PeripheralClockSlot::Lpuart5 => mrcc.lpuart5_clk.sel = code,
        PeripheralClockSlot::Ctimer0 => mrcc.ctimer0_clk.sel = code,
        PeripheralClockSlot::Ctimer1 => mrcc.ctimer1_clk.sel = code,
        PeripheralClockSlot::Ctimer2 => mrcc.ctimer2_clk.sel = code,
        PeripheralClockSlot::Ctimer3 => mrcc.ctimer3_clk.sel = code,
        PeripheralClockSlot::Ctimer4 => mrcc.ctimer4_clk.sel = code,
    }
}

/// Programs the divider of one peripheral clock slot; see
/// [`setup_divider`] for the value/halt behaviour.
pub fn setup_peripheral_divider(mrcc: &mut MrccRegs, slot: PeripheralClockSlot, divider: Option<
    u8,
>)
    ensures
        *final(mrcc) == old(mrcc).with_slot(
            slot,
            (MrccClkCfg { div: divider_state(divider), ..old(mrcc).slot_spec(slot) }),
        ),
{
    match slot {
        PeripheralClockSlot::Lpuart0 => setup_divider(&mut mrcc.lpuart0_clk.div, divider),
        PeripheralClockSlot::Lpuart1 => setup_divider(&mut mrcc.lpuart1_clk.div, divider),
        PeripheralClockSlot::Lpuart2 => setup_divider(&mut mrcc.lpuart2_clk.div, divider),
        PeripheralClockSlot::Lpuart3 => setup_divider(&mut mrcc.lpuart3_clk.div, divider),
        PeripheralClockSlot::Lpuart4 => setup_divider(&mut mrcc.lpuart4_clk.div, divider),
        PeripheralClockSlot::Lpuart5 => setup_divider(&mut mrcc.lpuart5_clk.div, divider),
        PeripheralClockSlot::Ctimer0 => setup_divider(&mut mrcc.ctimer0_clk.div, divider),
        PeripheralClockSlot::Ctimer1 => setup_divider(&mut mrcc.ctimer1_clk.div, divider),
        PeripheralClockSlot::Ctimer2 => setup_divider(&mut mrcc.ctimer2_clk.div, divider),
        PeripheralClockSlot::Ctimer3 => setup_divider(&mut mrcc.ctimer3_clk.div, divider),
        PeripheralClockSlot::Ctimer4 => setup_divider(&mut mrcc.ctimer4_clk.div, divider),
    }
}

} // verus!
