//! SYSCON-based peripheral clock control: the data-driven clock-gate
//! registry and the system-tick clock setup.
//!
//! Every peripheral gate is a (register group, bit index) pair in the AHB
//! clock-control bitmaps. The set and clear companion registers are
//! write-1-to-set / write-1-to-clear, so gating is naturally idempotent and
//! free of read-modify-write races; [`lemma_gate_enable_idempotent`] and
//! [`lemma_gate_disable_idempotent`] state that law.

use crate::regs::syscon::SysconRegs;
use crate::regs::{clear_bit, set_bit, DivReg};
use vstd::prelude::*;

verus! {

/// Clock-gate coordinates of one peripheral: AHB clock-control register
/// group and bit index.
#[derive(Clone, Copy, Debug, PartialEq, Eq, Structural)]
pub struct PeripheralClockGate {
    pub group: u8,
    pub bit: u8,
}

impl PeripheralClockGate {
    /// Well-formedness: the coordinates address an existing register bit.
    pub open spec fn wf(self) -> bool {
        self.group < 4 && self.bit < 32
    }
}

/// The SYSCON state after a write-1-to-set on a gate's bit.
pub open spec fn gate_set_state(s: SysconRegs, g: PeripheralClockGate) -> SysconRegs {
    if g.group == 0 {
        SysconRegs { ahbclkctrl0: set_bit(s.ahbclkctrl0, g.bit), ..s }
    } else if g.group == 1 {
        SysconRegs { ahbclkctrl1: set_bit(s.ahbclkctrl1, g.bit), ..s }
    } else if g.group == 2 {
        SysconRegs { ahbclkctrl2: set_bit(s.ahbclkctrl2, g.bit), ..s }
    } else {
        SysconRegs { ahbclkctrl3: set_bit(s.ahbclkctrl3, g.bit), ..s }
    }
}

/// The SYSCON state after a write-1-to-clear on a gate's bit.
pub open spec fn gate_clear_state(s: SysconRegs, g: PeripheralClockGate) -> SysconRegs {
    if g.group == 0 {
        SysconRegs { ahbclkctrl0: clear_bit(s.ahbclkctrl0, g.bit), ..s }
    } else if g.group == 1 {
        SysconRegs { ahbclkctrl1: clear_bit(s.ahbclkctrl1, g.bit), ..s }
    } else if g.group == 2 {
        SysconRegs { ahbclkctrl2: clear_bit(s.ahbclkctrl2, g.bit), ..s }
    } else {
        SysconRegs { ahbclkctrl3: clear_bit(s.ahbclkctrl3, g.bit), ..s }
    }
}

/// The SYSCON state after enabling a peripheral's clock; a peripheral
/// without a gate of its own is untouched.
pub open spec fn gate_enabled_state(s: SysconRegs, og: Option<PeripheralClockGate>) -> SysconRegs {
    match og {
        Some(g) => gate_set_state(s, g),
        None => s,
    }
}

/// The SYSCON state after disabling a peripheral's clock.
pub open spec fn gate_disabled_state(s: SysconRegs, og: Option<PeripheralClockGate>) -> SysconRegs {
    match og {
        Some(g) => gate_clear_state(s, g),
        None => s,
    }
}

/// Sets a gate's bit through the write-1-to-set companion register.
pub fn ahb_gate_set(syscon: &mut SysconRegs, g: PeripheralClockGate)
    requires
        g.wf(),
    ensures
        *final(syscon) == gate_set_state(*old(syscon), g),
{
    let mask: u32 = 1u32 << g.bit;
    if g.group == 0 {
        syscon.ahbclkctrl0 = syscon.ahbclkctrl0 | mask;
    } else if g.group == 1 {
        syscon.ahbclkctrl1 = syscon.ahbclkctrl1 | mask;
    } else if g.group == 2 {
        syscon.ahbclkctrl2 = syscon.ahbclkctrl2 | mask;
    } else {
        syscon.ahbclkctrl3 = syscon.ahbclkctrl3 | mask;
    }
}

/// Clears a gate's bit through the write-1-to-clear companion register.
pub fn ahb_gate_clear(syscon: &mut SysconRegs, g: PeripheralClockGate)
    requires
        g.wf(),
    ensures
        *final(syscon) == gate_clear_state(*old(syscon), g),
{
    let mask: u32 = !(1u32 << g.bit);
    if g.group == 0 {
        syscon.ahbclkctrl0 = syscon.ahbclkctrl0 & mask;
    } else if g.group == 1 {
        syscon.ahbclkctrl1 = syscon.ahbclkctrl1 & mask;
    } else if g.group == 2 {
        syscon.ahbclkctrl2 = syscon.ahbclkctrl2 & mask;
    } else {
        syscon.ahbclkctrl3 = syscon.ahbclkctrl3 & mask;
    }
}

/// Enabling a gate twice leaves the same bitmap as enabling it once:
/// write-1-to-set is idempotent.
pub proof fn lemma_gate_enable_idempotent(bm: u32, bit: u8)
    requires
        bit < 32,
    ensures
        set_bit(set_bit(bm, bit), bit) == set_bit(bm, bit),
{
    assert((bm | (1u32 << bit)) | (1u32 << bit) == bm | (1u32 << bit)) by (bit_vector);
}

/// Disabling a gate twice leaves the same bitmap as disabling it once:
/// write-1-to-clear is idempotent.
pub proof fn lemma_gate_disable_idempotent(bm: u32, bit: u8)
    requires
        bit < 32,
    ensures
        clear_bit(clear_bit(bm, bit), bit) == clear_bit(bm, bit),
{
    assert((bm & !(1u32 << bit)) & !(1u32 << bit) == bm & !(1u32 << bit)) by (bit_vector);
}

/// Enabling a peripheral's clock twice in a row ends in the same register
/// state as enabling it once.
pub proof fn lemma_enable_twice(s: SysconRegs, og: Option<PeripheralClockGate>)
    requires
        og matches Some(g) ==> g.wf(),
    ensures
        gate_enabled_state(gate_enabled_state(s, og), og) == gate_enabled_state(s, og),
{
    match og {
        Some(g) => {
            lemma_gate_enable_idempotent(
                if g.group == 0 {
                    s.ahbclkctrl0
                } else if g.group == 1 {
                    s.ahbclkctrl1
                } else if g.group == 2 {
                    s.ahbclkctrl2
                } else {
                    s.ahbclkctrl3
                },
                g.bit,
            );
        },
        None => {},
    }
}

/// Disabling a peripheral's clock twice in a row ends in the same register
/// state as disabling it once.
pub proof fn lemma_disable_twice(s: SysconRegs, og: Option<PeripheralClockGate>)
    requires
        og matches Some(g) ==> g.wf(),
    ensures
        gate_disabled_state(gate_disabled_state(s, og), og) == gate_disabled_state(s, og),
{
    match og {
        Some(g) => {
            lemma_gate_disable_idempotent(
                if g.group == 0 {
                    s.ahbclkctrl0
                } else if g.group == 1 {
                    s.ahbclkctrl1
                } else if g.group == 2 {
                    s.ahbclkctrl2
                } else {
                    s.ahbclkctrl3
                },
                g.bit,
            );
        },
        None => {},
    }
}

/// Peripheral clock control: enable and disable AHB clock delivery to one
/// peripheral module.
pub trait ClockExt {
    /// The peripheral's gate coordinates, or `None` for a peripheral
    /// without a gate of its own.
    spec fn gate_spec(&self) -> Option<PeripheralClockGate>;

    /// Returns the peripheral's gate coordinates from the registry table.
    fn gate(&self) -> (r: Option<PeripheralClockGate>)
        ensures
            r == self.gate_spec(),
            r matches Some(g) ==> g.wf(),
    ;

    /// Enables the peripheral's AHB clock through the write-1-to-set
    /// register.
    fn enable(&self, syscon: &mut SysconRegs)
        ensures
            *final(syscon) == gate_enabled_state(*old(syscon), self.gate_spec()),
    ;

    /// Disables the peripheral's AHB clock through the write-1-to-clear
    /// register.
    fn disable(&self, syscon: &mut SysconRegs)
        ensures
            *final(syscon) == gate_disabled_state(*old(syscon), self.gate_spec()),
    ;
}

/// The peripherals of the SYSCON clock-gate registry, the data-driven
/// table mapping each to its (register group, bit index) pair.
#[derive(Clone, Copy, Debug, PartialEq, Eq, Structural)]
pub enum PeripheralClocks {
    FMU0,
    NPX0,
    FLEXSPI0,
    INPUTMUX0,
    PORT0,
    PORT1,
    PORT2,
    PORT3,
    PORT4,
    PORT5,
    GPIO0,
    GPIO1,
    GPIO2,
    GPIO3,
    GPIO4,
    GPIO5,
    SCG0,
}

impl ClockExt for PeripheralClocks {
    open spec fn gate_spec(&self) -> Option<PeripheralClockGate> {
        match self {
            PeripheralClocks::FMU0 => Some(PeripheralClockGate { group: 0, bit: 9 }),
            PeripheralClocks::NPX0 => Some(PeripheralClockGate { group: 0, bit: 10 }),
            PeripheralClocks::FLEXSPI0 => Some(PeripheralClockGate { group: 0, bit: 11 }),
            PeripheralClocks::INPUTMUX0 => Some(PeripheralClockGate { group: 0, bit: 12 }),
            PeripheralClocks::PORT0 => Some(PeripheralClockGate { group: 0, bit: 13 }),
            PeripheralClocks::PORT1 => Some(PeripheralClockGate { group: 0, bit: 14 }),
            PeripheralClocks::PORT2 => Some(PeripheralClockGate { group: 0, bit: 15 }),
            PeripheralClocks::PORT3 => Some(PeripheralClockGate { group: 0, bit: 16 }),
            PeripheralClocks::PORT4 => Some(PeripheralClockGate { group: 0, bit: 17 }),
            PeripheralClocks::PORT5 => None,
            PeripheralClocks::GPIO0 => Some(PeripheralClockGate { group: 0, bit: 19 }),
            PeripheralClocks::GPIO1 => Some(PeripheralClockGate { group: 0, bit: 20 }),
            PeripheralClocks::GPIO2 => Some(PeripheralClockGate { group: 0, bit: 21 }),
            PeripheralClocks::GPIO3 => Some(PeripheralClockGate { group: 0, bit: 22 }),
            PeripheralClocks::GPIO4 => Some(PeripheralClockGate { group: 0, bit: 23 }),
            PeripheralClocks::GPIO5 => None,
            PeripheralClocks::SCG0 => Some(PeripheralClockGate { group: 2, bit: 26 }),
        }
    }

    fn gate(&self) -> (r: Option<PeripheralClockGate>) {
        match self {
            PeripheralClocks::FMU0 => Some(PeripheralClockGate { group: 0, bit: 9 }),
            PeripheralClocks::NPX0 => Some(PeripheralClockGate { group: 0, bit: 10 }),
            PeripheralClocks::FLEXSPI0 => Some(PeripheralClockGate { group: 0, bit: 11 }),
            PeripheralClocks::INPUTMUX0 => Some(PeripheralClockGate { group: 0, bit: 12 }),
            PeripheralClocks::PORT0 => Some(PeripheralClockGate { group: 0, bit: 13 }),
            PeripheralClocks::PORT1 => Some(PeripheralClockGate { group: 0, bit: 14 }),
            PeripheralClocks::PORT2 => Some(PeripheralClockGate { group: 0, bit: 15 }),
            PeripheralClocks::PORT3 => Some(PeripheralClockGate { group: 0, bit: 16 }),
            PeripheralClocks::PORT4 => Some(PeripheralClockGate { group: 0, bit: 17 }),
            PeripheralClocks::PORT5 => None,
            PeripheralClocks::GPIO0 => Some(PeripheralClockGate { group: 0, bit: 19 }),
            PeripheralClocks::GPIO1 => Some(PeripheralClockGate { group: 0, bit: 20 }),
            PeripheralClocks::GPIO2 => Some(PeripheralClockGate { group: 0, bit: 21 }),
            PeripheralClocks::GPIO3 => Some(PeripheralClockGate { group: 0, bit: 22 }),
            PeripheralClocks::GPIO4 => Some(PeripheralClockGate { group: 0, bit: 23 }),
            PeripheralClocks::GPIO5 => None,
            PeripheralClocks::SCG0 => Some(PeripheralClockGate { group: 2, bit: 26 }),
        }
    }

    fn enable(&self, syscon: &mut SysconRegs) {
        match self.gate() {
            Some(g) => ahb_gate_set(syscon, g),
            None => {},
        }
    }

    fn disable(&self, syscon: &mut SysconRegs) {
        match self.gate() {
            Some(g) => ahb_gate_clear(syscon, g),
            None => {},
        }
    }
}

/// System-tick clock source selection.
#[derive(Clone, Copy, Debug, PartialEq, Eq, Structural)]
pub enum SystickClockSource {
    Disable,
    /// The main clock, through a divider.
    MainClock(u8),
    Clk1M,
    LPOSC,
}

/// The SYSCON state after a system-tick clock setup.
pub open spec fn systick_setup_state(s: SysconRegs, num: int, source: SystickClockSource) -> SysconRegs {
    let (sel, div) = (match source {
        SystickClockSource::Disable => (0b111u8, if num == 0 { s.systick0_div } else { s.systick1_div }),
        SystickClockSource::MainClock(d) => (0b000u8, DivReg { div: d, halt: false, reset: false }),
        SystickClockSource::Clk1M => (0b001u8, if num == 0 { s.systick0_div } else { s.systick1_div }),
        SystickClockSource::LPOSC => (0b010u8, if num == 0 { s.systick0_div } else { s.systick1_div }),
    });
    if num == 0 {
        SysconRegs { systick0_sel: sel, systick0_div: div, ..s }
    } else {
        SysconRegs { systick1_sel: sel, systick1_div: div, ..s }
    }
}

/// Configures a system-tick clock source. For the main clock the divider
/// is programmed and its "unstable" flag polled out before the source is
/// selected.
///
/// The low-power oscillator source has no setup on this part and is
/// excluded.
pub fn enable_systick(syscon: &mut SysconRegs, num: usize, source: SystickClockSource)
    requires
        num < 2,
        source !is LPOSC,
    ensures
        *final(syscon) == systick_setup_state(*old(syscon), num as int, source),
{
    match source {
        SystickClockSource::Disable => {
            if num == 0 {
                syscon.systick0_sel = 0b111;
            } else {
                syscon.systick1_sel = 0b111;
            }
        },
        SystickClockSource::MainClock(div) => {
            let reg = DivReg { div, halt: false, reset: false };
            if num == 0 {
                syscon.systick0_div = reg;
                syscon.systick0_div.wait_stable();
                syscon.systick0_sel = 0b000;
            } else {
                syscon.systick1_div = reg;
                syscon.systick1_div.wait_stable();
                syscon.systick1_sel = 0b000;
            }
        },
        SystickClockSource::Clk1M => {
            if num == 0 {
                syscon.systick0_sel = 0b001;
            } else {
                syscon.systick1_sel = 0b001;
            }
        },
        SystickClockSource::LPOSC => {
            assert(false);
        },
    }
}

} // verus!
