//! System-tick clock source and divider control.

use crate::regs::syscon::SysconRegs;
use crate::regs::DivReg;
use vstd::prelude::*;

verus! {

/// System-tick clock source.
#[derive(Clone, Copy, Debug, PartialEq, Eq, Structural)]
pub enum ClockSource {
    /// The main clock, through a divider.
    MainClock(u8),
    Clk1M,
    LpOsc,
    NoClock,
}

impl ClockSource {
    /// The SYSTICKCLKSEL select code of this source.
    pub open spec fn code_spec(self) -> u8 {
        match self {
            ClockSource::MainClock(_) => 0b000,
            ClockSource::Clk1M => 0b001,
            ClockSource::LpOsc => 0b010,
            ClockSource::NoClock => 0b111,
        }
    }

    /// Returns the SYSTICKCLKSEL select code of this source.
    pub fn code(&self) -> (r: u8)
        ensures
            r == self.code_spec(),
    {
        match self {
            ClockSource::MainClock(_) => 0b000,
            ClockSource::Clk1M => 0b001,
            ClockSource::LpOsc => 0b010,
            ClockSource::NoClock => 0b111,
        }
    }
}

/// The SYSCON state after a system-tick setup: the divider is programmed
/// only for the main-clock source, the select code always.
pub open spec fn setup_state(s: SysconRegs, n: int, source: ClockSource) -> SysconRegs {
    let div = (match source {
        ClockSource::MainClock(d) => DivReg { div: d, halt: false, reset: false },
        _ => if n == 0 {
            s.systick0_div
        } else {
            s.systick1_div
        },
    });
    if n == 0 {
        SysconRegs { systick0_sel: source.code_spec(), systick0_div: div, ..s }
    } else {
        SysconRegs { systick1_sel: source.code_spec(), systick1_div: div, ..s }
    }
}

/// Configures system tick `n`: for the main-clock source the divider is
/// programmed and polled stable first, then the source is selected.
pub fn setup(syscon: &mut SysconRegs, n: usize, source: ClockSource)
    requires
        n < 2,
    ensures
        *final(syscon) == setup_state(*old(syscon), n as int, source),
{
    match source {
        ClockSource::MainClock(div) => {
            let reg = DivReg { div, halt: false, reset: false };
            if n == 0 {
                syscon.systick0_div = reg;
                syscon.systick0_div.wait_stable();
            } else {
                syscon.systick1_div = reg;
                syscon.systick1_div.wait_stable();
            }
        },
        _ => {},
    }
    let code = source.code();
    if n == 0 {
        syscon.systick0_sel = code;
    } else {
        syscon.systick1_sel = code;
    }
}

/// The source that a select code and divider register denote.
pub open spec fn source_of_spec(s: SysconRegs, n: int) -> ClockSource {
    let sel = if n == 0 {
        s.systick0_sel
    } else {
        s.systick1_sel
    };
    let div = if n == 0 {
        s.systick0_div
    } else {
        s.systick1_div
    };
    if sel == 0 {
        ClockSource::MainClock(div.div)
    } else if sel == 1 {
        ClockSource::Clk1M
    } else if sel == 2 {
        ClockSource::LpOsc
    } else {
        ClockSource::NoClock
    }
}

/// Reads back the configured source of system tick `n`.
pub fn get_source(syscon: &SysconRegs, n: usize) -> (r: ClockSource)
    requires
        n < 2,
    ensures
        r == source_of_spec(*syscon, n as int),
{
    let sel: u8 = if n == 0 {
        syscon.systick0_sel
    } else {
        syscon.systick1_sel
    };
    if sel == 0 {
        let div: u8 = if n == 0 {
            syscon.systick0_div.div
        } else {
            syscon.systick1_div.div
        };
        ClockSource::MainClock(div)
    } else if sel == 1 {
        ClockSource::Clk1M
    } else if sel == 2 {
        ClockSource::LpOsc
    } else {
        ClockSource::NoClock
    }
}

} // verus!
