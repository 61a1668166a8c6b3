//! CLKOUT clock source and divider control.

use crate::regs::syscon::SysconRegs;
use crate::regs::DivReg;
use vstd::prelude::*;

verus! {

/// CLKOUT clock source.
#[derive(Clone, Copy, Debug, PartialEq, Eq, Structural)]
pub enum ClockSource {
    MainClock,
    APll,
    ClkIn,
    FroHF,
    Fro12M,
    SPll,
    LpOsc,
    UPll,
    NoClock,
}

impl ClockSource {
    /// The CLKOUTSEL select code of this source.
    pub open spec fn code_spec(self) -> u8 {
        match self {
            ClockSource::MainClock => 0b0000,
            ClockSource::APll => 0b0001,
            ClockSource::ClkIn => 0b0010,
            ClockSource::FroHF => 0b0011,
            ClockSource::Fro12M => 0b0100,
            ClockSource::SPll => 0b0101,
            ClockSource::LpOsc => 0b0110,
            ClockSource::UPll => 0b0111,
            ClockSource::NoClock => 0b1111,
        }
    }

    /// Returns the CLKOUTSEL select code of this source.
    pub fn code(&self) -> (r: u8)
        ensures
            r == self.code_spec(),
    {
        match self {
            ClockSource::MainClock => 0b0000,
            ClockSource::APll => 0b0001,
            ClockSource::ClkIn => 0b0010,
            ClockSource::FroHF => 0b0011,
            ClockSource::Fro12M => 0b0100,
            ClockSource::SPll => 0b0101,
            ClockSource::LpOsc => 0b0110,
            ClockSource::UPll => 0b0111,
            ClockSource::NoClock => 0b1111,
        }
    }

    /// The source a CLKOUTSEL select code denotes.
    pub open spec fn from_code_spec(code: u8) -> ClockSource {
        if code == 0 {
            ClockSource::MainClock
        } else if code == 1 {
            ClockSource::APll
        } else if code == 2 {
            ClockSource::ClkIn
        } else if code == 3 {
            ClockSource::FroHF
        } else if code == 4 {
            ClockSource::Fro12M
        } else if code == 5 {
            ClockSource::SPll
        } else if code == 6 {
            ClockSource::LpOsc
        } else if code == 7 {
            ClockSource::UPll
        } else {
            ClockSource::NoClock
        }
    }
}

/// Selects the CLKOUT source and programs its divider.
pub fn setup(syscon: &mut SysconRegs, source: ClockSource, div: u8)
    ensures
        *final(syscon) == (SysconRegs {
            clkout_sel: source.code_spec(),
            clkout_div: (DivReg { div, halt: false, reset: false }),
            ..*old(syscon)
        }),
{
    syscon.clkout_sel = source.code();
    syscon.clkout_div = DivReg { div, halt: false, reset: false };
}

/// Reads back the configured CLKOUT source.
pub fn get_source(syscon: &SysconRegs) -> (r: ClockSource)
    ensures
        r == ClockSource::from_code_spec(syscon.clkout_sel),
{
    let code = syscon.clkout_sel;
    if code == 0 {
        ClockSource::MainClock
    } else if code == 1 {
        ClockSource::APll
    } else if code == 2 {
        ClockSource::ClkIn
    } else if code == 3 {
        ClockSource::FroHF
    } else if code == 4 {
        ClockSource::Fro12M
    } else if code == 5 {
        ClockSource::SPll
    } else if code == 6 {
        ClockSource::LpOsc
    } else if code == 7 {
        ClockSource::UPll
    } else {
        ClockSource::NoClock
    }
}

/// Reads back the CLKOUT divider value.
pub fn get_div(syscon: &SysconRegs) -> (r: u8)
    ensures
        r == syscon.clkout_div.div,
{
    syscon.clkout_div.div
}

/// Halts the CLKOUT divider.
pub fn halt(syscon: &mut SysconRegs)
    ensures
        *final(syscon) == (SysconRegs {
            clkout_div: (DivReg { halt: true, ..old(syscon).clkout_div }),
            ..*old(syscon)
        }),
{
    syscon.clkout_div.halt = true;
}

/// Releases the CLKOUT divider and polls it stable.
pub fn run(syscon: &mut SysconRegs)
    ensures
        *final(syscon) == (SysconRegs {
            clkout_div: (DivReg { halt: false, ..old(syscon).clkout_div }),
            ..*old(syscon)
        }),
{
    syscon.clkout_div.halt = false;
    syscon.clkout_div.wait_stable();
}

} // verus!
