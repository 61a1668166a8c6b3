//! SYSCON dividers: the AHB bus divider and the internal-reference
//! dividers.

use crate::regs::syscon::SysconRegs;
use crate::regs::{divider_state, DivReg};
use crate::syscon::mrcc_divider::setup_divider;
use vstd::prelude::*;

verus! {

/// Programs the AHB clock divider, which divides the main clock, and
/// polls it stable.
pub fn setup_ahbclk_divider(syscon: &mut SysconRegs, divider: u8)
    ensures
        *final(syscon) == (SysconRegs {
            ahbclkdiv: (DivReg { div: divider, halt: false, reset: false }),
            ..*old(syscon)
        }),
{
    syscon.ahbclkdiv = DivReg { div: divider, halt: false, reset: false };
    syscon.ahbclkdiv.wait_stable();
}

/// Programs the FRO_LF divider, which divides the 12 MHz internal
/// reference.
pub fn setup_fro_lf_divider(syscon: &mut SysconRegs, divider: Option<u8>)
    ensures
        *final(syscon) == (SysconRegs { frolfdiv: divider_state(divider), ..*old(syscon) }),
{
    setup_divider(&mut syscon.frolfdiv, divider);
}

/// Programs the FRO_HF divider, which divides the fast internal
/// reference's functional clock.
pub fn setup_fro_hf_divider(syscon: &mut SysconRegs, divider: Option<u8>)
    ensures
        *final(syscon) == (SysconRegs { frohfdiv: divider_state(divider), ..*old(syscon) }),
{
    setup_divider(&mut syscon.frohfdiv, divider);
}

/// Programs the SPLL clock divider, which divides the system PLL output.
pub fn setup_spll_clk_divider(syscon: &mut SysconRegs, divider: Option<u8>)
    ensures
        *final(syscon) == (SysconRegs { pll1clkdiv: divider_state(divider), ..*old(syscon) }),
{
    setup_divider(&mut syscon.pll1clkdiv, divider);
}

} // verus!
