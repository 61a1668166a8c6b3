//! System controller for A-series parts: peripheral reset, clock gating
//! and dividers through the MRCC block.
//!
//! The register coordinates of each peripheral live in the data-driven
//! table of [`device`]; the generic register logic lives in [`mrcc`] and
//! the divider helpers in [`mrcc_divider`] and [`syscon_divider`].

use crate::regs::mrcc::MrccRegs;
use crate::syscon::mrcc::{cc_state, rst_state, PeripheralMRCC};
use vstd::prelude::*;

pub mod device;
pub mod mrcc;
pub mod mrcc_divider;
pub mod syscon_divider;

pub use device::MRCCClockSource;

verus! {

/// Peripheral reset control.
pub trait PeripheralRST: PeripheralMRCC {
    /// Asserts (`release == false`) or releases (`release == true`) the
    /// peripheral's reset signal through the write-1 companion registers.
    fn assert_reset(&self, mrcc: &mut MrccRegs, release: bool)
        ensures
            *final(mrcc) == rst_state(*old(mrcc), self.gate_spec(), release),
    ;

    /// Pulses the reset signal: releases it, then asserts it again.
    fn reset(&self, mrcc: &mut MrccRegs)
        ensures
            *final(mrcc) == rst_state(
                rst_state(*old(mrcc), self.gate_spec(), true),
                self.gate_spec(),
                false,
            ),
    ;
}

/// Peripheral clock control.
pub trait PeripheralCC: PeripheralMRCC {
    /// Opens or closes the peripheral's clock gate through the write-1
    /// companion registers.
    fn enable_clock(&self, mrcc: &mut MrccRegs, enable: bool)
        ensures
            *final(mrcc) == cc_state(*old(mrcc), self.gate_spec(), enable),
    ;
}

/// Peripheral enable: delivers or withholds the peripheral's bus clock,
/// the same gate that [`PeripheralCC`] drives.
pub trait PeripheralEn: PeripheralMRCC {
    /// Enables or disables the peripheral.
    fn enable(&self, mrcc: &mut MrccRegs, enable: bool)
        ensures
            *final(mrcc) == cc_state(*old(mrcc), self.gate_spec(), enable),
    ;
}

} // verus!
