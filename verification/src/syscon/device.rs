//! Device data: the MRCC peripheral registry and the peripheral clock
//! source set.

use crate::regs::mrcc::MrccRegs;
use crate::syscon::mrcc::{
    mrcc_acc_write, mrcc_cc_write, mrcc_rst_write, MrccGate, PeripheralACC, PeripheralCC,
    PeripheralMRCC,
};
use vstd::prelude::*;

verus! {

/// Clock sources selectable in the MRCC peripheral clock dividers.
#[derive(Clone, Copy, Debug, PartialEq, Eq, Structural)]
pub enum MRCCClockSource {
    FroLfDiv,
    FroHf,
    FroHfDiv,
    ClkIn,
    Clk16K,
    Clk1M,
    SPllDiv,
    NoClock,
}

impl MRCCClockSource {
    /// The MUX field code of this source.
    pub open spec fn code_spec(self) -> u8 {
        match self {
            MRCCClockSource::FroLfDiv => 0,
            MRCCClockSource::FroHf => 1,
            MRCCClockSource::FroHfDiv => 2,
            MRCCClockSource::ClkIn => 3,
            MRCCClockSource::Clk16K => 4,
            MRCCClockSource::Clk1M => 5,
            MRCCClockSource::SPllDiv => 6,
            MRCCClockSource::NoClock => 7,
        }
    }

    /// Returns the MUX field code of this source.
    pub fn code(&self) -> (r: u8)
        ensures
            r == self.code_spec(),
    {
        match self {
            MRCCClockSource::FroLfDiv => 0,
            MRCCClockSource::FroHf => 1,
            MRCCClockSource::FroHfDiv => 2,
            MRCCClockSource::ClkIn => 3,
            MRCCClockSource::Clk16K => 4,
            MRCCClockSource::Clk1M => 5,
            MRCCClockSource::SPllDiv => 6,
            MRCCClockSource::NoClock => 7,
        }
    }
}

/// The peripherals of the MRCC registry with reset, clock-gate and
/// automatic clock-gating control; the variant order follows the register
/// map.
#[derive(Clone, Copy, Debug, PartialEq, Eq, Structural)]
pub enum MrccPeripheral {
    Inputmux0,
    I3c0,
    Ctimer0,
    Ctimer1,
    Ctimer2,
    Ctimer3,
    Ctimer4,
    Freqme0,
    Utick0,
    Smartdma0,
    Dma0,
    Aoi0,
    Crc0,
    Eim0,
    Erm0,
    Aoi1,
    Flexio0,
    Lpi2c0,
    Lpi2c1,
    Lpspi0,
    Lpspi1,
    Lpuart0,
    Lpuart1,
    Lpuart2,
    Lpuart3,
    Lpuart4,
    Usb0,
    Eqdc0,
    Eqdc1,
    Flexpwm0,
    Flexpwm1,
    Ostimer0,
    Adc0,
    Adc1,
    Cmp1,
    Cmp2,
    Dac0,
    Opamp0,
    Opamp1,
    Opamp2,
    Opamp3,
    Port0,
    Port1,
    Port2,
    Port3,
    Port4,
    Slcd0,
    Can0,
    Can1,
    Lpi2c2,
    Lpi2c3,
    Lpuart5,
    Pkc0,
    Trng0,
    Adc2,
    Adc3,
    Gpio0,
    Gpio1,
    Gpio2,
    Gpio3,
    Gpio4,
}

impl MrccPeripheral {
    /// The registry table: each peripheral's (register group, bit index).
    pub open spec fn table_spec(self) -> MrccGate {
        match self {
            MrccPeripheral::Inputmux0 => MrccGate { group: 0, bit: 0 },
            MrccPeripheral::I3c0 => MrccGate { group: 0, bit: 1 },
            MrccPeripheral::Ctimer0 => MrccGate { group: 0, bit: 2 },
            MrccPeripheral::Ctimer1 => MrccGate { group: 0, bit: 3 },
            MrccPeripheral::Ctimer2 => MrccGate { group: 0, bit: 4 },
            MrccPeripheral::Ctimer3 => MrccGate { group: 0, bit: 5 },
            MrccPeripheral::Ctimer4 => MrccGate { group: 0, bit: 6 },
            MrccPeripheral::Freqme0 => MrccGate { group: 0, bit: 7 },
            MrccPeripheral::Utick0 => MrccGate { group: 0, bit: 8 },
            MrccPeripheral::Smartdma0 => MrccGate { group: 0, bit: 10 },
            MrccPeripheral::Dma0 => MrccGate { group: 0, bit: 11 },
            MrccPeripheral::Aoi0 => MrccGate { group: 0, bit: 12 },
            MrccPeripheral::Crc0 => MrccGate { group: 0, bit: 13 },
            MrccPeripheral::Eim0 => MrccGate { group: 0, bit: 14 },
            MrccPeripheral::Erm0 => MrccGate { group: 0, bit: 15 },
            MrccPeripheral::Aoi1 => MrccGate { group: 0, bit: 17 },
            MrccPeripheral::Flexio0 => MrccGate { group: 0, bit: 18 },
            MrccPeripheral::Lpi2c0 => MrccGate { group: 0, bit: 19 },
            MrccPeripheral::Lpi2c1 => MrccGate { group: 0, bit: 20 },
            MrccPeripheral::Lpspi0 => MrccGate { group: 0, bit: 21 },
            MrccPeripheral::Lpspi1 => MrccGate { group: 0, bit: 22 },
            MrccPeripheral::Lpuart0 => MrccGate { group: 0, bit: 23 },
            MrccPeripheral::Lpuart1 => MrccGate { group: 0, bit: 24 },
            MrccPeripheral::Lpuart2 => MrccGate { group: 0, bit: 25 },
            MrccPeripheral::Lpuart3 => MrccGate { group: 0, bit: 26 },
            MrccPeripheral::Lpuart4 => MrccGate { group: 0, bit: 27 },
            MrccPeripheral::Usb0 => MrccGate { group: 0, bit: 28 },
            MrccPeripheral::Eqdc0 => MrccGate { group: 0, bit: 29 },
            MrccPeripheral::Eqdc1 => MrccGate { group: 0, bit: 30 },
            MrccPeripheral::Flexpwm0 => MrccGate { group: 0, bit: 31 },
            MrccPeripheral::Flexpwm1 => MrccGate { group: 1, bit: 0 },
            MrccPeripheral::Ostimer0 => MrccGate { group: 1, bit: 1 },
            MrccPeripheral::Adc0 => MrccGate { group: 1, bit: 2 },
            MrccPeripheral::Adc1 => MrccGate { group: 1, bit: 3 },
            MrccPeripheral::Cmp1 => MrccGate { group: 1, bit: 5 },
            MrccPeripheral::Cmp2 => MrccGate { group: 1, bit: 6 },
            MrccPeripheral::Dac0 => MrccGate { group: 1, bit: 7 },
            MrccPeripheral::Opamp0 => MrccGate { group: 1, bit: 8 },
            MrccPeripheral::Opamp1 => MrccGate { group: 1, bit: 9 },
            MrccPeripheral::Opamp2 => MrccGate { group: 1, bit: 10 },
            MrccPeripheral::Opamp3 => MrccGate { group: 1, bit: 11 },
            MrccPeripheral::Port0 => MrccGate { group: 1, bit: 12 },
            MrccPeripheral::Port1 => MrccGate { group: 1, bit: 13 },
            MrccPeripheral::Port2 => MrccGate { group: 1, bit: 14 },
            MrccPeripheral::Port3 => MrccGate { group: 1, bit: 15 },
            MrccPeripheral::Port4 => MrccGate { group: 1, bit: 16 },
            MrccPeripheral::Slcd0 => MrccGate { group: 1, bit: 17 },
            MrccPeripheral::Can0 => MrccGate { group: 1, bit: 18 },
            MrccPeripheral::Can1 => MrccGate { group: 1, bit: 19 },
            MrccPeripheral::Lpi2c2 => MrccGate { group: 1, bit: 20 },
            MrccPeripheral::Lpi2c3 => MrccGate { group: 1, bit: 21 },
            MrccPeripheral::Lpuart5 => MrccGate { group: 1, bit: 22 },
            MrccPeripheral::Pkc0 => MrccGate { group: 1, bit: 24 },
            MrccPeripheral::Trng0 => MrccGate { group: 1, bit: 26 },
            MrccPeripheral::Adc2 => MrccGate { group: 1, bit: 28 },
            MrccPeripheral::Adc3 => MrccGate { group: 1, bit: 29 },
            MrccPeripheral::Gpio0 => MrccGate { group: 2, bit: 4 },
            MrccPeripheral::Gpio1 => MrccGate { group: 2, bit: 5 },
            MrccPeripheral::Gpio2 => MrccGate { group: 2, bit: 6 },
            MrccPeripheral::Gpio3 => MrccGate { group: 2, bit: 7 },
            MrccPeripheral::Gpio4 => MrccGate { group: 2, bit: 8 },
        }
    }
}

impl PeripheralMRCC for MrccPeripheral {
    open spec fn gate_spec(&self) -> MrccGate {
        self.table_spec()
    }

    fn gate(&self) -> (g: MrccGate) {
        match self {
            MrccPeripheral::Inputmux0 => MrccGate { group: 0, bit: 0 },
            MrccPeripheral::I3c0 => MrccGate { group: 0, bit: 1 },
            MrccPeripheral::Ctimer0 => MrccGate { group: 0, bit: 2 },
            MrccPeripheral::Ctimer1 => MrccGate { group: 0, bit: 3 },
            MrccPeripheral::Ctimer2 => MrccGate { group: 0, bit: 4 },
            MrccPeripheral::Ctimer3 => MrccGate { group: 0, bit: 5 },
            MrccPeripheral::Ctimer4 => MrccGate { group: 0, bit: 6 },
            MrccPeripheral::Freqme0 => MrccGate { group: 0, bit: 7 },
            MrccPeripheral::Utick0 => MrccGate { group: 0, bit: 8 },
            MrccPeripheral::Smartdma0 => MrccGate { group: 0, bit: 10 },
            MrccPeripheral::Dma0 => MrccGate { group: 0, bit: 11 },
            MrccPeripheral::Aoi0 => MrccGate { group: 0, bit: 12 },
            MrccPeripheral::Crc0 => MrccGate { group: 0, bit: 13 },
            MrccPeripheral::Eim0 => MrccGate { group: 0, bit: 14 },
            MrccPeripheral::Erm0 => MrccGate { group: 0, bit: 15 },
            MrccPeripheral::Aoi1 => MrccGate { group: 0, bit: 17 },
            MrccPeripheral::Flexio0 => MrccGate { group: 0, bit: 18 },
            MrccPeripheral::Lpi2c0 => MrccGate { group: 0, bit: 19 },
            MrccPeripheral::Lpi2c1 => MrccGate { group: 0, bit: 20 },
            MrccPeripheral::Lpspi0 => MrccGate { group: 0, bit: 21 },
            MrccPeripheral::Lpspi1 => MrccGate { group: 0, bit: 22 },
            MrccPeripheral::Lpuart0 => MrccGate { group: 0, bit: 23 },
            MrccPeripheral::Lpuart1 => MrccGate { group: 0, bit: 24 },
            MrccPeripheral::Lpuart2 => MrccGate { group: 0, bit: 25 },
            MrccPeripheral::Lpuart3 => MrccGate { group: 0, bit: 26 },
            MrccPeripheral::Lpuart4 => MrccGate { group: 0, bit: 27 },
            MrccPeripheral::Usb0 => MrccGate { group: 0, bit: 28 },
            MrccPeripheral::Eqdc0 => MrccGate { group: 0, bit: 29 },
            MrccPeripheral::Eqdc1 => MrccGate { group: 0, bit: 30 },
            MrccPeripheral::Flexpwm0 => MrccGate { group: 0, bit: 31 },
            MrccPeripheral::Flexpwm1 => MrccGate { group: 1, bit: 0 },
            MrccPeripheral::Ostimer0 => MrccGate { group: 1, bit: 1 },
            MrccPeripheral::Adc0 => MrccGate { group: 1, bit: 2 },
            MrccPeripheral::Adc1 => MrccGate { group: 1, bit: 3 },
            MrccPeripheral::Cmp1 => MrccGate { group: 1, bit: 5 },
            MrccPeripheral::Cmp2 => MrccGate { group: 1, bit: 6 },
            MrccPeripheral::Dac0 => MrccGate { group: 1, bit: 7 },
            MrccPeripheral::Opamp0 => MrccGate { group: 1, bit: 8 },
            MrccPeripheral::Opamp1 => MrccGate { group: 1, bit: 9 },
            MrccPeripheral::Opamp2 => MrccGate { group: 1, bit: 10 },
            MrccPeripheral::Opamp3 => MrccGate { group: 1, bit: 11 },
            MrccPeripheral::Port0 => MrccGate { group: 1, bit: 12 },
            MrccPeripheral::Port1 => MrccGate { group: 1, bit: 13 },
            MrccPeripheral::Port2 => MrccGate { group: 1, bit: 14 },
            MrccPeripheral::Port3 => MrccGate { group: 1, bit: 15 },
            MrccPeripheral::Port4 => MrccGate { group: 1, bit: 16 },
            MrccPeripheral::Slcd0 => MrccGate { group: 1, bit: 17 },
            MrccPeripheral::Can0 => MrccGate { group: 1, bit: 18 },
            MrccPeripheral::Can1 => MrccGate { group: 1, bit: 19 },
            MrccPeripheral::Lpi2c2 => MrccGate { group: 1, bit: 20 },
            MrccPeripheral::Lpi2c3 => MrccGate { group: 1, bit: 21 },
            MrccPeripheral::Lpuart5 => MrccGate { group: 1, bit: 22 },
            MrccPeripheral::Pkc0 => MrccGate { group: 1, bit: 24 },
            MrccPeripheral::Trng0 => MrccGate { group: 1, bit: 26 },
            MrccPeripheral::Adc2 => MrccGate { group: 1, bit: 28 },
            MrccPeripheral::Adc3 => MrccGate { group: 1, bit: 29 },
            MrccPeripheral::Gpio0 => MrccGate { group: 2, bit: 4 },
            MrccPeripheral::Gpio1 => MrccGate { group: 2, bit: 5 },
            MrccPeripheral::Gpio2 => MrccGate { group: 2, bit: 6 },
            MrccPeripheral::Gpio3 => MrccGate { group: 2, bit: 7 },
            MrccPeripheral::Gpio4 => MrccGate { group: 2, bit: 8 },
        }
    }
}

impl crate::syscon::mrcc::PeripheralRST for MrccPeripheral {
    fn reset(&self, mrcc: &mut MrccRegs, release: bool) {
        let g = self.gate();
        mrcc_rst_write(mrcc, g, release);
    }
}

impl PeripheralCC for MrccPeripheral {
    fn clock(&self, mrcc: &mut MrccRegs, enable: bool) {
        let g = self.gate();
        mrcc_cc_write(mrcc, g, enable);
    }
}

impl PeripheralACC for MrccPeripheral {
    fn auto_clock_gating(&self, mrcc: &mut MrccRegs, enable: bool) {
        let g = self.gate();
        mrcc_acc_write(mrcc, g, enable);
    }
}

impl crate::syscon::PeripheralRST for MrccPeripheral {
    fn assert_reset(&self, mrcc: &mut MrccRegs, release: bool) {
        let g = self.gate();
        mrcc_rst_write(mrcc, g, release);
    }

    fn reset(&self, mrcc: &mut MrccRegs) {
        self.assert_reset(mrcc, true);
        self.assert_reset(mrcc, false);
    }
}

impl crate::syscon::PeripheralCC for MrccPeripheral {
    fn enable_clock(&self, mrcc: &mut MrccRegs, enable: bool) {
        let g = self.gate();
        mrcc_cc_write(mrcc, g, enable);
    }
}

impl crate::syscon::PeripheralEn for MrccPeripheral {
    fn enable(&self, mrcc: &mut MrccRegs, enable: bool) {
        let g = self.gate();
        mrcc_cc_write(mrcc, g, enable);
    }
}

} // verus!
