use mcx_hal::clock::syscon::{ClockExt, PeripheralClockGate, PeripheralClocks};
use mcx_hal::regs::mrcc::MrccRegs;
use mcx_hal::regs::syscon::SysconRegs;
use mcx_hal::syscon::device::MrccPeripheral;
use mcx_hal::syscon::mrcc::{PeripheralACC, PeripheralCC, PeripheralMRCC};
use mcx_hal::syscon::{PeripheralCC as SysconCC, PeripheralEn, PeripheralRST as SysconRST};

#[test]
fn gate_table_lookups() {
    assert_eq!(
        PeripheralClocks::GPIO0.gate(),
        Some(PeripheralClockGate { group: 0, bit: 19 })
    );
    assert_eq!(
        PeripheralClocks::SCG0.gate(),
        Some(PeripheralClockGate { group: 2, bit: 26 })
    );
    assert_eq!(PeripheralClocks::PORT5.gate(), None);
}

#[test]
fn enable_sets_the_gate_bit() {
    let mut syscon = SysconRegs::new();
    PeripheralClocks::GPIO0.enable(&mut syscon);
    assert_eq!(syscon.ahbclkctrl(0), 1 << 19);
    PeripheralClocks::SCG0.enable(&mut syscon);
    assert_eq!(syscon.ahbclkctrl(2), 1 << 26);
}

#[test]
fn enable_twice_equals_enable_once() {
    let mut once = SysconRegs::new();
    PeripheralClocks::PORT1.enable(&mut once);
    let mut twice = SysconRegs::new();
    PeripheralClocks::PORT1.enable(&mut twice);
    PeripheralClocks::PORT1.enable(&mut twice);
    assert_eq!(once, twice);
}

#[test]
fn disable_twice_equals_disable_once() {
    let mut base = SysconRegs::new();
    base.ahbclkctrl0 = 0xffff_ffff;
    let mut once = base;
    PeripheralClocks::PORT1.disable(&mut once);
    let mut twice = base;
    PeripheralClocks::PORT1.disable(&mut twice);
    PeripheralClocks::PORT1.disable(&mut twice);
    assert_eq!(once, twice);
    assert_eq!(once.ahbclkctrl(0), 0xffff_ffff & !(1 << 14));
}

#[test]
fn enable_then_disable_restores_a_clear_bit() {
    let mut syscon = SysconRegs::new();
    PeripheralClocks::FMU0.enable(&mut syscon);
    assert_eq!(syscon.ahbclkctrl(0), 1 << 9);
    PeripheralClocks::FMU0.disable(&mut syscon);
    assert_eq!(syscon.ahbclkctrl(0), 0);
}

#[test]
fn gateless_peripheral_writes_nothing() {
    let mut syscon = SysconRegs::new();
    let before = syscon;
    PeripheralClocks::PORT5.enable(&mut syscon);
    PeripheralClocks::GPIO5.disable(&mut syscon);
    assert_eq!(syscon, before);
}

#[test]
fn mrcc_clock_gate_set_and_idempotence() {
    let mut mrcc = MrccRegs::new();
    MrccPeripheral::Gpio0.clock(&mut mrcc, true);
    assert_eq!(mrcc.cc(2), 1 << 4);
    let once = mrcc;
    MrccPeripheral::Gpio0.clock(&mut mrcc, true);
    assert_eq!(mrcc, once, "write-1-to-set is idempotent");
    MrccPeripheral::Gpio0.clock(&mut mrcc, false);
    assert_eq!(mrcc.cc(2), 0);
}

#[test]
fn mrcc_gate_coordinates() {
    assert_eq!(MrccPeripheral::Inputmux0.gate().group, 0);
    assert_eq!(MrccPeripheral::Inputmux0.gate().bit, 0);
    assert_eq!(MrccPeripheral::Lpuart0.gate().bit, 23);
    assert_eq!(MrccPeripheral::Ostimer0.gate().group, 1);
    assert_eq!(MrccPeripheral::Gpio2.gate().bit, 6);
    assert_eq!(MrccPeripheral::Flexpwm0.gate().group, 0);
    assert_eq!(MrccPeripheral::Flexpwm0.gate().bit, 31);
    assert_eq!(MrccPeripheral::Flexpwm1.gate().group, 1);
    assert_eq!(MrccPeripheral::Flexpwm1.gate().bit, 0);
    assert_eq!(MrccPeripheral::Gpio4.gate().group, 2);
    assert_eq!(MrccPeripheral::Gpio4.gate().bit, 8);
}

#[test]
fn mrcc_reset_release_and_assert() {
    let mut mrcc = MrccRegs::new();
    mcx_hal::syscon::mrcc::PeripheralRST::reset(&MrccPeripheral::Dma0, &mut mrcc, true);
    assert_eq!(mrcc.rst(0), 1 << 11, "release sets the bit");
    mcx_hal::syscon::mrcc::PeripheralRST::reset(&MrccPeripheral::Dma0, &mut mrcc, false);
    assert_eq!(mrcc.rst(0), 0, "assert clears it");
}

#[test]
fn syscon_reset_pulse_ends_asserted() {
    let mut mrcc = MrccRegs::new();
    SysconRST::assert_reset(&MrccPeripheral::Crc0, &mut mrcc, true);
    assert_eq!(mrcc.rst(0), 1 << 13);
    SysconRST::reset(&MrccPeripheral::Crc0, &mut mrcc);
    assert_eq!(mrcc.rst(0), 0, "the pulse releases and then asserts the reset");
}

#[test]
fn syscon_clock_traits_drive_the_same_gate() {
    let mut a = MrccRegs::new();
    SysconCC::enable_clock(&MrccPeripheral::Lpuart1, &mut a, true);
    let mut b = MrccRegs::new();
    PeripheralEn::enable(&MrccPeripheral::Lpuart1, &mut b, true);
    assert_eq!(a, b);
    assert_eq!(a.cc(0), 1 << 24);
}

#[test]
fn mrcc_auto_clock_gating_toggles_on_enable_and_clears_on_disable() {
    let mut mrcc = MrccRegs::new();
    MrccPeripheral::Adc0.auto_clock_gating(&mut mrcc, true);
    assert_eq!(mrcc.acc(1), 1 << 2);
    MrccPeripheral::Adc0.auto_clock_gating(&mut mrcc, true);
    assert_eq!(mrcc.acc(1), 0, "the enable write toggles the bit");
    MrccPeripheral::Adc0.auto_clock_gating(&mut mrcc, true);
    MrccPeripheral::Adc0.auto_clock_gating(&mut mrcc, false);
    assert_eq!(mrcc.acc(1), 0);
}
