use mcx_hal::clock::{clkout, syscon::enable_systick, syscon::SystickClockSource, systick};
use mcx_hal::regs::mrcc::{MrccRegs, PeripheralClockSlot};
use mcx_hal::regs::syscon::SysconRegs;
use mcx_hal::regs::DivReg;
use mcx_hal::syscon::mrcc_divider::{
    setup_clkout_clock_source, setup_clkout_divider, setup_divider,
    setup_peripheral_clock_source, setup_peripheral_divider, ClkOutSource,
};
use mcx_hal::syscon::syscon_divider::{
    setup_ahbclk_divider, setup_fro_hf_divider, setup_fro_lf_divider, setup_spll_clk_divider,
};
use mcx_hal::syscon::MRCCClockSource;

#[test]
fn systick_setup_and_read_back() {
    let mut syscon = SysconRegs::new();
    systick::setup(&mut syscon, 0, systick::ClockSource::MainClock(4));
    assert_eq!(syscon.systick0_sel, 0);
    assert_eq!(syscon.systick0_div.div, 4);
    assert!(!syscon.systick0_div.halt);
    assert_eq!(
        systick::get_source(&syscon, 0),
        systick::ClockSource::MainClock(4)
    );

    systick::setup(&mut syscon, 1, systick::ClockSource::Clk1M);
    assert_eq!(systick::get_source(&syscon, 1), systick::ClockSource::Clk1M);

    systick::setup(&mut syscon, 1, systick::ClockSource::NoClock);
    assert_eq!(syscon.systick1_sel, 0b111);
    assert_eq!(systick::get_source(&syscon, 1), systick::ClockSource::NoClock);
}

#[test]
fn enable_systick_selects_and_divides() {
    let mut syscon = SysconRegs::new();
    enable_systick(&mut syscon, 0, SystickClockSource::MainClock(2));
    assert_eq!(syscon.systick0_sel, 0);
    assert_eq!(syscon.systick0_div.div, 2);

    enable_systick(&mut syscon, 0, SystickClockSource::Disable);
    assert_eq!(syscon.systick0_sel, 0b111);

    enable_systick(&mut syscon, 1, SystickClockSource::Clk1M);
    assert_eq!(syscon.systick1_sel, 0b001);
}

#[test]
fn clkout_setup_and_read_back() {
    let mut syscon = SysconRegs::new();
    clkout::setup(&mut syscon, clkout::ClockSource::SPll, 3);
    assert_eq!(syscon.clkout_sel, 5);
    assert_eq!(clkout::get_source(&syscon), clkout::ClockSource::SPll);
    assert_eq!(clkout::get_div(&syscon), 3);

    clkout::halt(&mut syscon);
    assert!(syscon.clkout_div.halt);
    clkout::run(&mut syscon);
    assert!(!syscon.clkout_div.halt);

    clkout::setup(&mut syscon, clkout::ClockSource::NoClock, 0);
    assert_eq!(syscon.clkout_sel, 0b1111);
    assert_eq!(clkout::get_source(&syscon), clkout::ClockSource::NoClock);
}

#[test]
fn generic_divider_runs_or_halts() {
    let mut reg = DivReg::new();
    setup_divider(&mut reg, Some(6));
    assert_eq!(reg, DivReg { div: 6, halt: false, reset: false });
    assert!(!reg.unstab());
    setup_divider(&mut reg, None);
    assert_eq!(reg, DivReg { div: 0, halt: true, reset: false });
}

#[test]
fn mrcc_clkout_source_and_divider() {
    let mut mrcc = MrccRegs::new();
    setup_clkout_clock_source(&mut mrcc, ClkOutSource::SPll);
    assert_eq!(mrcc.clkout_sel, 5);
    setup_clkout_clock_source(&mut mrcc, ClkOutSource::NoClock);
    assert_eq!(mrcc.clkout_sel, 7);
    setup_clkout_divider(&mut mrcc, Some(2));
    assert_eq!(mrcc.clkout_div.div, 2);
    assert!(!mrcc.clkout_div.halt);
    setup_clkout_divider(&mut mrcc, None);
    assert!(mrcc.clkout_div.halt);
}

#[test]
fn mrcc_clock_source_codes() {
    assert_eq!(MRCCClockSource::FroLfDiv.code(), 0);
    assert_eq!(MRCCClockSource::Clk1M.code(), 5);
    assert_eq!(MRCCClockSource::SPllDiv.code(), 6);
    assert_eq!(MRCCClockSource::NoClock.code(), 7);
}

#[test]
fn syscon_dividers() {
    let mut syscon = SysconRegs::new();
    setup_ahbclk_divider(&mut syscon, 1);
    assert_eq!(syscon.ahbclkdiv, DivReg { div: 1, halt: false, reset: false });
    setup_fro_lf_divider(&mut syscon, Some(3));
    assert_eq!(syscon.frolfdiv.div, 3);
    setup_fro_hf_divider(&mut syscon, None);
    assert!(syscon.frohfdiv.halt);
    setup_spll_clk_divider(&mut syscon, Some(2));
    assert_eq!(syscon.pll1clkdiv, DivReg { div: 2, halt: false, reset: false });
}

#[test]
fn peripheral_clock_slots_are_independent() {
    let mut mrcc = MrccRegs::new();
    setup_peripheral_clock_source(
        &mut mrcc,
        PeripheralClockSlot::Lpuart2,
        MRCCClockSource::FroHfDiv,
    );
    setup_peripheral_divider(&mut mrcc, PeripheralClockSlot::Lpuart2, Some(4));
    assert_eq!(mrcc.lpuart2_clk.sel, 2);
    assert_eq!(mrcc.lpuart2_clk.div, DivReg { div: 4, halt: false, reset: false });
    assert_eq!(mrcc.lpuart1_clk, MrccRegs::new().lpuart1_clk, "other slots untouched");

    setup_peripheral_clock_source(
        &mut mrcc,
        PeripheralClockSlot::Ctimer3,
        MRCCClockSource::Clk1M,
    );
    assert_eq!(mrcc.ctimer3_clk.sel, 5);
    setup_peripheral_divider(&mut mrcc, PeripheralClockSlot::Ctimer3, None);
    assert!(mrcc.ctimer3_clk.div.halt);
    assert_eq!(mrcc.slot(PeripheralClockSlot::Ctimer3).sel, 5);
}
