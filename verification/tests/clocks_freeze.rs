use mcx_hal::clock::scg::{Clocks, Config, FIRCRange, MainClockSource, SOSCMode};
use mcx_hal::power::RunMode;
use mcx_hal::regs::{FmuRegs, ScgRegs, SpcRegs, WriteEvent};

fn engine() -> Clocks {
    Clocks::constrain(ScgRegs::new(), SpcRegs::new(), FmuRegs::new())
}

#[test]
fn constrain_starts_in_mid_drive_with_empty_log() {
    let clocks = engine();
    assert_eq!(clocks.get_current_run_mode(), RunMode::MidDrive);
    assert!(clocks.log.is_empty());
    assert!(clocks.config.is_valid());
}

#[test]
fn config_constructors_and_selectors() {
    let mut c = Config::new();
    assert_eq!(c.main_clock_source, MainClockSource::SIRC);
    c.use_firc();
    assert_eq!(c.main_clock_source, MainClockSource::FIRC);
    c.use_sosc();
    assert_eq!(c.main_clock_source, MainClockSource::SOSC);
    c.use_sirc();
    assert_eq!(c.main_clock_source, MainClockSource::SIRC);
    c.set_main_clock_source(MainClockSource::FIRC);
    c.set_firc_range(Some(FIRCRange::FIRC144M));
    assert!(c.is_valid());

    let hf = Config::new_frohf48m();
    assert_eq!(hf.main_clock_source, MainClockSource::FIRC);
    assert_eq!(hf.get_firc_clk(), Some(48_000_000));
    assert!(hf.is_valid());
}

#[test]
fn config_clock_getters() {
    let mut c = Config::new_fro12m();
    assert_eq!(c.get_sirc_1mhz(), Some(1_000_000));
    assert_eq!(c.get_sirc_12mhz(), Some(12_000_000));
    assert_eq!(c.get_main_clk(), Some(12_000_000));
    assert_eq!(c.get_system_clk(), Some(12_000_000));
    assert_eq!(c.get_firc_clk(), None);
    assert_eq!(c.get_sosc_clk(), None);
    assert_eq!(c.get_firc_144mhz(), None);
    assert_eq!(c.get_firc_48mhz(), None);

    c.firc_fclk_periph_en = true;
    c.firc_sclk_periph_en = true;
    assert_eq!(c.get_firc_144mhz(), Some(144_000_000));
    assert_eq!(c.get_firc_48mhz(), Some(48_000_000));

    c.sosc_mode = Some(SOSCMode::RefClock(24_000_000));
    assert_eq!(c.get_sosc_clk(), Some(24_000_000));

    c.firc_range = Some(FIRCRange::FIRC144M);
    c.main_clock_source = MainClockSource::FIRC;
    c.ahbclkdiv = 2;
    assert_eq!(c.get_main_clk(), Some(144_000_000));
    assert_eq!(c.get_system_clk(), Some(72_000_000));
}

#[test]
fn config_validation_bounds() {
    let mut c = Config::new_fro12m();
    assert!(c.is_valid());
    c.sosc_mode = Some(SOSCMode::Oscillator(8_000_000));
    assert!(c.is_valid());
    c.sosc_mode = Some(SOSCMode::Oscillator(7_999_999));
    assert!(!c.is_valid());
    c.sosc_mode = Some(SOSCMode::Oscillator(66_000_000));
    assert!(!c.is_valid());

    let mut firc = Config::new_fro12m();
    firc.main_clock_source = MainClockSource::FIRC;
    assert!(!firc.is_valid());
    firc.firc_range = Some(FIRCRange::FIRC48M);
    assert!(firc.is_valid());

    let mut rosc = Config::new_fro12m();
    rosc.main_clock_source = MainClockSource::ROSC;
    assert!(!rosc.is_valid());
}

#[test]
fn freeze_to_sosc_24mhz_keeps_mid_drive() {
    let mut clocks = engine();
    let mut c = Config::new_fro12m();
    c.sosc_mode = Some(SOSCMode::Oscillator(24_000_000));
    c.use_sosc();
    clocks.use_config(c);
    clocks.freeze();

    assert_eq!(clocks.scg.csr_scs(), 1, "the status field echoes the SOSC code");
    assert_eq!(clocks.scg.sosccfg.range, 1, "24 MHz lies in the 20-30 MHz band");
    assert!(clocks.scg.sosccsr.en);
    assert_eq!(clocks.get_current_run_mode(), RunMode::MidDrive);
    assert!(clocks.log.is_empty(), "no run-mode change, no power writes");
}

#[test]
fn freeze_increase_write_order_mid_to_overdrive() {
    let mut clocks = engine();
    let mut c = Config::new_fro12m();
    c.firc_range = Some(FIRCRange::FIRC144M);
    c.firc_fclk_periph_en = true;
    c.use_firc();
    clocks.use_config(c);
    clocks.freeze();

    assert_eq!(clocks.get_current_run_mode(), RunMode::OverDrive);
    assert_eq!(
        clocks.log,
        vec![
            WriteEvent::CoreVoltage(3),
            WriteEvent::PowerBusyPoll,
            WriteEvent::FlashWaitStates(3),
            WriteEvent::SramVoltage(3),
            WriteEvent::SramRequest(true),
            WriteEvent::SramAckPoll,
            WriteEvent::SramRequest(false),
        ]
    );
    assert_eq!(clocks.spc.coreldo_vdd_lvl, 3);
    assert_eq!(clocks.spc.dcdc_vdd_lvl, 3);
    assert_eq!(clocks.spc.sram_vsm, 3);
    assert!(!clocks.spc.sram_req);
    assert_eq!(clocks.fmu.rwsc, 3);
    assert_eq!(clocks.scg.csr_scs(), 3);
}

#[test]
fn freeze_decrease_write_order_is_reverse_grouping() {
    let mut clocks = engine();
    let mut up = Config::new_fro12m();
    up.firc_range = Some(FIRCRange::FIRC144M);
    up.firc_fclk_periph_en = true;
    up.use_firc();
    clocks.use_config(up);
    clocks.freeze();
    let after_increase = clocks.log.len();

    clocks.use_config(Config::new_fro12m());
    clocks.freeze();

    assert_eq!(clocks.get_current_run_mode(), RunMode::MidDrive);
    assert_eq!(
        &clocks.log[after_increase..],
        &[
            WriteEvent::FlashWaitStates(0),
            WriteEvent::SramVoltage(1),
            WriteEvent::SramRequest(true),
            WriteEvent::SramAckPoll,
            WriteEvent::SramRequest(false),
            WriteEvent::CoreVoltage(1),
            WriteEvent::PowerBusyPoll,
        ],
        "the decrease is the exact reverse grouping: margins first, voltage last"
    );
    assert_eq!(clocks.spc.coreldo_vdd_lvl, 1);
    assert_eq!(clocks.fmu.rwsc, 0, "12 MHz under MidDrive needs no wait state");
}

#[test]
fn increase_run_mode_write_order_direct() {
    let mut clocks = engine();
    clocks.increase_run_mode(RunMode::StandardDrive, 64_000_000);
    assert_eq!(
        clocks.log,
        vec![
            WriteEvent::CoreVoltage(2),
            WriteEvent::PowerBusyPoll,
            WriteEvent::FlashWaitStates(1),
            WriteEvent::SramVoltage(2),
            WriteEvent::SramRequest(true),
            WriteEvent::SramAckPoll,
            WriteEvent::SramRequest(false),
        ]
    );
    assert_eq!(clocks.fmu.rwsc, 1);
}

#[test]
fn decrease_run_mode_write_order_direct() {
    let mut clocks = engine();
    clocks.decrease_run_mode(RunMode::MidDrive, 24_000_000);
    assert_eq!(
        clocks.log,
        vec![
            WriteEvent::FlashWaitStates(0),
            WriteEvent::SramVoltage(1),
            WriteEvent::SramRequest(true),
            WriteEvent::SramAckPoll,
            WriteEvent::SramRequest(false),
            WriteEvent::CoreVoltage(1),
            WriteEvent::PowerBusyPoll,
        ]
    );
}

#[test]
fn setup_run_mode_unchanged_is_a_no_op() {
    let mut clocks = engine();
    let spc_before = clocks.spc;
    let fmu_before = clocks.fmu;
    clocks.setup_run_mode(RunMode::MidDrive);
    assert!(clocks.log.is_empty(), "no register write for an unchanged run mode");
    assert_eq!(clocks.spc, spc_before);
    assert_eq!(clocks.fmu, fmu_before);
    assert_eq!(clocks.get_current_run_mode(), RunMode::MidDrive);
}

#[test]
fn setup_run_mode_dispatches_by_direction() {
    let mut clocks = engine();
    clocks.setup_run_mode(RunMode::OverDrive);
    assert_eq!(clocks.log[0], WriteEvent::CoreVoltage(3), "an increase raises voltage first");
    assert_eq!(clocks.spc.coreldo_vdd_lvl, 3);
}

#[test]
fn freeze_at_48mhz_stays_in_mid_drive() {
    let mut clocks = engine();
    clocks.use_config(Config::new_frohf48m());
    clocks.freeze();
    assert_eq!(clocks.get_current_run_mode(), RunMode::MidDrive);
    assert!(clocks.log.is_empty());
    assert_eq!(clocks.scg.csr_scs(), 3);
}
