use mcx_hal::regs::ScgRegs;
use mcx_hal::scg::{Config, MainClockSource, SCGError, FIRC, SCG, SOSC};

fn firc_config() -> Config {
    Config {
        sosc: None,
        sosc_stop_en: false,
        sirc_12m_clk_en: true,
        sirc_stop_en: false,
        firc: Some(FIRC::FIRC48M),
        firc_sclk_en: false,
        firc_fclk_en: true,
        firc_stop_en: false,
        main_clock_source: MainClockSource::FIRC,
    }
}

#[test]
fn main_clock_source_codes_and_validity() {
    assert_eq!(MainClockSource::SOSC.code(), 1);
    assert_eq!(MainClockSource::SIRC.code(), 2);
    assert_eq!(MainClockSource::FIRC.code(), 3);
    assert_eq!(MainClockSource::ROSC.code(), 4);
    assert_eq!(MainClockSource::TRO.code(), 8);
    assert!(MainClockSource::SOSC.valid());
    assert!(MainClockSource::ROSC.valid());
    assert!(!MainClockSource::SPLL.valid());
    assert!(!MainClockSource::TRO.valid());
}

#[test]
fn config_validation_requires_sub_configuration() {
    assert!(Config::default().valid());
    let mut c = firc_config();
    assert!(c.valid());
    c.firc_fclk_en = false;
    assert!(!c.valid());
    c.firc_fclk_en = true;
    c.firc = None;
    assert!(!c.valid(), "FIRC as main clock needs a selected range");

    let mut sosc = firc_config();
    sosc.main_clock_source = MainClockSource::SOSC;
    assert!(!sosc.valid());
    sosc.sosc = Some(SOSC::Oscillator(24_000_000));
    assert!(sosc.valid());

    let mut sirc = firc_config();
    sirc.main_clock_source = MainClockSource::SIRC;
    sirc.sirc_12m_clk_en = false;
    assert!(!sirc.valid());
}

#[test]
fn freeze_rejects_invalid_config_without_writes() {
    let mut engine = SCG::without_pins(ScgRegs::new());
    let before = engine.scg;
    let mut c = firc_config();
    c.firc_fclk_en = false;
    assert_eq!(engine.freeze(&c), Err(SCGError::InvalidConfig));
    assert_eq!(engine.scg, before);
}

#[test]
fn freeze_to_firc_switches_and_configures() {
    let mut engine = SCG::without_pins(ScgRegs::new());
    assert_eq!(engine.freeze(&firc_config()), Ok(()));
    assert_eq!(engine.scg.csr_scs(), 3);
    assert_eq!(engine.scg.rccr_scs, 3);
    assert!(engine.scg.firccsr.en);
    assert_eq!(engine.scg.firccfg.freq_sel, 1);
    assert!(engine.scg.firccsr.fclk_periph_en);
    assert!(engine.scg.sirccsr.clk_periph_en);
    assert!(!engine.scg.sosccsr.en, "an unconfigured crystal oscillator is disabled");
}

#[test]
fn freeze_to_sosc_echoes_source_code_1() {
    let mut engine = SCG::without_pins(ScgRegs::new());
    let mut c = firc_config();
    c.main_clock_source = MainClockSource::SOSC;
    c.sosc = Some(SOSC::Oscillator(24_000_000));
    assert_eq!(engine.freeze(&c), Ok(()));
    assert_eq!(engine.scg.csr_scs(), 1);
    assert_eq!(engine.scg.sosccfg.range, 1);
    assert!(engine.scg.sosccsr.en);
}

#[test]
fn freeze_propagates_sosc_out_of_range() {
    let mut engine = SCG::without_pins(ScgRegs::new());
    let mut c = firc_config();
    c.sosc = Some(SOSC::RefClock(5_000_000));
    assert_eq!(engine.freeze(&c), Err(SCGError::OutOfRange));
}

#[test]
fn freeze_sosc_disable_busy_guard() {
    let mut engine = SCG::without_pins(ScgRegs::new());
    engine.scg.sosccsr.sel = true;
    let before = engine.scg;
    assert_eq!(engine.freeze(&firc_config()), Err(SCGError::SOSCBusy));
    assert_eq!(engine.scg, before);
}

#[test]
fn freeze_sirc_busy_guard() {
    let mut engine = SCG::without_pins(ScgRegs::new());
    engine.scg.sirccsr.sel = true;
    let mut c = firc_config();
    c.sirc_12m_clk_en = false;
    assert_eq!(engine.freeze(&c), Err(SCGError::SIRCBusy));
    assert!(!engine.scg.firccsr.fclk_periph_en, "the FIRC step was never reached");
}

#[test]
fn freeze_reports_sirc_fault() {
    let mut engine = SCG::without_pins(ScgRegs::new());
    engine.scg.sirccsr.fault = true;
    assert_eq!(engine.freeze(&firc_config()), Err(SCGError::SIRCError));
}

#[test]
fn freeze_reports_firc_fault_after_partial_setup() {
    let mut engine = SCG::without_pins(ScgRegs::new());
    engine.scg.firccsr.fault = true;
    assert_eq!(engine.freeze(&firc_config()), Err(SCGError::FIRCError));
    assert!(engine.scg.sirccsr.clk_periph_en, "the SIRC step had completed");
    assert_eq!(engine.scg.rccr_scs, 2, "the switch was never reached");
}

#[test]
fn freeze_firc_disable_busy_guard() {
    let mut engine = SCG::without_pins(ScgRegs::new());
    engine.scg.firccsr.sel = true;
    let mut c = firc_config();
    c.firc = None;
    c.main_clock_source = MainClockSource::SIRC;
    assert_eq!(engine.freeze(&c), Err(SCGError::FIRCBusy));
}
