use mcx_hal::regs::ScgRegs;
use mcx_hal::scg::{SCGError, FIRC, SOSC};

#[test]
fn sosc_range_band_boundaries() {
    assert_eq!(SOSC::Oscillator(8_000_000).range(), Ok(0));
    assert_eq!(SOSC::Oscillator(19_999_999).range(), Ok(0));
    assert_eq!(SOSC::Oscillator(20_000_000).range(), Ok(1));
    assert_eq!(SOSC::Oscillator(29_999_999).range(), Ok(1));
    assert_eq!(SOSC::Oscillator(30_000_000).range(), Ok(2));
    assert_eq!(SOSC::Oscillator(49_999_999).range(), Ok(2));
    assert_eq!(SOSC::Oscillator(50_000_000).range(), Ok(3));
    assert_eq!(SOSC::Oscillator(65_999_999).range(), Ok(3));
    assert_eq!(SOSC::Oscillator(7_999_999).range(), Err(SCGError::OutOfRange));
    assert_eq!(SOSC::Oscillator(66_000_000).range(), Err(SCGError::OutOfRange));
    assert_eq!(SOSC::RefClock(0).range(), Err(SCGError::OutOfRange));
}

#[test]
fn sosc_range_code_for_24mhz_is_1() {
    assert_eq!(SOSC::Oscillator(24_000_000).range(), Ok(1));
}

#[test]
fn sosc_freq_reads_both_modes() {
    assert_eq!(SOSC::RefClock(12_345_678).freq(), 12_345_678);
    assert_eq!(SOSC::Oscillator(24_000_000).freq(), 24_000_000);
}

#[test]
fn sosc_enable_out_of_range_writes_nothing() {
    let mut scg = ScgRegs::new();
    let before = scg;
    assert_eq!(
        SOSC::enable(&mut scg, SOSC::Oscillator(66_000_000), false),
        Err(SCGError::OutOfRange)
    );
    assert_eq!(scg, before);
}

#[test]
fn sosc_enable_programs_mode_range_and_lock() {
    let mut scg = ScgRegs::new();
    assert_eq!(SOSC::enable(&mut scg, SOSC::Oscillator(24_000_000), true), Ok(()));
    assert!(scg.ldoen);
    assert!(scg.sosccfg.erefs);
    assert_eq!(scg.sosccfg.range, 1);
    assert!(scg.sosccsr.lk);
    assert!(scg.sosccsr.en);
    assert!(scg.sosccsr.sten);
    assert!(scg.soscvld());
    assert!(!scg.soscerr());
}

#[test]
fn sosc_enable_ref_clock_clears_erefs() {
    let mut scg = ScgRegs::new();
    assert_eq!(SOSC::enable(&mut scg, SOSC::RefClock(48_000_000), false), Ok(()));
    assert!(!scg.sosccfg.erefs);
    assert_eq!(scg.sosccfg.range, 2);
}

#[test]
fn sosc_enable_faulted_oscillator_reports_error() {
    let mut scg = ScgRegs::new();
    scg.sosccsr.fault = true;
    assert_eq!(
        SOSC::enable(&mut scg, SOSC::Oscillator(24_000_000), false),
        Err(SCGError::SOSCError)
    );
    assert!(scg.sosccsr.en);
}

#[test]
fn sosc_disable_while_selected_is_busy_and_writes_nothing() {
    let mut scg = ScgRegs::new();
    assert_eq!(SOSC::enable(&mut scg, SOSC::Oscillator(24_000_000), false), Ok(()));
    scg.sosccsr.sel = true;
    let before = scg;
    assert_eq!(SOSC::disable(&mut scg), Err(SCGError::SOSCBusy));
    assert_eq!(scg, before);
}

#[test]
fn sosc_disable_clears_enable_and_relocks() {
    let mut scg = ScgRegs::new();
    assert_eq!(SOSC::enable(&mut scg, SOSC::Oscillator(24_000_000), false), Ok(()));
    assert_eq!(SOSC::disable(&mut scg), Ok(()));
    assert!(!scg.sosccsr.en);
    assert!(scg.sosccsr.lk);
    assert!(scg.ldoen, "the LDO stays on for a PLL that may use it");
}

#[test]
fn firc_frequencies_and_codes() {
    assert_eq!(FIRC::FIRC48M.freq(), 48_000_000);
    assert_eq!(FIRC::FIRC64M.freq(), 64_000_000);
    assert_eq!(FIRC::FIRC96M.freq(), 96_000_000);
    assert_eq!(FIRC::FIRC192M.freq(), 192_000_000);
    assert_eq!(FIRC::FIRC48M.code(), 1);
    assert_eq!(FIRC::FIRC64M.code(), 3);
    assert_eq!(FIRC::FIRC96M.code(), 5);
    assert_eq!(FIRC::FIRC192M.code(), 7);
}

#[test]
fn firc_enable_programs_selection_and_gates() {
    let mut scg = ScgRegs::new();
    assert_eq!(FIRC::enable(&mut scg, FIRC::FIRC96M, true, true, false), Ok(()));
    assert_eq!(scg.firccfg.freq_sel, 5);
    assert!(scg.firccsr.en);
    assert!(scg.firccsr.sten);
    assert!(scg.firccsr.fclk_periph_en);
    assert!(!scg.firccsr.sclk_periph_en);
    assert!(scg.firccsr.lk);
    assert!(scg.fircvld());
}

#[test]
fn firc_enable_faulted_reference_reports_error() {
    let mut scg = ScgRegs::new();
    scg.firccsr.fault = true;
    assert_eq!(
        FIRC::enable(&mut scg, FIRC::FIRC48M, false, false, false),
        Err(SCGError::FIRCError)
    );
}

#[test]
fn firc_disable_while_selected_is_busy_and_writes_nothing() {
    let mut scg = ScgRegs::new();
    scg.firccsr.sel = true;
    let before = scg;
    assert_eq!(FIRC::disable(&mut scg), Err(SCGError::FIRCBusy));
    assert_eq!(scg, before);
}

#[test]
fn firc_disable_clears_enable() {
    let mut scg = ScgRegs::new();
    assert_eq!(FIRC::disable(&mut scg), Ok(()));
    assert!(!scg.firccsr.en);
    assert!(scg.firccsr.lk);
}
