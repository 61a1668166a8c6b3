use mcx_hal::regs::ScgRegs;
use mcx_hal::scg::pll::{PllConfig, PllSource};
use mcx_hal::scg::SCGError;

fn config(n: Option<u8>, m: u16, p: Option<u8>) -> PllConfig {
    PllConfig { source: PllSource::SOSC, n, m, p, p2: false }
}

#[test]
fn selp_values() {
    assert_eq!(config(None, 4, None).selp(), 2);
    assert_eq!(config(None, 119, None).selp(), 30);
    assert_eq!(config(None, 120, None).selp(), 31);
    assert_eq!(config(None, 200, None).selp(), 31);
    assert_eq!(config(None, 65535, None).selp(), 31);
}

#[test]
fn seli_values() {
    assert_eq!(config(None, 1, None).seli(), 3);
    assert_eq!(config(None, 4, None).seli(), 5);
    assert_eq!(config(None, 121, None).seli(), 63);
    assert_eq!(config(None, 122, None).seli(), 63);
    assert_eq!(config(None, 160, None).seli(), 50);
    assert_eq!(config(None, 4000, None).seli(), 2);
    assert_eq!(config(None, 7999, None).seli(), 1);
    assert_eq!(config(None, 8000, None).seli(), 1);
    assert_eq!(config(None, 65535, None).seli(), 1);
}

#[test]
fn seli_non_increasing_past_122() {
    let mut prev = config(None, 122, None).seli();
    let mut m: u16 = 123;
    while m < 8000 {
        let cur = config(None, m, None).seli();
        assert!(cur <= prev, "seli grew at m={}", m);
        prev = cur;
        m += 1;
    }
}

#[test]
fn pll_config_validation() {
    assert!(config(Some(1), 6, Some(1)).valid());
    assert!(config(None, 1, None).valid());
    assert!(!config(None, 0, None).valid());
    assert!(!config(Some(0), 6, None).valid());
    assert!(!config(None, 6, Some(0)).valid());
    assert!(!config(None, 6, Some(31)).valid());
    assert!(config(None, 6, Some(30)).valid());
}

#[test]
fn pll_frequency_formula() {
    let c = config(Some(1), 6, Some(1));
    assert_eq!(c.freq_cco(24_000_000), 144_000_000);
    assert_eq!(c.freq_out(24_000_000), 72_000_000);
    assert_eq!(c.freq(24_000_000), 72_000_000);

    let no_post = config(Some(2), 25, None);
    assert_eq!(no_post.freq_cco(24_000_000), 300_000_000);
    assert_eq!(no_post.freq_out(24_000_000), 300_000_000);

    let no_pre = config(None, 12, Some(2));
    assert_eq!(no_pre.freq_cco(24_000_000), 288_000_000);
    assert_eq!(no_pre.freq_out(24_000_000), 72_000_000);
}

#[test]
fn pll_frequency_divides_last() {
    // input x M / N with the division last: an M/N that does not divide
    // evenly still yields the exact truncated rational, not a product of
    // a pre-truncated quotient.
    assert_eq!(config(Some(2), 3, None).freq_cco(10_000_000), 15_000_000);
    assert_eq!(config(Some(8), 100, None).freq_cco(24_000_000), 300_000_000);
    assert_eq!(config(Some(8), 100, Some(2)).freq_out(24_000_000), 75_000_000);
}

#[test]
fn enable_then_readback_agrees_with_formula() {
    let cases = [
        config(Some(1), 6, Some(1)),
        config(Some(2), 25, Some(2)),
        config(None, 12, Some(3)),
        config(Some(3), 40, None),
    ];
    for c in cases {
        let mut scg = ScgRegs::new();
        assert_eq!(PllConfig::enable_spll(&mut scg, c, false), Ok(()));
        assert!(scg.spll_lock());
        assert_eq!(
            PllConfig::readback_freq(&scg, 24_000_000),
            c.freq_out(24_000_000)
        );
    }
}

#[test]
fn enable_programs_loop_filter_and_dividers() {
    let mut scg = ScgRegs::new();
    let c = config(Some(2), 160, Some(4));
    assert_eq!(PllConfig::enable_spll(&mut scg, c, true), Ok(()));
    assert_eq!(scg.spllctrl.seli, 50);
    assert_eq!(scg.spllctrl.selp, 31);
    assert_eq!(scg.spllctrl.selr, 0);
    assert_eq!(scg.spllndiv.ndiv, 2);
    assert!(scg.spllndiv.nreq);
    assert_eq!(scg.spllmdiv.mdiv, 160);
    assert!(scg.spllmdiv.mreq);
    assert_eq!(scg.spllpdiv.pdiv, 4);
    assert!(scg.spllpdiv.preq);
    assert!(scg.spllcsr.pwren && scg.spllcsr.clken && scg.spllcsr.sten);
    assert!(scg.ldoen);
}

#[test]
fn enable_bypasses_omitted_stages() {
    let mut scg = ScgRegs::new();
    let c = config(None, 12, None);
    assert_eq!(PllConfig::enable_spll(&mut scg, c, false), Ok(()));
    assert!(scg.spllctrl.bypass_prediv);
    assert!(scg.spllctrl.bypass_postdiv);
}

#[test]
fn disable_while_selected_is_busy_and_writes_nothing() {
    let mut scg = ScgRegs::new();
    assert_eq!(PllConfig::enable_spll(&mut scg, config(Some(1), 6, Some(1)), false), Ok(()));
    scg.spllcsr.sel = true;
    let before = scg;
    assert_eq!(PllConfig::disable_spll(&mut scg), Err(SCGError::SPLLBusy));
    assert_eq!(scg, before);
}

#[test]
fn disable_powers_the_pll_down() {
    let mut scg = ScgRegs::new();
    assert_eq!(PllConfig::enable_spll(&mut scg, config(Some(1), 6, Some(1)), false), Ok(()));
    assert_eq!(PllConfig::disable_spll(&mut scg), Ok(()));
    assert!(!scg.spllcsr.pwren);
    assert!(!scg.spllcsr.clken);
    assert!(!scg.spll_lock());
}

#[test]
fn pll_source_codes() {
    assert_eq!(PllSource::SOSC.code(), 0);
    assert_eq!(PllSource::FIRC.code(), 1);
    assert_eq!(PllSource::ROSC.code(), 2);
    assert_eq!(PllSource::SIRC.code(), 3);
    assert!(PllSource::ROSC.valid());
}
