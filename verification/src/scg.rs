//! System Clock Generator (SCG): oscillator controllers and the main
//! clock-source switch sequencer.
//!
//! A caller fills in a [`Config`] — which oscillators to enable, with what
//! parameters, and which of them becomes the main clock — and hands it to
//! [`SCG::freeze`], which validates it, configures the oscillators in
//! dependency order and then switches the main clock source.

use crate::regs::scg::SircCsr;
use crate::regs::ScgRegs;
use vstd::prelude::*;

pub mod firc;
pub mod pll;
pub mod sosc;

pub use firc::FIRC;
pub use sosc::SOSC;

verus! {

/// Errors of the clock-generator engine.
///
/// `SPLLBusy` belongs to the PLL controller's disable guard, in the same
/// spirit as the per-oscillator busy variants.
#[derive(Debug, Clone, Copy, PartialEq, Eq, Structural)]
pub enum SCGError {
    OutOfRange,
    SOSCBusy,
    SOSCError,
    SIRCBusy,
    SIRCError,
    FIRCBusy,
    FIRCError,
    SPLLBusy,
    InvalidConfig,
}

/// Main clock source selection.
#[derive(Debug, Default, Clone, Copy, PartialEq, Eq, Structural)]
pub enum MainClockSource {
    SOSC,
    SIRC,
    #[default]
    FIRC,
    ROSC,
    APLL,
    SPLL,
    UPLL,
    TRO,
}

impl MainClockSource {
    /// The RCCR.SCS source code of this selection.
    pub open spec fn code_spec(self) -> u8 {
        match self {
            MainClockSource::SOSC => 1,
            MainClockSource::SIRC => 2,
            MainClockSource::FIRC => 3,
            MainClockSource::ROSC => 4,
            MainClockSource::APLL => 5,
            MainClockSource::SPLL => 6,
            MainClockSource::UPLL => 7,
            MainClockSource::TRO => 8,
        }
    }

    /// Returns the RCCR.SCS source code of this selection.
    pub fn code(&self) -> (r: u8)
        ensures
            r == self.code_spec(),
    {
        match self {
            MainClockSource::SOSC => 1,
            MainClockSource::SIRC => 2,
            MainClockSource::FIRC => 3,
            MainClockSource::ROSC => 4,
            MainClockSource::APLL => 5,
            MainClockSource::SPLL => 6,
            MainClockSource::UPLL => 7,
            MainClockSource::TRO => 8,
        }
    }

    /// Whether this source may drive the main clock on this silicon
    /// variant.
    pub open spec fn valid_spec(self) -> bool {
        match self {
            MainClockSource::SOSC => true,
            MainClockSource::SIRC => true,
            MainClockSource::FIRC => true,
            MainClockSource::ROSC => true,
            _ => false,
        }
    }

    /// Returns whether this source may drive the main clock.
    pub fn valid(&self) -> (r: bool)
        ensures
            r == self.valid_spec(),
    {
        match self {
            MainClockSource::SOSC => true,
            MainClockSource::SIRC => true,
            MainClockSource::FIRC => true,
            MainClockSource::ROSC => true,
            _ => false,
        }
    }
}

/// Clock configuration: per-oscillator settings and the chosen main clock
/// source.
#[derive(Debug, Clone, Copy)]
pub struct Config {
    pub sosc: Option<SOSC>,
    pub sosc_stop_en: bool,
    pub sirc_12m_clk_en: bool,
    pub sirc_stop_en: bool,
    pub firc: Option<FIRC>,
    pub firc_sclk_en: bool,
    pub firc_fclk_en: bool,
    pub firc_stop_en: bool,
    pub main_clock_source: MainClockSource,
}

impl Config {
    /// Static validity: the chosen main source is selectable on this
    /// variant and its sub-configuration is present and enabled — SOSC
    /// needs a mode, SIRC its peripheral-clock gate, FIRC a selected
    /// range and its functional clock gate.
    pub open spec fn valid_spec(self) -> bool {
        &&& self.main_clock_source.valid_spec()
        &&& (self.main_clock_source is SOSC ==> self.sosc is Some)
        &&& (self.main_clock_source is SIRC ==> self.sirc_12m_clk_en)
        &&& (self.main_clock_source is FIRC ==> self.firc is Some && self.firc_fclk_en)
    }

    /// Returns whether this configuration passes static validation.
    pub fn valid(&self) -> (r: bool)
        ensures
            r == self.valid_spec(),
    {
        if !self.main_clock_source.valid() {
            return false;
        }
        if self.sosc.is_none() && matches!(self.main_clock_source, MainClockSource::SOSC) {
            return false;
        }
        if !self.sirc_12m_clk_en && matches!(self.main_clock_source, MainClockSource::SIRC) {
            return false;
        }
        if matches!(self.main_clock_source, MainClockSource::FIRC) && (self.firc.is_none()
            || !self.firc_fclk_en) {
            return false;
        }
        true
    }
}

impl Default for Config {
    /// The boot-like default: the fast internal reference at 48 MHz drives
    /// the main clock, the slow reference feeds peripherals, the crystal
    /// oscillator stays off. This configuration passes validation.
    fn default() -> (r: Config)
        ensures
            r == (Config {
                sosc: None,
                sosc_stop_en: false,
                sirc_12m_clk_en: true,
                sirc_stop_en: false,
                firc: Some(FIRC::FIRC48M),
                firc_sclk_en: false,
                firc_fclk_en: true,
                firc_stop_en: false,
                main_clock_source: MainClockSource::FIRC,
            }),
            r.valid_spec(),
    {
        Config {
            sosc: None,
            sosc_stop_en: false,
            sirc_12m_clk_en: true,
            sirc_stop_en: false,
            firc: Some(FIRC::FIRC48M),
            firc_sclk_en: false,
            firc_fclk_en: true,
            firc_stop_en: false,
            main_clock_source: MainClockSource::FIRC,
        }
    }
}

/// The SCG state after the SIRC configuration writes.
pub open spec fn sirc_state(s: ScgRegs, c: Config) -> ScgRegs {
    ScgRegs {
        sirccsr: SircCsr {
            lk: true,
            sten: c.sirc_stop_en,
            clk_periph_en: c.sirc_12m_clk_en,
            ..s.sirccsr
        },
        ..s
    }
}

/// The SCG state after the main clock-source switch.
pub open spec fn switch_state(s: ScgRegs, c: Config) -> ScgRegs {
    ScgRegs { rccr_scs: c.main_clock_source.code_spec(), ..s }
}

/// Outcome of the SOSC step of `freeze`: the state reached and the result.
pub open spec fn sosc_step(s: ScgRegs, c: Config) -> (ScgRegs, Result<(), SCGError>) {
    match c.sosc {
        Some(sosc) => match SOSC::range_spec(sosc.freq_spec()) {
            Some(range) => (
                SOSC::enabled_state(s, sosc, range, c.sosc_stop_en),
                if s.sosccsr.fault {
                    Err(SCGError::SOSCError)
                } else {
                    Ok(())
                },
            ),
            None => (s, Err(SCGError::OutOfRange)),
        },
        None => if s.sosccsr.sel {
            (s, Err(SCGError::SOSCBusy))
        } else {
            (SOSC::disabled_state(s), Ok(()))
        },
    }
}

/// Outcome of the SIRC step of `freeze`.
pub open spec fn sirc_step(s: ScgRegs, c: Config) -> (ScgRegs, Result<(), SCGError>) {
    if !c.sirc_12m_clk_en && s.sirccsr.sel {
        (s, Err(SCGError::SIRCBusy))
    } else {
        (
            sirc_state(s, c),
            if s.sirccsr.fault {
                Err(SCGError::SIRCError)
            } else {
                Ok(())
            },
        )
    }
}

/// Outcome of the FIRC step of `freeze`.
pub open spec fn firc_step(s: ScgRegs, c: Config) -> (ScgRegs, Result<(), SCGError>) {
    match c.firc {
        Some(firc) => (
            FIRC::enabled_state(s, firc, c.firc_stop_en, c.firc_fclk_en, c.firc_sclk_en),
            if s.firccsr.fault {
                Err(SCGError::FIRCError)
            } else {
                Ok(())
            },
        ),
        None => if s.firccsr.sel {
            (s, Err(SCGError::FIRCBusy))
        } else {
            (FIRC::disabled_state(s), Ok(()))
        },
    }
}

/// The full outcome of a `freeze` on a valid configuration: the steps run
/// in order — SOSC, SIRC, FIRC, switch — and the first failing step stops
/// the sequence, leaving the writes of the completed steps in place.
pub open spec fn freeze_post(
    s0: ScgRegs,
    c: Config,
    s_end: ScgRegs,
    r: Result<(), SCGError>,
) -> bool {
    let (sa, ra) = sosc_step(s0, c);
    if ra is Err {
        s_end == sa && r == ra
    } else {
        let (sb, rb) = sirc_step(sa, c);
        if rb is Err {
            s_end == sb && r == rb
        } else {
            let (sc, rc) = firc_step(sb, c);
            if rc is Err {
                s_end == sc && r == rc
            } else {
                s_end == switch_state(sc, c) && r == Ok::<(), SCGError>(())
            }
        }
    }
}

/// The clock-generator engine: owns the SCG register block.
pub struct SCG {
    pub scg: ScgRegs,
}

impl SCG {
    /// Wraps an SCG register block. On parts whose crystal pads need no pin
    /// preparation the engine is used without pins.
    pub fn without_pins(scg: ScgRegs) -> (r: SCG)
        ensures
            r.scg == scg,
    {
        SCG { scg }
    }

    /// Freezes the clock tree to `config`.
    ///
    /// An invalid configuration is rejected with `InvalidConfig` before any
    /// register write. Otherwise the oscillators are configured in order —
    /// SOSC, SIRC, FIRC — and the main clock selector is switched last; the
    /// switch is confirmed against the clock-status field. A step that
    /// fails (busy guard, range check, hardware fault) stops the sequence
    /// and leaves the completed writes in place: there is no rollback.
    #[verifier::rlimit(60)]
    pub fn freeze(&mut self, config: &Config) -> (r: Result<(), SCGError>)
        ensures
            !config.valid_spec() ==> r == Err::<(), SCGError>(SCGError::InvalidConfig)
                && final(self).scg == old(self).scg,
            config.valid_spec() ==> freeze_post(old(self).scg, *config, final(self).scg, r),
    {
        if !config.valid() {
            return Err(SCGError::InvalidConfig);
        }

        match config.sosc {
            Some(sosc) => match SOSC::enable(&mut self.scg, sosc, config.sosc_stop_en) {
                Ok(()) => {},
                Err(e) => {
                    return Err(e);
                },
            },
            None => match SOSC::disable(&mut self.scg) {
                Ok(()) => {},
                Err(e) => {
                    return Err(e);
                },
            },
        }

        if !config.sirc_12m_clk_en && self.scg.sirccsr.sel {
            return Err(SCGError::SIRCBusy);
        }
        self.scg.sirccsr.lk = false;
        self.scg.sirccsr.sten = config.sirc_stop_en;
        self.scg.sirccsr.clk_periph_en = config.sirc_12m_clk_en;
        self.scg.sirccsr.lk = true;
        self.scg.wait_sircvld();
        if self.scg.sircerr() {
            return Err(SCGError::SIRCError);
        }

        match config.firc {
            Some(firc) => match FIRC::enable(
                &mut self.scg,
                firc,
                config.firc_stop_en,
                config.firc_fclk_en,
                config.firc_sclk_en,
            ) {
                Ok(()) => {},
                Err(e) => {
                    return Err(e);
                },
            },
            None => match FIRC::disable(&mut self.scg) {
                Ok(()) => {},
                Err(e) => {
                    return Err(e);
                },
            },
        }

        let code = config.main_clock_source.code();
        self.scg.rccr_scs = code;
        self.scg.wait_csr_scs(code);

        Ok(())
    }
}

} // verus!
