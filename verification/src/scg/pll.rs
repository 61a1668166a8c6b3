//! Phase-locked loop controller (system PLL, normal mode).
//!
//! [`PllConfig`] holds the divider chain: predivider N (optional — omission
//! bypasses the stage), feedback multiplier M (required, nonzero) and
//! postdivider P (optional, nonzero, below the field maximum). The CCO
//! frequency is input × M / N and the output frequency CCO / (2 P).
//! Spread-spectrum and fractional modes are unsupported.

use crate::regs::scg::{SpllCsr, SpllCtrl, SpllMdiv, SpllNdiv, SpllPdiv};
use crate::regs::ScgRegs;
use crate::scg::SCGError;
use vstd::prelude::*;

verus! {

/// PLL input source selection.
#[derive(Clone, Copy, Debug, Default, PartialEq, Eq, Structural)]
pub enum PllSource {
    #[default]
    SOSC,
    FIRC,
    ROSC,
    SIRC,
}

impl PllSource {
    /// The SPLLCTRL.SOURCE field code.
    pub open spec fn code_spec(self) -> u8 {
        match self {
            PllSource::SOSC => 0,
            PllSource::FIRC => 1,
            PllSource::ROSC => 2,
            PllSource::SIRC => 3,
        }
    }

    /// Returns the SPLLCTRL.SOURCE field code.
    pub fn code(&self) -> (r: u8)
        ensures
            r == self.code_spec(),
    {
        match self {
            PllSource::SOSC => 0,
            PllSource::FIRC => 1,
            PllSource::ROSC => 2,
            PllSource::SIRC => 3,
        }
    }

    /// Whether this source may feed the PLL: every listed source may.
    pub open spec fn valid_spec(self) -> bool {
        true
    }

    /// Returns whether this source may feed the PLL.
    pub fn valid(&self) -> (r: bool)
        ensures
            r == self.valid_spec(),
    {
        true
    }
}

/// PLL configuration: input source and the three-stage divider chain.
#[derive(Clone, Copy, Debug)]
pub struct PllConfig {
    pub source: PllSource,
    /// Predivider N; `None` bypasses the predivider stage.
    pub n: Option<u8>,
    /// Feedback multiplier M; must be nonzero.
    pub m: u16,
    /// Postdivider P; `None` bypasses the postdivider stage.
    pub p: Option<u8>,
    /// Bypass the second postdivide-by-two stage.
    pub p2: bool,
}

impl PllConfig {
    /// The CCO frequency: input × M / N, or input × M with the predivider
    /// bypassed. The division comes last, so integer truncation loses
    /// nothing before it.
    pub open spec fn freq_cco_spec(self, source_clk: u32) -> int {
        match self.n {
            Some(n) => source_clk as int * self.m as int / n as int,
            None => source_clk as int * self.m as int,
        }
    }

    /// The output frequency: CCO / 2 / P, or the CCO frequency with the
    /// postdivider bypassed.
    pub open spec fn freq_out_spec(self, source_clk: u32) -> int {
        match self.p {
            Some(p) => self.freq_cco_spec(source_clk) / 2 / (p as int),
            None => self.freq_cco_spec(source_clk),
        }
    }

    /// Computes the CCO frequency for a given input frequency. The
    /// product is taken at double width, so only the final value must fit
    /// the register-sized result.
    pub fn freq_cco(&self, source_clk: u32) -> (r: u32)
        requires
            self.n matches Some(n) ==> n != 0,
            self.freq_cco_spec(source_clk) <= u32::MAX,
        ensures
            r == self.freq_cco_spec(source_clk),
    {
        proof {
            vstd::arithmetic::mul::lemma_mul_upper_bound(
                source_clk as int,
                u32::MAX as int,
                self.m as int,
                u16::MAX as int,
            );
        }
        let wide: u64 = match self.n {
            Some(n) => source_clk as u64 * self.m as u64 / n as u64,
            None => source_clk as u64 * self.m as u64,
        };
        wide as u32
    }

    /// Computes the output frequency for a given input frequency.
    pub fn freq_out(&self, source_clk: u32) -> (r: u32)
        requires
            self.n matches Some(n) ==> n != 0,
            self.p matches Some(p) ==> p != 0,
            self.freq_cco_spec(source_clk) <= u32::MAX,
        ensures
            r == self.freq_out_spec(source_clk),
    {
        match self.p {
            Some(p) => self.freq_cco(source_clk) / 2 / p as u32,
            None => self.freq_cco(source_clk),
        }
    }

    /// Computes the output frequency for a given input frequency.
    pub fn freq(&self, source_clk: u32) -> (r: u32)
        requires
            self.n matches Some(n) ==> n != 0,
            self.p matches Some(p) ==> p != 0,
            self.freq_cco_spec(source_clk) <= u32::MAX,
        ensures
            r == self.freq_out_spec(source_clk),
    {
        self.freq_out(source_clk)
    }

    /// Static validity: M nonzero; P, if present, nonzero and below the
    /// five-bit field maximum; N, if present, nonzero; the source
    /// selectable.
    pub open spec fn valid_spec(self) -> bool {
        &&& self.m != 0
        &&& (self.p matches Some(p) ==> p != 0 && p < 0x1f)
        &&& (self.n matches Some(n) ==> n != 0)
        &&& self.source.valid_spec()
    }

    /// Returns whether this configuration passes static validation.
    pub fn valid(&self) -> (r: bool)
        ensures
            r == self.valid_spec(),
    {
        if self.m == 0 {
            return false;
        }
        if let Some(p) = self.p {
            if p == 0 {
                return false;
            }
            if p >= 0x1f {
                return false;
            }
        }
        if let Some(n) = self.n {
            if n == 0 {
                return false;
            }
        }
        self.source.valid()
    }

    /// The loop-filter phase coefficient: M / 4 + 1, clamped to 31.
    pub open spec fn selp_spec(m: u16) -> u8 {
        let a = m as int / 4 + 1;
        if a >= 31 {
            31
        } else {
            a as u8
        }
    }

    /// Computes the loop-filter phase coefficient SELP.
    pub fn selp(&self) -> (r: u8)
        ensures
            r == PllConfig::selp_spec(self.m),
    {
        let a: u16 = self.m / 4 + 1;
        if a >= 31 {
            31
        } else {
            a as u8
        }
    }

    /// The loop-filter bandwidth coefficient: 2 (M / 4) + 3 for small M,
    /// 8000 / M for mid-range M, the hardware minimum of 1 above that, all
    /// clamped to 63.
    pub open spec fn seli_spec(m: u16) -> u8 {
        let a = if m < 122 {
            2 * (m as int / 4) + 3
        } else if m < 8000 {
            8000int / m as int
        } else {
            1int
        };
        if a >= 63 {
            63
        } else {
            a as u8
        }
    }

    /// Computes the loop-filter bandwidth coefficient SELI.
    pub fn seli(&self) -> (r: u8)
        requires
            self.m != 0,
        ensures
            r == PllConfig::seli_spec(self.m),
    {
        let a: u16 = if self.m < 122 {
            2 * (self.m / 4) + 3
        } else if self.m < 8000 {
            8000 / self.m
        } else {
            1
        };
        if a >= 63 {
            63
        } else {
            a as u8
        }
    }

    /// For every feedback multiplier M in [1, 8000), the loop-filter
    /// coefficients stay in their hardware fields: SELI in [1, 63] and
    /// SELP in [1, 31].
    pub proof fn lemma_coefficient_bounds(m: u16)
        requires
            1 <= m < 8000,
        ensures
            1 <= PllConfig::seli_spec(m) <= 63,
            1 <= PllConfig::selp_spec(m) <= 31,
    {
        if 122 <= m {
            vstd::arithmetic::div_mod::lemma_div_is_ordered_by_denominator(
                8000,
                m as int,
                8000,
            );
            vstd::arithmetic::div_mod::lemma_div_is_ordered_by_denominator(8000, 122, m as int);
        }
    }

    /// SELI is monotonically non-increasing as M grows past 122: a larger
    /// multiplier never gets a larger bandwidth coefficient.
    pub proof fn lemma_seli_monotone(m1: u16, m2: u16)
        requires
            122 <= m1 <= m2 < 8000,
        ensures
            PllConfig::seli_spec(m2) <= PllConfig::seli_spec(m1),
    {
        vstd::arithmetic::div_mod::lemma_div_is_ordered_by_denominator(
            8000,
            m1 as int,
            m2 as int,
        );
        vstd::arithmetic::div_mod::lemma_div_pos_is_pos(8000, m2 as int);
    }

    /// The SCG state after a successful PLL enable sequence.
    pub open spec fn enabled_state(s: ScgRegs, c: PllConfig, stop_en: bool) -> ScgRegs {
        let ctrl = SpllCtrl {
            source: c.source.code_spec(),
            seli: PllConfig::seli_spec(c.m),
            selp: PllConfig::selp_spec(c.m),
            selr: 0,
            bypass_postdiv2: c.p2,
            bypass_prediv: c.n is None || s.spllctrl.bypass_prediv,
            bypass_postdiv: c.p is None || s.spllctrl.bypass_postdiv,
        };
        let ndiv = match c.n {
            Some(n) => SpllNdiv { ndiv: n, nreq: true },
            None => s.spllndiv,
        };
        let pdiv = match c.p {
            Some(p) => SpllPdiv { pdiv: p, preq: true },
            None => s.spllpdiv,
        };
        ScgRegs {
            ldoen: true,
            spllcsr: SpllCsr { pwren: true, clken: true, sten: stop_en, ..s.spllcsr },
            spllctrl: ctrl,
            spllndiv: ndiv,
            spllmdiv: SpllMdiv { mdiv: c.m, mreq: true },
            spllpdiv: pdiv,
            ..s
        }
    }

    /// The output frequency read back from the register fields of a locked
    /// PLL, for a given input frequency: input × M / N through the
    /// postdivider, with the divisions last.
    pub open spec fn readback_freq_spec(s: ScgRegs, source_clk: u32) -> int {
        let cco = if s.spllctrl.bypass_prediv {
            source_clk as int * s.spllmdiv.mdiv as int
        } else {
            source_clk as int * s.spllmdiv.mdiv as int / s.spllndiv.ndiv as int
        };
        if s.spllctrl.bypass_postdiv {
            cco
        } else {
            cco / 2 / (s.spllpdiv.pdiv as int)
        }
    }

    /// Reads back the derived output frequency from the divider fields of a
    /// locked PLL.
    pub fn readback_freq(scg: &ScgRegs, source_clk: u32) -> (r: u32)
        requires
            !scg.spllctrl.bypass_prediv ==> scg.spllndiv.ndiv != 0,
            !scg.spllctrl.bypass_postdiv ==> scg.spllpdiv.pdiv != 0,
            (if scg.spllctrl.bypass_prediv {
                source_clk as int * scg.spllmdiv.mdiv as int
            } else {
                source_clk as int * scg.spllmdiv.mdiv as int / scg.spllndiv.ndiv as int
            }) <= u32::MAX,
        ensures
            r == PllConfig::readback_freq_spec(*scg, source_clk),
    {
        proof {
            vstd::arithmetic::mul::lemma_mul_upper_bound(
                source_clk as int,
                u32::MAX as int,
                scg.spllmdiv.mdiv as int,
                u16::MAX as int,
            );
        }
        let wide: u64 = if scg.spllctrl.bypass_prediv {
            source_clk as u64 * scg.spllmdiv.mdiv as u64
        } else {
            source_clk as u64 * scg.spllmdiv.mdiv as u64 / scg.spllndiv.ndiv as u64
        };
        let cco: u32 = wide as u32;
        if scg.spllctrl.bypass_postdiv {
            cco
        } else {
            cco / 2 / scg.spllpdiv.pdiv as u32
        }
    }

    /// Enables the system PLL.
    ///
    /// The sequence asserts the LDO enable, powers the PLL down for safe
    /// re-entry, writes source select and loop-filter coefficients, writes
    /// the N/M/P divider fields each with its own request bit (a bypassed
    /// stage sets its bypass bit instead), re-enables power and clock
    /// output and waits for the lock indicator.
    ///
    /// The round trip is part of the contract: started from a state whose
    /// bypass bits are clear, the frequency read back from the programmed
    /// divider fields agrees exactly with [`PllConfig::freq_out_spec`].
    pub fn enable_spll(scg: &mut ScgRegs, config: PllConfig, stop_en: bool) -> (r: Result<
        (),
        SCGError,
    >)
        requires
            config.m != 0,
        ensures
            r == Ok::<(), SCGError>(()),
            *final(scg) == PllConfig::enabled_state(*old(scg), config, stop_en),
            final(scg).spll_lock_spec(),
            (!old(scg).spllctrl.bypass_prediv && !old(scg).spllctrl.bypass_postdiv) ==> forall|clk: u32|
                #[trigger] PllConfig::readback_freq_spec(*final(scg), clk)
                    == config.freq_out_spec(clk),
    {
        scg.ldoen = true;

        scg.spllcsr.pwren = false;
        scg.spllcsr.clken = false;

        scg.spllctrl.source = config.source.code();
        scg.spllctrl.seli = config.seli();
        scg.spllctrl.selp = config.selp();
        scg.spllctrl.selr = 0;
        scg.spllctrl.bypass_postdiv2 = config.p2;

        match config.n {
            Some(n) => {
                scg.spllndiv = SpllNdiv { ndiv: n, nreq: true };
            },
            None => {
                scg.spllctrl.bypass_prediv = true;
            },
        }
        scg.spllmdiv = SpllMdiv { mdiv: config.m, mreq: true };
        match config.p {
            Some(p) => {
                scg.spllpdiv = SpllPdiv { pdiv: p, preq: true };
            },
            None => {
                scg.spllctrl.bypass_postdiv = true;
            },
        }

        scg.spllcsr.pwren = true;
        scg.spllcsr.clken = true;
        scg.spllcsr.sten = stop_en;

        scg.wait_spll_lock();

        Ok(())
    }

    /// Disables the system PLL.
    ///
    /// If the PLL is currently selected as input to an active consumer the
    /// call returns `SPLLBusy` and performs no register write. Otherwise
    /// power and clock output are switched off.
    pub fn disable_spll(scg: &mut ScgRegs) -> (r: Result<(), SCGError>)
        ensures
            old(scg).spllcsr.sel ==> r == Err::<(), SCGError>(SCGError::SPLLBusy) && *final(scg)
                == *old(scg),
            !old(scg).spllcsr.sel ==> r == Ok::<(), SCGError>(()) && *final(scg) == (ScgRegs {
                spllcsr: (SpllCsr { pwren: false, clken: false, ..old(scg).spllcsr }),
                ..*old(scg)
            }),
    {
        if scg.spllcsr.sel {
            return Err(SCGError::SPLLBusy);
        }

        scg.spllcsr.pwren = false;
        scg.spllcsr.clken = false;

        Ok(())
    }
}

} // verus!
