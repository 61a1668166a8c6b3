//! Model of the System Clock Generator (SCG) register block.

use vstd::prelude::*;

verus! {

/// SOSCCFG: crystal-oscillator mode and range configuration.
#[derive(Clone, Copy, Debug, PartialEq, Eq, Structural)]
pub struct SoscCfg {
    /// EREFS: true selects the internal crystal oscillator, false an
    /// external reference clock.
    pub erefs: bool,
    /// RANGE: the frequency range code.
    pub range: u8,
}

/// SOSCCSR: crystal-oscillator control and status.
#[derive(Clone, Copy, Debug, PartialEq, Eq, Structural)]
pub struct SoscCsr {
    /// LK: configuration writes locked.
    pub lk: bool,
    /// SOSCEN.
    pub en: bool,
    /// SOSCSTEN: keep running in stop mode.
    pub sten: bool,
    /// SOSCSEL (read-only): SOSC is the selected input of an active
    /// consumer.
    pub sel: bool,
    /// Fault input (read-only): the oscillator comes up faulted, so
    /// SOSCERR reads set once it is enabled.
    pub fault: bool,
}

/// SIRCCSR: slow internal reference control and status.
#[derive(Clone, Copy, Debug, PartialEq, Eq, Structural)]
pub struct SircCsr {
    /// LK.
    pub lk: bool,
    /// SIRCSTEN.
    pub sten: bool,
    /// SIRC_CLK_PERIPH_EN: deliver the 12 MHz clock to peripherals.
    pub clk_periph_en: bool,
    /// SIRCSEL (read-only).
    pub sel: bool,
    /// Fault input (read-only): SIRCERR reads set.
    pub fault: bool,
}

/// FIRCCFG: fast internal reference output frequency selection.
#[derive(Clone, Copy, Debug, PartialEq, Eq, Structural)]
pub struct FircCfg {
    /// FREQ_SEL.
    pub freq_sel: u8,
}

/// FIRCCSR: fast internal reference control and status.
#[derive(Clone, Copy, Debug, PartialEq, Eq, Structural)]
pub struct FircCsr {
    /// LK.
    pub lk: bool,
    /// FIRCEN.
    pub en: bool,
    /// FIRCSTEN.
    pub sten: bool,
    /// FIRC_SCLK_PERIPH_EN.
    pub sclk_periph_en: bool,
    /// FIRC_FCLK_PERIPH_EN.
    pub fclk_periph_en: bool,
    /// FIRCSEL (read-only).
    pub sel: bool,
    /// Fault input (read-only): FIRCERR reads set once enabled.
    pub fault: bool,
}

/// SPLLCSR: system PLL control and status.
#[derive(Clone, Copy, Debug, PartialEq, Eq, Structural)]
pub struct SpllCsr {
    /// SPLLPWREN.
    pub pwren: bool,
    /// SPLLCLKEN.
    pub clken: bool,
    /// SPLLSTEN.
    pub sten: bool,
    /// SPLLSEL (read-only).
    pub sel: bool,
}

/// SPLLCTRL: source select, loop-filter coefficients and bypass bits.
#[derive(Clone, Copy, Debug, PartialEq, Eq, Structural)]
pub struct SpllCtrl {
    /// SOURCE.
    pub source: u8,
    /// SELI: loop-filter bandwidth coefficient.
    pub seli: u8,
    /// SELP: loop-filter phase coefficient.
    pub selp: u8,
    /// SELR: loop-filter resistance coefficient.
    pub selr: u8,
    /// BYPASSPOSTDIV2.
    pub bypass_postdiv2: bool,
    /// BYPASSPREDIV.
    pub bypass_prediv: bool,
    /// BYPASSPOSTDIV.
    pub bypass_postdiv: bool,
}

/// SPLLNDIV: predivider value with its change-request bit.
#[derive(Clone, Copy, Debug, PartialEq, Eq, Structural)]
pub struct SpllNdiv {
    pub ndiv: u8,
    pub nreq: bool,
}

/// SPLLMDIV: feedback multiplier value with its change-request bit.
#[derive(Clone, Copy, Debug, PartialEq, Eq, Structural)]
pub struct SpllMdiv {
    pub mdiv: u16,
    pub mreq: bool,
}

/// SPLLPDIV: postdivider value with its change-request bit.
#[derive(Clone, Copy, Debug, PartialEq, Eq, Structural)]
pub struct SpllPdiv {
    pub pdiv: u8,
    pub preq: bool,
}

/// The SCG register block: oscillator control/status registers, the main
/// clock select/status pair, the internal LDO control register and the
/// system PLL registers.
///
/// Fields named `sel` are read-only "currently selected as input to an
/// active consumer" status bits, and fields named `fault` are read-only
/// fault inputs: real hardware drives them, and a test harness presets them
/// to exercise busy and error paths. The library never writes them.
///
/// Derived status (valid bits, the lock indicator, the clock-status field)
/// is a pure function of this state: the model hardware settles instantly,
/// so a poll loop of the real driver exits after the first read.
#[derive(Clone, Copy, Debug, PartialEq, Eq, Structural)]
pub struct ScgRegs {
    pub sosccfg: SoscCfg,
    pub sosccsr: SoscCsr,
    pub sirccsr: SircCsr,
    pub firccfg: FircCfg,
    pub firccsr: FircCsr,
    /// LDOCSR.LDOEN: the internal LDO regulator enable.
    pub ldoen: bool,
    /// RCCR.SCS: the requested main clock source code.
    pub rccr_scs: u8,
    pub spllcsr: SpllCsr,
    pub spllctrl: SpllCtrl,
    pub spllndiv: SpllNdiv,
    pub spllmdiv: SpllMdiv,
    pub spllpdiv: SpllPdiv,
}

impl ScgRegs {
    /// The power-on state: the slow internal reference drives the main
    /// clock, the fast internal reference is running, the crystal
    /// oscillator and the PLL are off, and all lock bits are set.
    pub open spec fn reset_spec() -> ScgRegs {
        ScgRegs {
            sosccfg: SoscCfg { erefs: false, range: 0 },
            sosccsr: SoscCsr { lk: true, en: false, sten: false, sel: false, fault: false },
            sirccsr: SircCsr {
                lk: true,
                sten: false,
                clk_periph_en: false,
                sel: false,
                fault: false,
            },
            firccfg: FircCfg { freq_sel: 0 },
            firccsr: FircCsr {
                lk: true,
                en: true,
                sten: false,
                sclk_periph_en: false,
                fclk_periph_en: false,
                sel: false,
                fault: false,
            },
            ldoen: false,
            rccr_scs: 2,
            spllcsr: SpllCsr { pwren: false, clken: false, sten: false, sel: false },
            spllctrl: SpllCtrl {
                source: 0,
                seli: 0,
                selp: 0,
                selr: 0,
                bypass_postdiv2: false,
                bypass_prediv: false,
                bypass_postdiv: false,
            },
            spllndiv: SpllNdiv { ndiv: 0, nreq: false },
            spllmdiv: SpllMdiv { mdiv: 0, mreq: false },
            spllpdiv: SpllPdiv { pdiv: 0, preq: false },
        }
    }

    /// Returns the block in its power-on state.
    pub fn new() -> (r: ScgRegs)
        ensures
            r == ScgRegs::reset_spec(),
    {
        ScgRegs {
            sosccfg: SoscCfg { erefs: false, range: 0 },
            sosccsr: SoscCsr { lk: true, en: false, sten: false, sel: false, fault: false },
            sirccsr: SircCsr {
                lk: true,
                sten: false,
                clk_periph_en: false,
                sel: false,
                fault: false,
            },
            firccfg: FircCfg { freq_sel: 0 },
            firccsr: FircCsr {
                lk: true,
                en: true,
                sten: false,
                sclk_periph_en: false,
                fclk_periph_en: false,
                sel: false,
                fault: false,
            },
            ldoen: false,
            rccr_scs: 2,
            spllcsr: SpllCsr { pwren: false, clken: false, sten: false, sel: false },
            spllctrl: SpllCtrl {
                source: 0,
                seli: 0,
                selp: 0,
                selr: 0,
                bypass_postdiv2: false,
                bypass_prediv: false,
                bypass_postdiv: false,
            },
            spllndiv: SpllNdiv { ndiv: 0, nreq: false },
            spllmdiv: SpllMdiv { mdiv: 0, mreq: false },
            spllpdiv: SpllPdiv { pdiv: 0, preq: false },
        }
    }

    /// SOSCCSR.SOSCVLD: the oscillator reports ready once enabled.
    pub open spec fn soscvld_spec(self) -> bool {
        self.sosccsr.en
    }

    /// Reads SOSCCSR.SOSCVLD.
    pub fn soscvld(&self) -> (r: bool)
        ensures
            r == self.soscvld_spec(),
    {
        self.sosccsr.en
    }

    /// SOSCCSR.SOSCERR: set when the enabled oscillator is faulted.
    pub open spec fn soscerr_spec(self) -> bool {
        self.sosccsr.en && self.sosccsr.fault
    }

    /// Reads SOSCCSR.SOSCERR.
    pub fn soscerr(&self) -> (r: bool)
        ensures
            r == self.soscerr_spec(),
    {
        self.sosccsr.en && self.sosccsr.fault
    }

    /// SIRCCSR.SIRCVLD: the slow internal reference free-runs and is
    /// always valid.
    pub open spec fn sircvld_spec(self) -> bool {
        true
    }

    /// Reads SIRCCSR.SIRCVLD.
    pub fn sircvld(&self) -> (r: bool)
        ensures
            r == self.sircvld_spec(),
    {
        true
    }

    /// SIRCCSR.SIRCERR.
    pub open spec fn sircerr_spec(self) -> bool {
        self.sirccsr.fault
    }

    /// Reads SIRCCSR.SIRCERR.
    pub fn sircerr(&self) -> (r: bool)
        ensures
            r == self.sircerr_spec(),
    {
        self.sirccsr.fault
    }

    /// FIRCCSR.FIRCVLD: the fast internal reference reports ready once
    /// enabled.
    pub open spec fn fircvld_spec(self) -> bool {
        self.firccsr.en
    }

    /// Reads FIRCCSR.FIRCVLD.
    pub fn fircvld(&self) -> (r: bool)
        ensures
            r == self.fircvld_spec(),
    {
        self.firccsr.en
    }

    /// FIRCCSR.FIRCERR.
    pub open spec fn fircerr_spec(self) -> bool {
        self.firccsr.en && self.firccsr.fault
    }

    /// Reads FIRCCSR.FIRCERR.
    pub fn fircerr(&self) -> (r: bool)
        ensures
            r == self.fircerr_spec(),
    {
        self.firccsr.en && self.firccsr.fault
    }

    /// CSR.SCS: the clock-status field echoes the requested source once
    /// the switch completes, which in this model is immediate.
    pub open spec fn csr_scs_spec(self) -> u8 {
        self.rccr_scs
    }

    /// Reads CSR.SCS.
    pub fn csr_scs(&self) -> (r: u8)
        ensures
            r == self.csr_scs_spec(),
    {
        self.rccr_scs
    }

    /// SPLLCSR.SPLL_LOCK: the PLL locks once powered with its clock output
    /// enabled.
    pub open spec fn spll_lock_spec(self) -> bool {
        self.spllcsr.pwren && self.spllcsr.clken
    }

    /// Reads SPLLCSR.SPLL_LOCK.
    pub fn spll_lock(&self) -> (r: bool)
        ensures
            r == self.spll_lock_spec(),
    {
        self.spllcsr.pwren && self.spllcsr.clken
    }

    /// LDOCSR.VOUT_OK: the regulator output is good once enabled.
    pub open spec fn ldo_vout_ok_spec(self) -> bool {
        self.ldoen
    }

    /// Reads LDOCSR.VOUT_OK.
    pub fn ldo_vout_ok(&self) -> (r: bool)
        ensures
            r == self.ldo_vout_ok_spec(),
    {
        self.ldoen
    }

    /// Spins until LDOCSR.VOUT_OK reads set. The model hardware settles
    /// instantly, so the bit must already read set; on real hardware a
    /// violated precondition is an unbounded spin, not an error return.
    pub fn wait_ldo_vout_ok(&self)
        requires
            self.ldo_vout_ok_spec(),
    {
        while !self.ldo_vout_ok()
            invariant
                self.ldo_vout_ok_spec(),
            decreases 0int,
        {
        }
    }

    /// Spins until SOSCCSR.SOSCVLD reads set; see
    /// [`ScgRegs::wait_ldo_vout_ok`].
    pub fn wait_soscvld(&self)
        requires
            self.soscvld_spec(),
    {
        while !self.soscvld()
            invariant
                self.soscvld_spec(),
            decreases 0int,
        {
        }
    }

    /// Spins until SIRCCSR.SIRCVLD reads set; the slow reference is always
    /// valid.
    pub fn wait_sircvld(&self) {
        while !self.sircvld()
            invariant
                self.sircvld_spec(),
            decreases 0int,
        {
        }
    }

    /// Spins until FIRCCSR.FIRCVLD reads set; see
    /// [`ScgRegs::wait_ldo_vout_ok`].
    pub fn wait_fircvld(&self)
        requires
            self.fircvld_spec(),
    {
        while !self.fircvld()
            invariant
                self.fircvld_spec(),
            decreases 0int,
        {
        }
    }

    /// Spins until SPLLCSR.SPLL_LOCK reads set; see
    /// [`ScgRegs::wait_ldo_vout_ok`].
    pub fn wait_spll_lock(&self)
        requires
            self.spll_lock_spec(),
    {
        while !self.spll_lock()
            invariant
                self.spll_lock_spec(),
            decreases 0int,
        {
        }
    }

    /// Spins until the clock-status field echoes `code`; see
    /// [`ScgRegs::wait_ldo_vout_ok`].
    pub fn wait_csr_scs(&self, code: u8)
        requires
            self.csr_scs_spec() == code,
    {
        while self.csr_scs() != code
            invariant
                self.csr_scs_spec() == code,
            decreases 0int,
        {
        }
    }
}

} // verus!
