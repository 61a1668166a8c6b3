//! Fast Internal Reference Clock (FIRC) controller.

use crate::regs::scg::{FircCfg, FircCsr};
use crate::regs::ScgRegs;
use crate::scg::SCGError;
use vstd::prelude::*;

verus! {

/// FIRC output frequency selection.
#[derive(Debug, Clone, Copy, Default, PartialEq, Eq, Structural)]
pub enum FIRC {
    #[default]
    FIRC48M,
    FIRC64M,
    FIRC96M,
    FIRC192M,
}

impl FIRC {
    /// The selected frequency in Hz.
    pub open spec fn freq_spec(self) -> u32 {
        match self {
            FIRC::FIRC48M => 48_000_000,
            FIRC::FIRC64M => 64_000_000,
            FIRC::FIRC96M => 96_000_000,
            FIRC::FIRC192M => 192_000_000,
        }
    }

    /// Returns the selected frequency in Hz.
    pub fn freq(&self) -> (r: u32)
        ensures
            r == self.freq_spec(),
    {
        match self {
            FIRC::FIRC48M => 48_000_000,
            FIRC::FIRC64M => 64_000_000,
            FIRC::FIRC96M => 96_000_000,
            FIRC::FIRC192M => 192_000_000,
        }
    }

    /// The FIRCCFG frequency-select field code.
    pub open spec fn code_spec(self) -> u8 {
        match self {
            FIRC::FIRC48M => 1,
            FIRC::FIRC64M => 3,
            FIRC::FIRC96M => 5,
            FIRC::FIRC192M => 7,
        }
    }

    /// Returns the FIRCCFG frequency-select field code.
    pub fn code(&self) -> (r: u8)
        ensures
            r == self.code_spec(),
    {
        match self {
            FIRC::FIRC48M => 1,
            FIRC::FIRC64M => 3,
            FIRC::FIRC96M => 5,
            FIRC::FIRC192M => 7,
        }
    }

    /// The SCG state after a successful enable sequence.
    pub open spec fn enabled_state(
        s: ScgRegs,
        firc: FIRC,
        stop_en: bool,
        fclk_en: bool,
        sclk_en: bool,
    ) -> ScgRegs {
        ScgRegs {
            firccfg: FircCfg { freq_sel: firc.code_spec() },
            firccsr: FircCsr {
                lk: true,
                en: true,
                sten: stop_en,
                sclk_periph_en: sclk_en,
                fclk_periph_en: fclk_en,
                ..s.firccsr
            },
            ..s
        }
    }

    /// The SCG state after a disable: reference off, lock bit reasserted.
    pub open spec fn disabled_state(s: ScgRegs) -> ScgRegs {
        ScgRegs { firccsr: FircCsr { lk: true, en: false, ..s.firccsr }, ..s }
    }

    /// Enables the fast internal reference.
    ///
    /// Writes the frequency selection, unlocks, enables the reference and
    /// its two peripheral delivery gates, relocks, waits for the valid bit
    /// and checks the error bit: a faulted reference yields `FIRCError`
    /// with the enable writes already performed (no rollback).
    pub fn enable(
        scg: &mut ScgRegs,
        firc: FIRC,
        stop_en: bool,
        fclk_en: bool,
        sclk_en: bool,
    ) -> (r: Result<(), SCGError>)
        ensures
            *final(scg) == FIRC::enabled_state(*old(scg), firc, stop_en, fclk_en, sclk_en),
            r == (if old(scg).firccsr.fault {
                Err::<(), SCGError>(SCGError::FIRCError)
            } else {
                Ok::<(), SCGError>(())
            }),
    {
        scg.firccfg = FircCfg { freq_sel: firc.code() };

        scg.firccsr.lk = false;
        scg.firccsr.en = true;
        scg.firccsr.sten = stop_en;
        scg.firccsr.sclk_periph_en = sclk_en;
        scg.firccsr.fclk_periph_en = fclk_en;
        scg.firccsr.lk = true;

        scg.wait_fircvld();
        if scg.fircerr() {
            return Err(SCGError::FIRCError);
        }

        Ok(())
    }

    /// Disables the fast internal reference.
    ///
    /// If the reference is currently selected as input to an active consumer
    /// the call returns `FIRCBusy` and performs no register write.
    pub fn disable(scg: &mut ScgRegs) -> (r: Result<(), SCGError>)
        ensures
            old(scg).firccsr.sel ==> r == Err::<(), SCGError>(SCGError::FIRCBusy) && *final(scg)
                == *old(scg),
            !old(scg).firccsr.sel ==> r == Ok::<(), SCGError>(()) && *final(scg)
                == FIRC::disabled_state(*old(scg)),
    {
        if scg.firccsr.sel {
            return Err(SCGError::FIRCBusy);
        }

        scg.firccsr.lk = false;
        scg.firccsr.en = false;
        scg.firccsr.lk = true;

        Ok(())
    }
}

} // verus!
