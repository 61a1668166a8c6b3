//! System Crystal Oscillator Clock (SOSC) controller.

use crate::regs::scg::{SoscCfg, SoscCsr};
use crate::regs::ScgRegs;
use crate::scg::SCGError;
use vstd::prelude::*;

verus! {

/// SOSC operating mode: an external reference clock fed in, or the internal
/// crystal oscillator, each with its frequency in Hz.
#[derive(Debug, Clone, Copy, PartialEq, Eq, Structural)]
pub enum SOSC {
    RefClock(u32),
    Oscillator(u32),
}

impl SOSC {
    /// The configured frequency in Hz.
    pub open spec fn freq_spec(self) -> u32 {
        match self {
            SOSC::RefClock(f) => f,
            SOSC::Oscillator(f) => f,
        }
    }

    /// Returns the SOSC frequency in Hz.
    pub fn freq(&self) -> (r: u32)
        ensures
            r == self.freq_spec(),
    {
        match self {
            SOSC::RefClock(f) => *f,
            SOSC::Oscillator(f) => *f,
        }
    }

    /// The hardware range code for a frequency: the engineering range
    /// [8 MHz, 66 MHz) is subdivided into four bands; outside it there is
    /// no code.
    pub open spec fn range_spec(freq: u32) -> Option<u8> {
        if 8_000_000 <= freq && freq < 20_000_000 {
            Some(0u8)
        } else if 20_000_000 <= freq && freq < 30_000_000 {
            Some(1u8)
        } else if 30_000_000 <= freq && freq < 50_000_000 {
            Some(2u8)
        } else if 50_000_000 <= freq && freq < 66_000_000 {
            Some(3u8)
        } else {
            None
        }
    }

    /// Maps the configured frequency to its range code, or `OutOfRange` for
    /// a frequency outside [8 MHz, 66 MHz).
    pub fn range(&self) -> (r: Result<u8, SCGError>)
        ensures
            SOSC::range_spec(self.freq_spec()) matches Some(code) ==> r == Ok::<u8, SCGError>(
                code,
            ),
            SOSC::range_spec(self.freq_spec()) is None ==> r == Err::<u8, SCGError>(
                SCGError::OutOfRange,
            ),
    {
        let freq = self.freq();
        if 8_000_000 <= freq && freq < 20_000_000 {
            Ok(0)
        } else if 20_000_000 <= freq && freq < 30_000_000 {
            Ok(1)
        } else if 30_000_000 <= freq && freq < 50_000_000 {
            Ok(2)
        } else if 50_000_000 <= freq && freq < 66_000_000 {
            Ok(3)
        } else {
            Err(SCGError::OutOfRange)
        }
    }

    /// Every frequency in the engineering range [8 MHz, 66 MHz) maps to a
    /// range code, that code is one of {0, 1, 2, 3}, and no frequency
    /// outside the range has one.
    pub proof fn lemma_range_total(freq: u32)
        ensures
            (8_000_000 <= freq && freq < 66_000_000) <==> SOSC::range_spec(freq) is Some,
            SOSC::range_spec(freq) matches Some(code) ==> code <= 3,
    {
    }

    /// The SCG state after a successful enable sequence: LDO on, mode and
    /// range configured, oscillator enabled and the lock bit reasserted.
    pub open spec fn enabled_state(s: ScgRegs, sosc: SOSC, range: u8, stopen: bool) -> ScgRegs {
        ScgRegs {
            ldoen: true,
            sosccfg: SoscCfg { erefs: sosc is Oscillator, range },
            sosccsr: SoscCsr { lk: true, en: true, sten: stopen, ..s.sosccsr },
            ..s
        }
    }

    /// The SCG state after a disable: oscillator off, lock bit reasserted.
    pub open spec fn disabled_state(s: ScgRegs) -> ScgRegs {
        ScgRegs { sosccsr: SoscCsr { lk: true, en: false, ..s.sosccsr }, ..s }
    }

    /// Enables the oscillator.
    ///
    /// A frequency outside [8 MHz, 66 MHz) is rejected with `OutOfRange`
    /// before any register write. Otherwise the sequence asserts the LDO
    /// enable, waits for its output, writes mode and range, unlocks,
    /// enables, relocks, waits for the valid bit and finally checks the
    /// error bit: a faulted oscillator yields `SOSCError` with the enable
    /// writes already performed (no rollback).
    pub fn enable(scg: &mut ScgRegs, sosc: SOSC, stopen: bool) -> (r: Result<(), SCGError>)
        ensures
            SOSC::range_spec(sosc.freq_spec()) is None ==> r == Err::<(), SCGError>(
                SCGError::OutOfRange,
            ) && *final(scg) == *old(scg),
            SOSC::range_spec(sosc.freq_spec()) matches Some(range) ==> *final(scg)
                == SOSC::enabled_state(*old(scg), sosc, range, stopen) && r == (
            if old(scg).sosccsr.fault {
                Err::<(), SCGError>(SCGError::SOSCError)
            } else {
                Ok::<(), SCGError>(())
            }),
    {
        let range = match sosc.range() {
            Ok(range) => range,
            Err(e) => {
                return Err(e);
            },
        };

        scg.ldoen = true;
        scg.wait_ldo_vout_ok();

        scg.sosccfg = SoscCfg { erefs: matches!(sosc, SOSC::Oscillator(_)), range };
        scg.sosccsr.lk = false;
        scg.sosccsr.en = true;
        scg.sosccsr.sten = stopen;
        scg.sosccsr.lk = true;

        scg.wait_soscvld();
        if scg.soscerr() {
            return Err(SCGError::SOSCError);
        }

        Ok(())
    }

    /// Disables the oscillator.
    ///
    /// If the oscillator is currently selected as input to an active
    /// consumer the call returns `SOSCBusy` and performs no register write.
    /// The LDO is left on: a PLL may still be using it.
    pub fn disable(scg: &mut ScgRegs) -> (r: Result<(), SCGError>)
        ensures
            old(scg).sosccsr.sel ==> r == Err::<(), SCGError>(SCGError::SOSCBusy) && *final(scg)
                == *old(scg),
            !old(scg).sosccsr.sel ==> r == Ok::<(), SCGError>(()) && *final(scg)
                == SOSC::disabled_state(*old(scg)),
    {
        if scg.sosccsr.sel {
            return Err(SCGError::SOSCBusy);
        }

        scg.sosccsr.lk = false;
        scg.sosccsr.en = false;
        scg.sosccsr.lk = true;

        Ok(())
    }
}

} // verus!
