//! Run modes: named combinations of core voltage level and drive strength.
//!
//! A run mode bounds the maximum safe system clock frequency and determines
//! the flash wait-state count. The tables here are pure: the register
//! sequencing that applies them lives in [`crate::clock::scg`].

use vstd::prelude::*;

verus! {

/// Core voltage / drive-strength level.
///
/// The variants are ordered: a higher mode supports a higher system clock
/// frequency. `UnderDrive` is a transitional state only and is never a valid
/// target for an explicit run-mode request.
#[derive(Clone, Copy, Debug, PartialEq, Eq, PartialOrd, Ord, Structural)]
pub enum RunMode {
    UnderDrive,
    MidDrive,
    StandardDrive,
    OverDrive,
}

impl RunMode {
    /// The hardware level code: the value written to the core-LDO and DCDC
    /// voltage-level fields and to the SRAM voltage-scaling field.
    pub open spec fn level_spec(self) -> u8 {
        match self {
            RunMode::UnderDrive => 0,
            RunMode::MidDrive => 1,
            RunMode::StandardDrive => 2,
            RunMode::OverDrive => 3,
        }
    }

    /// Returns the hardware level code for this run mode.
    pub fn level(self) -> (r: u8)
        ensures
            r == self.level_spec(),
    {
        match self {
            RunMode::UnderDrive => 0,
            RunMode::MidDrive => 1,
            RunMode::StandardDrive => 2,
            RunMode::OverDrive => 3,
        }
    }
}

/// The run mode required for a given system clock frequency, by the fixed
/// thresholds: up to 50 MHz `MidDrive`, up to 100 MHz `StandardDrive`, up to
/// 150 MHz `OverDrive`; above that no mode supports the frequency.
pub open spec fn run_mode_of(freq: u32) -> Option<RunMode> {
    if freq <= 50_000_000 {
        Some(RunMode::MidDrive)
    } else if freq <= 100_000_000 {
        Some(RunMode::StandardDrive)
    } else if freq <= 150_000_000 {
        Some(RunMode::OverDrive)
    } else {
        None
    }
}

/// Derives the target run mode from a target system clock frequency.
///
/// Returns `None` for frequencies above 150 MHz, which no run mode supports.
pub fn derive_run_mode(freq: u32) -> (r: Option<RunMode>)
    ensures
        r == run_mode_of(freq),
{
    if freq <= 50_000_000 {
        Some(RunMode::MidDrive)
    } else if freq <= 100_000_000 {
        Some(RunMode::StandardDrive)
    } else if freq <= 150_000_000 {
        Some(RunMode::OverDrive)
    } else {
        None
    }
}

/// The flash wait-state count for a (run mode, clock frequency) pair.
///
/// Each run mode has its own frequency bands; a frequency outside the bands
/// of the active mode has no safe wait-state count and yields `None`.
/// `UnderDrive` supports no flash access configuration at all.
pub open spec fn flash_wait_states_of(mode: RunMode, freq: u32) -> Option<u8> {
    match mode {
        RunMode::UnderDrive => None,
        RunMode::MidDrive => if freq <= 24_000_000 {
            Some(0u8)
        } else if freq <= 50_000_000 {
            Some(1u8)
        } else {
            None
        },
        RunMode::StandardDrive => if freq <= 36_000_000 {
            Some(0u8)
        } else if freq <= 64_000_000 {
            Some(1u8)
        } else if freq <= 100_000_000 {
            Some(2u8)
        } else {
            None
        },
        RunMode::OverDrive => if freq <= 36_000_000 {
            Some(0u8)
        } else if freq <= 64_000_000 {
            Some(1u8)
        } else if freq <= 100_000_000 {
            Some(2u8)
        } else if freq <= 150_000_000 {
            Some(3u8)
        } else {
            None
        },
    }
}

/// Looks up the flash wait-state count for a (run mode, clock frequency) pair.
pub fn flash_wait_states(mode: RunMode, freq: u32) -> (r: Option<u8>)
    ensures
        r == flash_wait_states_of(mode, freq),
{
    match mode {
        RunMode::UnderDrive => None,
        RunMode::MidDrive => if freq <= 24_000_000 {
            Some(0)
        } else if freq <= 50_000_000 {
            Some(1)
        } else {
            None
        },
        RunMode::StandardDrive => if freq <= 36_000_000 {
            Some(0)
        } else if freq <= 64_000_000 {
            Some(1)
        } else if freq <= 100_000_000 {
            Some(2)
        } else {
            None
        },
        RunMode::OverDrive => if freq <= 36_000_000 {
            Some(0)
        } else if freq <= 64_000_000 {
            Some(1)
        } else if freq <= 100_000_000 {
            Some(2)
        } else if freq <= 150_000_000 {
            Some(3)
        } else {
            None
        },
    }
}

} // verus!
