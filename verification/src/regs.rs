//! Owned models of the hardware register blocks the engine drives.
//!
//! Each block is a plain struct of named bit-fields. Control fields are
//! written by the engine; status fields that real hardware drives (valid
//! bits, error bits, "currently selected" bits, the busy flag) are either
//! derived functions of the control state — the model hardware settles
//! instantly, so a poll is a single observation — or read-only inputs that a
//! test harness presets to exercise fault and busy paths.
//!
//! The power sequencers additionally record a [`WriteEvent`] log, because
//! for run-mode and voltage transitions the *order* of writes across the
//! SPC and FMU blocks is the safety-critical contract.

use vstd::prelude::*;

pub mod fmu;
pub mod mrcc;
pub mod scg;
pub mod spc;
pub mod syscon;

pub use fmu::FmuRegs;
pub use mrcc::MrccRegs;
pub use scg::ScgRegs;
pub use spc::SpcRegs;
pub use syscon::SysconRegs;

verus! {

/// One observable step of a power-sequencing operation: a register write to
/// the SPC or FMU block, or the completion of a status poll.
///
/// Run-mode transitions must perform these steps in a direction-dependent
/// order; the engine appends each step to a log so the order is part of its
/// contract and observable by a test harness.
#[derive(Clone, Copy, Debug, PartialEq, Eq, Structural)]
pub enum WriteEvent {
    /// An active-mode voltage-level write: the core-LDO level, and in the
    /// run-mode sequencer the DCDC level in the same register write.
    CoreVoltage(u8),
    /// The core-LDO drive-strength bit was written.
    CoreStrength(bool),
    /// The SPC busy flag was observed clear.
    PowerBusyPoll,
    /// The flash-controller wait-state field was written.
    FlashWaitStates(u8),
    /// The SRAM voltage-scaling level field was written.
    SramVoltage(u8),
    /// The SRAM voltage-scaling request bit was written.
    SramRequest(bool),
    /// The SRAM voltage-scaling acknowledge bit was observed set.
    SramAckPoll,
}

/// A bitmap with `bit` set.
pub open spec fn set_bit(bm: u32, bit: u8) -> u32 {
    bm | (1u32 << bit)
}

/// A bitmap with `bit` cleared.
pub open spec fn clear_bit(bm: u32, bit: u8) -> u32 {
    bm & !(1u32 << bit)
}

/// A peripheral clock-divider register: divider value, halt bit and reset
/// bit. The read-only "unstable" flag clears as soon as the divider settles;
/// the model hardware settles instantly, so it always reads clear.
#[derive(Clone, Copy, Debug, PartialEq, Eq, Structural)]
pub struct DivReg {
    pub div: u8,
    pub halt: bool,
    pub reset: bool,
}

impl DivReg {
    /// Divider halted, value zero: the power-on state.
    pub fn new() -> (r: DivReg)
        ensures
            r == (DivReg { div: 0, halt: true, reset: false }),
    {
        DivReg { div: 0, halt: true, reset: false }
    }

    /// The read-only "unstable" flag: clear once the divider has settled,
    /// which in this model is immediately after any write.
    pub open spec fn unstab_spec(self) -> bool {
        false
    }

    /// Reads the "unstable" flag.
    pub fn unstab(&self) -> (r: bool)
        ensures
            r == self.unstab_spec(),
    {
        false
    }

    /// Spins until the "unstable" flag reads clear; the model divider
    /// settles instantly.
    pub fn wait_stable(&self) {
        while self.unstab()
            invariant
                !self.unstab_spec(),
            decreases 0int,
        {
        }
    }
}

/// The divider register after a setup: a value runs the divider with halt
/// and reset deasserted; `None` halts it at divider zero with reset
/// deasserted.
pub open spec fn divider_state(divider: Option<u8>) -> DivReg {
    match divider {
        Some(d) => DivReg { div: d, halt: false, reset: false },
        None => DivReg { div: 0, halt: true, reset: false },
    }
}

} // verus!
