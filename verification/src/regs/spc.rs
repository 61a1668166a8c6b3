//! Model of the System Power Control (SPC) register block.

use vstd::prelude::*;

verus! {

/// The SPC register block: active-mode voltage-level fields, the shared
/// busy flag and the SRAM voltage-scaling handshake register.
///
/// `busy` is a read-only input: it reports a voltage-domain transition owned
/// by another agent. The model's own transitions settle instantly, so after
/// an operation of this library the flag is unchanged. The SRAM acknowledge
/// bit is derived: it follows the request bit.
#[derive(Clone, Copy, Debug, PartialEq, Eq, Structural)]
pub struct SpcRegs {
    /// ACTIVE_CFG.CORELDO_VDD_LVL: core LDO voltage level code.
    pub coreldo_vdd_lvl: u8,
    /// ACTIVE_CFG.CORELDO_VDD_DS: core LDO drive strength, true is normal.
    pub coreldo_vdd_ds: bool,
    /// ACTIVE_CFG.DCDC_VDD_LVL: DCDC voltage level code.
    pub dcdc_vdd_lvl: u8,
    /// SC.BUSY (read-only): a voltage-domain transition is in progress.
    pub busy: bool,
    /// SRAMCTL.VSM: SRAM voltage-scaling level code.
    pub sram_vsm: u8,
    /// SRAMCTL.REQ: voltage-scaling change request.
    pub sram_req: bool,
}

impl SpcRegs {
    /// Well-formedness: every level code fits its two-bit hardware field.
    pub open spec fn wf(self) -> bool {
        &&& self.coreldo_vdd_lvl <= 3
        &&& self.dcdc_vdd_lvl <= 3
        &&& self.sram_vsm <= 3
    }

    /// The power-on state: mid voltage at normal drive strength, no
    /// transition in progress, no scaling request pending.
    pub open spec fn reset_spec() -> SpcRegs {
        SpcRegs {
            coreldo_vdd_lvl: 1,
            coreldo_vdd_ds: true,
            dcdc_vdd_lvl: 1,
            busy: false,
            sram_vsm: 1,
            sram_req: false,
        }
    }

    /// Returns the block in its power-on state.
    pub fn new() -> (r: SpcRegs)
        ensures
            r == SpcRegs::reset_spec(),
            r.wf(),
    {
        SpcRegs {
            coreldo_vdd_lvl: 1,
            coreldo_vdd_ds: true,
            dcdc_vdd_lvl: 1,
            busy: false,
            sram_vsm: 1,
            sram_req: false,
        }
    }

    /// SRAMCTL.ACK: the hardware acknowledges while the request bit is held.
    pub open spec fn sram_ack_spec(self) -> bool {
        self.sram_req
    }

    /// Reads SRAMCTL.ACK.
    pub fn sram_ack(&self) -> (r: bool)
        ensures
            r == self.sram_ack_spec(),
    {
        self.sram_req
    }

    /// Spins until SC.BUSY reads clear. The model's own transitions settle
    /// instantly, so the flag must already read clear; on real hardware a
    /// violated precondition is an unbounded spin, not an error return.
    pub fn wait_not_busy(&self)
        requires
            !self.busy,
    {
        while self.busy
            invariant
                !self.busy,
            decreases 0int,
        {
        }
    }

    /// Spins until SRAMCTL.ACK reads set; see [`SpcRegs::wait_not_busy`].
    pub fn wait_sram_ack(&self)
        requires
            self.sram_ack_spec(),
    {
        while !self.sram_ack()
            invariant
                self.sram_ack_spec(),
            decreases 0int,
        {
        }
    }
}

} // verus!
