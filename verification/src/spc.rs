//! System Power Control (SPC): active-mode core voltage, drive strength
//! and the SRAM voltage-scaling handshake.

use crate::regs::{SpcRegs, WriteEvent};
use vstd::prelude::*;

verus! {

/// Errors of the power controller.
#[derive(Clone, Copy, Debug, PartialEq, Eq, Structural)]
pub enum SPCError {
    Busy,
    VoltageNotSupport,
}

/// Drive voltage level, ordered from lowest to highest.
#[derive(Clone, Copy, Debug, Default, PartialEq, Eq, PartialOrd, Ord, Structural)]
pub enum Voltage {
    UnderVoltage,
    #[default]
    MidVoltage,
    NormalVoltage,
    OverVoltage,
}

impl Voltage {
    /// The hardware voltage-level field code.
    pub open spec fn code_spec(self) -> u8 {
        match self {
            Voltage::UnderVoltage => 0,
            Voltage::MidVoltage => 1,
            Voltage::NormalVoltage => 2,
            Voltage::OverVoltage => 3,
        }
    }

    /// Returns the hardware voltage-level field code.
    pub fn code(self) -> (r: u8)
        ensures
            r == self.code_spec(),
    {
        match self {
            Voltage::UnderVoltage => 0,
            Voltage::MidVoltage => 1,
            Voltage::NormalVoltage => 2,
            Voltage::OverVoltage => 3,
        }
    }

    /// The voltage a two-bit hardware level code denotes.
    pub open spec fn from_code_spec(code: u8) -> Voltage {
        if code == 0 {
            Voltage::UnderVoltage
        } else if code == 1 {
            Voltage::MidVoltage
        } else if code == 2 {
            Voltage::NormalVoltage
        } else {
            Voltage::OverVoltage
        }
    }

    /// Decodes a two-bit hardware level code.
    pub fn from_code(code: u8) -> (r: Voltage)
        ensures
            r == Voltage::from_code_spec(code),
    {
        if code == 0 {
            Voltage::UnderVoltage
        } else if code == 1 {
            Voltage::MidVoltage
        } else if code == 2 {
            Voltage::NormalVoltage
        } else {
            Voltage::OverVoltage
        }
    }
}

/// Drive strength.
#[derive(Clone, Copy, Debug, Default, PartialEq, Eq, PartialOrd, Ord, Structural)]
pub enum Strength {
    #[default]
    Low,
    Normal,
}

impl Strength {
    /// The hardware drive-strength bit: set means normal drive.
    pub open spec fn bit_spec(self) -> bool {
        self is Normal
    }

    /// Returns the hardware drive-strength bit.
    pub fn bit(self) -> (r: bool)
        ensures
            r == self.bit_spec(),
    {
        matches!(self, Strength::Normal)
    }

    /// The strength a hardware drive-strength bit denotes.
    pub open spec fn from_bit_spec(bit: bool) -> Strength {
        if bit {
            Strength::Normal
        } else {
            Strength::Low
        }
    }

    /// Decodes a hardware drive-strength bit.
    pub fn from_bit(bit: bool) -> (r: Strength)
        ensures
            r == Strength::from_bit_spec(bit),
    {
        if bit {
            Strength::Normal
        } else {
            Strength::Low
        }
    }
}

/// The events of a core-LDO setting: a voltage change is bracketed by
/// drive-strength writes — the strength is forced to normal before the
/// level write and restored to the requested value only after the busy
/// poll — while an unchanged voltage gets the strength write alone.
pub open spec fn core_ldo_events(s: SpcRegs, voltage: Voltage, strength: Strength) -> Seq<
    WriteEvent,
> {
    if Voltage::from_code_spec(s.coreldo_vdd_lvl) != voltage {
        seq![
            WriteEvent::CoreStrength(true),
            WriteEvent::CoreVoltage(voltage.code_spec()),
            WriteEvent::PowerBusyPoll,
            WriteEvent::CoreStrength(strength.bit_spec()),
        ]
    } else {
        seq![WriteEvent::CoreStrength(strength.bit_spec())]
    }
}

/// The events of an SRAM voltage-scaling change: the level write, then the
/// request/acknowledge handshake.
pub open spec fn sram_events(voltage: Voltage) -> Seq<WriteEvent> {
    seq![
        WriteEvent::SramVoltage(voltage.code_spec()),
        WriteEvent::SramRequest(true),
        WriteEvent::SramAckPoll,
        WriteEvent::SramRequest(false),
    ]
}

/// The power controller: owns the SPC register block and records the order
/// of its writes; see [`WriteEvent`].
pub struct SPC {
    pub spc: SpcRegs,
    /// The write log; the order of voltage and strength writes is part of
    /// every setter's contract.
    pub log: Vec<WriteEvent>,
}

impl SPC {
    /// Takes ownership of the SPC register block, with an empty log.
    pub fn new(spc: SpcRegs) -> (r: SPC)
        ensures
            r.spc == spc,
            r.log@ == Seq::<WriteEvent>::empty(),
    {
        SPC { spc, log: Vec::new() }
    }

    /// Reads whether a voltage-domain transition is in progress.
    pub fn busy(&self) -> (r: bool)
        ensures
            r == self.spc.busy,
    {
        self.spc.busy
    }

    /// Reads the current active-mode core LDO voltage.
    pub fn active_core_ldo_voltage(&self) -> (r: Voltage)
        ensures
            r == Voltage::from_code_spec(self.spc.coreldo_vdd_lvl),
    {
        Voltage::from_code(self.spc.coreldo_vdd_lvl)
    }

    /// Reads the current active-mode core LDO drive strength.
    pub fn active_core_ldo_strength(&self) -> (r: Strength)
        ensures
            r == Strength::from_bit_spec(self.spc.coreldo_vdd_ds),
    {
        Strength::from_bit(self.spc.coreldo_vdd_ds)
    }

    /// Sets the active-mode core LDO voltage and drive strength.
    ///
    /// If a voltage-domain transition owned by another agent is in
    /// progress the call returns `Busy` and writes nothing. A voltage
    /// change is performed at normal drive strength — the strength is
    /// raised first and restored to the requested value only after the
    /// voltage write's busy poll completes; the appended log states that
    /// order exactly.
    pub fn set_active_core_ldo(&mut self, voltage: Voltage, strength: Strength) -> (r: Result<
        (),
        SPCError,
    >)
        requires
            old(self).spc.wf(),
        ensures
            old(self).spc.busy ==> r == Err::<(), SPCError>(SPCError::Busy) && *final(self)
                == *old(self),
            !old(self).spc.busy ==> r == Ok::<(), SPCError>(()) && final(self).spc == (SpcRegs {
                coreldo_vdd_lvl: voltage.code_spec(),
                coreldo_vdd_ds: strength.bit_spec(),
                ..old(self).spc
            }) && final(self).log@ == old(self).log@ + core_ldo_events(
                old(self).spc,
                voltage,
                strength,
            ),
    {
        if self.busy() {
            return Err(SPCError::Busy);
        }

        if self.active_core_ldo_voltage() != voltage {
            self.set_active_core_ldo_strength(Strength::Normal);
            self.set_active_core_ldo_voltage(voltage);
        }
        self.set_active_core_ldo_strength(strength);

        proof {
            assert(self.log@ =~= old(self).log@ + core_ldo_events(
                old(self).spc,
                voltage,
                strength,
            ));
        }
        Ok(())
    }

    /// Sets the SRAM operating voltage via the request/acknowledge
    /// handshake. `UnderVoltage` is not supported and is rejected before
    /// any register write.
    pub fn set_sram_operate_voltage(&mut self, voltage: Voltage) -> (r: Result<(), SPCError>)
        ensures
            voltage is UnderVoltage ==> r == Err::<(), SPCError>(SPCError::VoltageNotSupport)
                && *final(self) == *old(self),
            voltage !is UnderVoltage ==> r == Ok::<(), SPCError>(()) && final(self).spc
                == (SpcRegs { sram_vsm: voltage.code_spec(), sram_req: false, ..old(self).spc })
                && final(self).log@ == old(self).log@ + sram_events(voltage),
    {
        if matches!(voltage, Voltage::UnderVoltage) {
            return Err(SPCError::VoltageNotSupport);
        }

        self.spc.sram_vsm = voltage.code();
        self.log.push(WriteEvent::SramVoltage(voltage.code()));
        self.spc.sram_req = true;
        self.log.push(WriteEvent::SramRequest(true));
        self.spc.wait_sram_ack();
        self.log.push(WriteEvent::SramAckPoll);
        self.spc.sram_req = false;
        self.log.push(WriteEvent::SramRequest(false));

        proof {
            assert(self.log@ =~= old(self).log@ + sram_events(voltage));
        }
        Ok(())
    }

    /// Writes the core LDO voltage level and waits out the busy flag.
    fn set_active_core_ldo_voltage(&mut self, voltage: Voltage)
        requires
            !old(self).spc.busy,
        ensures
            final(self).spc == (SpcRegs { coreldo_vdd_lvl: voltage.code_spec(), ..old(self).spc }),
            final(self).log@ == old(self).log@.push(
                WriteEvent::CoreVoltage(voltage.code_spec()),
            ).push(WriteEvent::PowerBusyPoll),
    {
        self.spc.coreldo_vdd_lvl = voltage.code();
        self.log.push(WriteEvent::CoreVoltage(voltage.code()));
        self.spc.wait_not_busy();
        self.log.push(WriteEvent::PowerBusyPoll);
    }

    /// Writes the core LDO drive-strength bit.
    fn set_active_core_ldo_strength(&mut self, strength: Strength)
        ensures
            final(self).spc == (SpcRegs { coreldo_vdd_ds: strength.bit_spec(), ..old(self).spc }),
            final(self).log@ == old(self).log@.push(WriteEvent::CoreStrength(strength.bit_spec())),
    {
        self.spc.coreldo_vdd_ds = strength.bit();
        self.log.push(WriteEvent::CoreStrength(strength.bit()));
    }
}

} // verus!
