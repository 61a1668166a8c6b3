use mcx_hal::regs::{SpcRegs, WriteEvent};
use mcx_hal::spc::{SPCError, Strength, Voltage, SPC};

#[test]
fn voltage_codes_round_trip() {
    assert_eq!(Voltage::UnderVoltage.code(), 0);
    assert_eq!(Voltage::MidVoltage.code(), 1);
    assert_eq!(Voltage::NormalVoltage.code(), 2);
    assert_eq!(Voltage::OverVoltage.code(), 3);
    for v in [
        Voltage::UnderVoltage,
        Voltage::MidVoltage,
        Voltage::NormalVoltage,
        Voltage::OverVoltage,
    ] {
        assert_eq!(Voltage::from_code(v.code()), v);
    }
    assert!(Voltage::MidVoltage < Voltage::OverVoltage);
}

#[test]
fn strength_bits_round_trip() {
    assert!(!Strength::Low.bit());
    assert!(Strength::Normal.bit());
    assert_eq!(Strength::from_bit(false), Strength::Low);
    assert_eq!(Strength::from_bit(true), Strength::Normal);
}

#[test]
fn spc_reads_power_on_state() {
    let spc = SPC::new(SpcRegs::new());
    assert!(!spc.busy());
    assert_eq!(spc.active_core_ldo_voltage(), Voltage::MidVoltage);
    assert_eq!(spc.active_core_ldo_strength(), Strength::Normal);
}

#[test]
fn set_active_core_ldo_while_busy_writes_nothing() {
    let mut regs = SpcRegs::new();
    regs.busy = true;
    let mut spc = SPC::new(regs);
    let before = spc.spc;
    assert_eq!(
        spc.set_active_core_ldo(Voltage::OverVoltage, Strength::Normal),
        Err(SPCError::Busy)
    );
    assert_eq!(spc.spc, before);
}

#[test]
fn set_active_core_ldo_changes_voltage_and_strength() {
    let mut spc = SPC::new(SpcRegs::new());
    assert_eq!(
        spc.set_active_core_ldo(Voltage::OverVoltage, Strength::Low),
        Ok(())
    );
    assert_eq!(spc.spc.coreldo_vdd_lvl, 3);
    assert!(!spc.spc.coreldo_vdd_ds);
    assert_eq!(spc.active_core_ldo_voltage(), Voltage::OverVoltage);
    assert_eq!(spc.active_core_ldo_strength(), Strength::Low);
}

#[test]
fn set_active_core_ldo_voltage_change_runs_at_normal_strength() {
    let mut spc = SPC::new(SpcRegs::new());
    assert_eq!(
        spc.set_active_core_ldo(Voltage::OverVoltage, Strength::Low),
        Ok(())
    );
    assert_eq!(
        spc.log,
        vec![
            WriteEvent::CoreStrength(true),
            WriteEvent::CoreVoltage(3),
            WriteEvent::PowerBusyPoll,
            WriteEvent::CoreStrength(false),
        ],
        "the strength is forced to normal before the level write and \
         restored only after the busy poll"
    );
}

#[test]
fn set_active_core_ldo_same_voltage_only_touches_strength() {
    let mut spc = SPC::new(SpcRegs::new());
    assert_eq!(
        spc.set_active_core_ldo(Voltage::MidVoltage, Strength::Low),
        Ok(())
    );
    assert_eq!(spc.spc.coreldo_vdd_lvl, 1);
    assert!(!spc.spc.coreldo_vdd_ds);
    assert_eq!(spc.log, vec![WriteEvent::CoreStrength(false)]);
}

#[test]
fn set_sram_operate_voltage_rejects_under_voltage() {
    let mut spc = SPC::new(SpcRegs::new());
    let before = spc.spc;
    assert_eq!(
        spc.set_sram_operate_voltage(Voltage::UnderVoltage),
        Err(SPCError::VoltageNotSupport)
    );
    assert_eq!(spc.spc, before);
}

#[test]
fn set_sram_operate_voltage_handshake_completes() {
    let mut spc = SPC::new(SpcRegs::new());
    assert_eq!(spc.set_sram_operate_voltage(Voltage::NormalVoltage), Ok(()));
    assert_eq!(spc.spc.sram_vsm, 2);
    assert!(!spc.spc.sram_req, "the request bit is cleared after the acknowledge");
    assert_eq!(
        spc.log,
        vec![
            WriteEvent::SramVoltage(2),
            WriteEvent::SramRequest(true),
            WriteEvent::SramAckPoll,
            WriteEvent::SramRequest(false),
        ]
    );
}
