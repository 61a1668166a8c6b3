//! The clock engine: oscillator bring-up, main clock-source switch and the
//! run-mode/voltage sequencer.
//!
//! [`Clocks`] owns the SCG, SPC and FMU register blocks together with a
//! [`WriteEvent`] log. [`Clocks::freeze`] applies a [`Config`]: it sets up
//! the crystal oscillator and the internal references, switches the main
//! clock source, then derives the run mode required by the resulting system
//! clock frequency and sequences the voltage / flash wait-state / SRAM
//! margin transition in the direction-dependent order that keeps the part
//! inside its timing margins at every step.

use crate::power::{derive_run_mode, flash_wait_states, flash_wait_states_of, run_mode_of, RunMode};
use crate::regs::scg::{FircCfg, FircCsr, SircCsr, SoscCfg, SoscCsr};
use crate::regs::{FmuRegs, ScgRegs, SpcRegs, WriteEvent};
use crate::scg::SOSC;
use vstd::prelude::*;

verus! {

/// Main clock source selection.
#[derive(Clone, Copy, Debug, PartialEq, Eq, Structural)]
pub enum MainClockSource {
    SOSC,
    SIRC,
    FIRC,
    ROSC,
    APLL,
    SPLL,
    UPLL,
    Stop,
}

impl MainClockSource {
    /// The RCCR.SCS source code of this selection.
    pub open spec fn code_spec(self) -> u8 {
        match self {
            MainClockSource::SOSC => 1,
            MainClockSource::SIRC => 2,
            MainClockSource::FIRC => 3,
            MainClockSource::ROSC => 4,
            MainClockSource::APLL => 5,
            MainClockSource::SPLL => 6,
            MainClockSource::UPLL => 7,
            MainClockSource::Stop => 8,
        }
    }

    /// Returns the RCCR.SCS source code of this selection.
    pub fn code(&self) -> (r: u8)
        ensures
            r == self.code_spec(),
    {
        match self {
            MainClockSource::SOSC => 1,
            MainClockSource::SIRC => 2,
            MainClockSource::FIRC => 3,
            MainClockSource::ROSC => 4,
            MainClockSource::APLL => 5,
            MainClockSource::SPLL => 6,
            MainClockSource::UPLL => 7,
            MainClockSource::Stop => 8,
        }
    }
}

/// SOSC operating mode: an external reference clock fed in, or the internal
/// crystal oscillator, each with its frequency in Hz.
#[derive(Clone, Copy, Debug, PartialEq, Eq, Structural)]
pub enum SOSCMode {
    RefClock(u32),
    Oscillator(u32),
}

impl SOSCMode {
    /// The configured frequency in Hz.
    pub open spec fn freq_spec(self) -> u32 {
        match self {
            SOSCMode::RefClock(f) => f,
            SOSCMode::Oscillator(f) => f,
        }
    }

    /// Returns the configured frequency in Hz.
    pub fn freq(&self) -> (r: u32)
        ensures
            r == self.freq_spec(),
    {
        match self {
            SOSCMode::RefClock(f) => *f,
            SOSCMode::Oscillator(f) => *f,
        }
    }
}

/// FIRC output frequency selection.
#[derive(Clone, Copy, Debug, PartialEq, Eq, Structural)]
pub enum FIRCRange {
    FIRC144M,
    FIRC48M,
}

impl FIRCRange {
    /// The FIRCCFG range field code.
    pub open spec fn code_spec(self) -> u8 {
        match self {
            FIRCRange::FIRC144M => 1,
            FIRCRange::FIRC48M => 0,
        }
    }

    /// Returns the FIRCCFG range field code.
    pub fn code(&self) -> (r: u8)
        ensures
            r == self.code_spec(),
    {
        match self {
            FIRCRange::FIRC144M => 1,
            FIRCRange::FIRC48M => 0,
        }
    }
}

/// Clock configuration: per-oscillator settings, the chosen main clock
/// source and the bus divider.
#[derive(Clone, Copy, Debug)]
pub struct Config {
    /// SOSC mode, or `None` to leave the crystal oscillator untouched.
    pub sosc_mode: Option<SOSCMode>,
    /// FIRC range, or `None` to leave the fast reference untouched.
    pub firc_range: Option<FIRCRange>,
    /// Main clock source selection.
    pub main_clock_source: MainClockSource,
    /// Deliver the SIRC 12 MHz clock to peripherals.
    pub sirc_clk_periph_en: bool,
    /// Deliver the FIRC functional clock to peripherals.
    pub firc_fclk_periph_en: bool,
    /// Deliver the FIRC slow clock to peripherals.
    pub firc_sclk_periph_en: bool,
    /// The AHB bus divider the system clock is divided by.
    pub ahbclkdiv: u8,
}

impl Config {
    /// Returns the default configuration; see [`Config::default`].
    pub fn new() -> (r: Config)
        ensures
            r == Config::fro12m_spec(),
    {
        Config::default()
    }

    /// The 12 MHz internal-reference configuration.
    pub open spec fn fro12m_spec() -> Config {
        Config {
            sosc_mode: None,
            firc_range: None,
            main_clock_source: MainClockSource::SIRC,
            sirc_clk_periph_en: true,
            firc_fclk_periph_en: false,
            firc_sclk_periph_en: false,
            ahbclkdiv: 1,
        }
    }

    /// The slow internal reference drives the main clock at 12 MHz.
    pub fn new_fro12m() -> (r: Config)
        ensures
            r == Config::fro12m_spec(),
            r.is_valid_spec(),
    {
        Config {
            sosc_mode: None,
            firc_range: None,
            main_clock_source: MainClockSource::SIRC,
            sirc_clk_periph_en: true,
            firc_fclk_periph_en: false,
            firc_sclk_periph_en: false,
            ahbclkdiv: 1,
        }
    }

    /// The fast internal reference drives the main clock at 48 MHz.
    pub fn new_frohf48m() -> (r: Config)
        ensures
            r == (Config {
                sosc_mode: None,
                firc_range: Some(FIRCRange::FIRC48M),
                main_clock_source: MainClockSource::FIRC,
                sirc_clk_periph_en: true,
                firc_fclk_periph_en: false,
                firc_sclk_periph_en: false,
                ahbclkdiv: 1,
            }),
            r.is_valid_spec(),
    {
        Config {
            sosc_mode: None,
            firc_range: Some(FIRCRange::FIRC48M),
            main_clock_source: MainClockSource::FIRC,
            sirc_clk_periph_en: true,
            firc_fclk_periph_en: false,
            firc_sclk_periph_en: false,
            ahbclkdiv: 1,
        }
    }

    /// Selects the main clock source.
    pub fn set_main_clock_source(&mut self, source: MainClockSource)
        ensures
            *final(self) == (Config { main_clock_source: source, ..*old(self) }),
    {
        self.main_clock_source = source;
    }

    /// Selects SOSC as the main clock source.
    pub fn use_sosc(&mut self)
        ensures
            *final(self) == (Config {
                main_clock_source: MainClockSource::SOSC,
                ..*old(self)
            }),
    {
        self.set_main_clock_source(MainClockSource::SOSC);
    }

    /// Selects SIRC as the main clock source.
    pub fn use_sirc(&mut self)
        ensures
            *final(self) == (Config {
                main_clock_source: MainClockSource::SIRC,
                ..*old(self)
            }),
    {
        self.set_main_clock_source(MainClockSource::SIRC);
    }

    /// Selects FIRC as the main clock source.
    pub fn use_firc(&mut self)
        ensures
            *final(self) == (Config {
                main_clock_source: MainClockSource::FIRC,
                ..*old(self)
            }),
    {
        self.set_main_clock_source(MainClockSource::FIRC);
    }

    /// Sets or clears the FIRC range selection.
    pub fn set_firc_range(&mut self, range: Option<FIRCRange>)
        ensures
            *final(self) == (Config { firc_range: range, ..*old(self) }),
    {
        self.firc_range = range;
    }

    /// Static validity: the chosen main source is supported and has its
    /// sub-configuration — FIRC needs a range, SOSC a mode — and a
    /// configured SOSC frequency lies in the supported [8 MHz, 66 MHz)
    /// engineering range.
    pub open spec fn is_valid_spec(self) -> bool {
        &&& match self.main_clock_source {
            MainClockSource::SIRC => true,
            MainClockSource::FIRC => self.firc_range is Some,
            MainClockSource::SOSC => self.sosc_mode is Some,
            _ => false,
        }
        &&& (self.sosc_mode matches Some(mode) ==> 8_000_000 <= mode.freq_spec()
            && mode.freq_spec() < 66_000_000)
    }

    /// Returns whether this configuration passes static validation.
    ///
    /// Sources without a controller on this part (ROSC and the PLLs, and
    /// `Stop`) are reported invalid.
    pub fn is_valid(&self) -> (r: bool)
        ensures
            r == self.is_valid_spec(),
    {
        let source_ok = match self.main_clock_source {
            MainClockSource::SIRC => true,
            MainClockSource::FIRC => self.firc_range.is_some(),
            MainClockSource::SOSC => self.sosc_mode.is_some(),
            _ => false,
        };
        if !source_ok {
            return false;
        }

        if let Some(mode) = self.sosc_mode {
            let freq = mode.freq();
            if freq < 8_000_000 || freq >= 66_000_000 {
                return false;
            }
        }

        true
    }

    /// The SIRC 1 MHz clock, always available.
    pub fn get_sirc_1mhz(&self) -> (r: Option<u32>)
        ensures
            r == Some(1_000_000u32),
    {
        Some(1_000_000)
    }

    /// The SIRC 12 MHz peripheral clock, if delivery is enabled.
    pub open spec fn sirc_12mhz_spec(self) -> Option<u32> {
        if self.sirc_clk_periph_en {
            Some(12_000_000u32)
        } else {
            None
        }
    }

    /// Returns the SIRC 12 MHz peripheral clock, if delivery is enabled.
    pub fn get_sirc_12mhz(&self) -> (r: Option<u32>)
        ensures
            r == self.sirc_12mhz_spec(),
    {
        if self.sirc_clk_periph_en {
            Some(12_000_000)
        } else {
            None
        }
    }

    /// Returns the FIRC 144 MHz peripheral clock, if delivery is enabled.
    pub fn get_firc_144mhz(&self) -> (r: Option<u32>)
        ensures
            r == (if self.firc_fclk_periph_en {
                Some(144_000_000u32)
            } else {
                None
            }),
    {
        if self.firc_fclk_periph_en {
            Some(144_000_000)
        } else {
            None
        }
    }

    /// Returns the FIRC 48 MHz peripheral clock, if delivery is enabled.
    pub fn get_firc_48mhz(&self) -> (r: Option<u32>)
        ensures
            r == (if self.firc_sclk_periph_en {
                Some(48_000_000u32)
            } else {
                None
            }),
    {
        if self.firc_sclk_periph_en {
            Some(48_000_000)
        } else {
            None
        }
    }

    /// The FIRC output frequency for the selected range.
    pub open spec fn firc_clk_spec(self) -> Option<u32> {
        match self.firc_range {
            None => None,
            Some(FIRCRange::FIRC144M) => Some(144_000_000u32),
            Some(FIRCRange::FIRC48M) => Some(48_000_000u32),
        }
    }

    /// Returns the FIRC output frequency for the selected range.
    pub fn get_firc_clk(&self) -> (r: Option<u32>)
        ensures
            r == self.firc_clk_spec(),
    {
        match self.firc_range {
            None => None,
            Some(FIRCRange::FIRC144M) => Some(144_000_000),
            Some(FIRCRange::FIRC48M) => Some(48_000_000),
        }
    }

    /// The SOSC frequency, if a mode is configured.
    pub open spec fn sosc_clk_spec(self) -> Option<u32> {
        match self.sosc_mode {
            None => None,
            Some(mode) => Some(mode.freq_spec()),
        }
    }

    /// Returns the SOSC frequency, if a mode is configured.
    pub fn get_sosc_clk(&self) -> (r: Option<u32>)
        ensures
            r == self.sosc_clk_spec(),
    {
        match self.sosc_mode {
            None => None,
            Some(SOSCMode::Oscillator(freq)) => Some(freq),
            Some(SOSCMode::RefClock(freq)) => Some(freq),
        }
    }

    /// The main clock frequency for the selected source.
    pub open spec fn main_clk_spec(self) -> Option<u32> {
        match self.main_clock_source {
            MainClockSource::SOSC => self.sosc_clk_spec(),
            MainClockSource::FIRC => self.firc_clk_spec(),
            MainClockSource::SIRC => self.sirc_12mhz_spec(),
            _ => None,
        }
    }

    /// Returns the main clock frequency for the selected source.
    ///
    /// Sources without a controller on this part yield `None`.
    pub fn get_main_clk(&self) -> (r: Option<u32>)
        ensures
            r == self.main_clk_spec(),
    {
        match self.main_clock_source {
            MainClockSource::SOSC => self.get_sosc_clk(),
            MainClockSource::FIRC => self.get_firc_clk(),
            MainClockSource::SIRC => self.get_sirc_12mhz(),
            _ => None,
        }
    }

    /// The system clock frequency: the main clock divided by the bus
    /// divider.
    pub open spec fn system_clk_spec(self) -> Option<u32> {
        match self.main_clk_spec() {
            Some(clk) => Some((clk as int / self.ahbclkdiv as int) as u32),
            None => None,
        }
    }

    /// Returns the system clock frequency: the main clock divided by the
    /// bus divider.
    pub fn get_system_clk(&self) -> (r: Option<u32>)
        requires
            self.main_clk_spec() is Some ==> self.ahbclkdiv != 0,
        ensures
            r == self.system_clk_spec(),
    {
        match self.get_main_clk() {
            Some(clk) => Some(clk / self.ahbclkdiv as u32),
            None => None,
        }
    }

    /// The SOSC range code, or 255 when no mode is configured or the
    /// frequency lies outside the supported bands.
    pub open spec fn sosc_range_spec(self) -> u8 {
        match self.sosc_mode {
            None => 255,
            Some(mode) => match SOSC::range_spec(mode.freq_spec()) {
                Some(code) => code,
                None => 255,
            },
        }
    }

    /// Maps the configured SOSC frequency onto its range code, with 255 as
    /// the out-of-range sentinel.
    fn sosc_range(&self) -> (r: u8)
        ensures
            r == self.sosc_range_spec(),
    {
        let freq = match self.sosc_mode {
            None => {
                return 255;
            },
            Some(mode) => mode.freq(),
        };

        if 8_000_000 <= freq && freq < 20_000_000 {
            0
        } else if 20_000_000 <= freq && freq < 30_000_000 {
            1
        } else if 30_000_000 <= freq && freq < 50_000_000 {
            2
        } else if 50_000_000 <= freq && freq < 66_000_000 {
            3
        } else {
            255
        }
    }
}

impl Default for Config {
    /// The 12 MHz internal-reference configuration, the safe power-on
    /// choice.
    fn default() -> (r: Config)
        ensures
            r == Config::fro12m_spec(),
    {
        Config {
            sosc_mode: None,
            firc_range: None,
            main_clock_source: MainClockSource::SIRC,
            sirc_clk_periph_en: true,
            firc_fclk_periph_en: false,
            firc_sclk_periph_en: false,
            ahbclkdiv: 1,
        }
    }
}

/// The SCG state after the SOSC setup step: untouched when no mode is
/// configured, otherwise LDO on, mode and range written, oscillator
/// enabled and relocked.
pub open spec fn sosc_setup_state(s: ScgRegs, c: Config) -> ScgRegs {
    match c.sosc_mode {
        None => s,
        Some(mode) => ScgRegs {
            ldoen: true,
            sosccfg: SoscCfg { erefs: mode is Oscillator, range: c.sosc_range_spec() },
            sosccsr: SoscCsr { lk: true, en: true, ..s.sosccsr },
            ..s
        },
    }
}

/// The SCG state after the internal-reference setup step. Delivery gates
/// are set-only: the step enables what the configuration asks for and
/// leaves the other gates as they were.
pub open spec fn irc_setup_state(s: ScgRegs, c: Config) -> ScgRegs {
    ScgRegs {
        sirccsr: SircCsr {
            lk: true,
            clk_periph_en: s.sirccsr.clk_periph_en || c.sirc_clk_periph_en,
            ..s.sirccsr
        },
        firccfg: (match c.firc_range {
            Some(range) => FircCfg { freq_sel: range.code_spec() },
            None => s.firccfg,
        }),
        firccsr: FircCsr {
            lk: true,
            en: s.firccsr.en || c.firc_range is Some,
            sclk_periph_en: s.firccsr.sclk_periph_en || c.firc_sclk_periph_en,
            fclk_periph_en: s.firccsr.fclk_periph_en || c.firc_fclk_periph_en,
            ..s.firccsr
        },
        ..s
    }
}

/// The SCG state after the main clock-source switch.
pub open spec fn main_switch_state(s: ScgRegs, c: Config) -> ScgRegs {
    ScgRegs { rccr_scs: c.main_clock_source.code_spec(), ..s }
}

/// The flash wait-state count for a (mode, clock) pair, with an arbitrary
/// fallback for pairs outside the bands — the sequencer's preconditions
/// keep those out.
pub open spec fn flash_ws_or_zero(mode: RunMode, clk: u32) -> u8 {
    match flash_wait_states_of(mode, clk) {
        Some(ws) => ws,
        None => 0,
    }
}

/// The event order of a run-mode increase: voltage is raised first and the
/// timing margins (flash wait states, SRAM scaling) are loosened only
/// afterwards, so the part never runs under-margined.
pub open spec fn increase_events(mode: RunMode, clk: u32) -> Seq<WriteEvent> {
    seq![
        WriteEvent::CoreVoltage(mode.level_spec()),
        WriteEvent::PowerBusyPoll,
        WriteEvent::FlashWaitStates(flash_ws_or_zero(mode, clk)),
        WriteEvent::SramVoltage(mode.level_spec()),
        WriteEvent::SramRequest(true),
        WriteEvent::SramAckPoll,
        WriteEvent::SramRequest(false),
    ]
}

/// The event order of a run-mode decrease: the exact reverse grouping —
/// flash wait states and SRAM scaling are tightened for the lower target
/// first, and only then is the voltage dropped.
pub open spec fn decrease_events(mode: RunMode, clk: u32) -> Seq<WriteEvent> {
    seq![
        WriteEvent::FlashWaitStates(flash_ws_or_zero(mode, clk)),
        WriteEvent::SramVoltage(mode.level_spec()),
        WriteEvent::SramRequest(true),
        WriteEvent::SramAckPoll,
        WriteEvent::SramRequest(false),
        WriteEvent::CoreVoltage(mode.level_spec()),
        WriteEvent::PowerBusyPoll,
    ]
}

/// The voltage steps of a run-mode transition: the level write and the
/// busy poll.
pub open spec fn voltage_group(mode: RunMode) -> Seq<WriteEvent> {
    seq![WriteEvent::CoreVoltage(mode.level_spec()), WriteEvent::PowerBusyPoll]
}

/// The timing-margin steps of a run-mode transition: the flash wait-state
/// write and the SRAM voltage-scaling handshake.
pub open spec fn margin_group(mode: RunMode, clk: u32) -> Seq<WriteEvent> {
    seq![
        WriteEvent::FlashWaitStates(flash_ws_or_zero(mode, clk)),
        WriteEvent::SramVoltage(mode.level_spec()),
        WriteEvent::SramRequest(true),
        WriteEvent::SramAckPoll,
        WriteEvent::SramRequest(false),
    ]
}

/// The decrease order is the exact reverse grouping of the increase
/// order: an increase raises the voltage before loosening the timing
/// margins, a decrease tightens the margins before dropping the voltage.
pub proof fn lemma_decrease_is_reverse_grouping(mode: RunMode, clk: u32)
    ensures
        increase_events(mode, clk) == voltage_group(mode) + margin_group(mode, clk),
        decrease_events(mode, clk) == margin_group(mode, clk) + voltage_group(mode),
{
    assert(increase_events(mode, clk) =~= voltage_group(mode) + margin_group(mode, clk));
    assert(decrease_events(mode, clk) =~= margin_group(mode, clk) + voltage_group(mode));
}

/// The events of a run-mode transition: none when the mode is unchanged,
/// else the increase or decrease order.
pub open spec fn run_mode_events(cur: RunMode, target: RunMode, clk: u32) -> Seq<WriteEvent> {
    if target == cur {
        Seq::empty()
    } else if target.level_spec() > cur.level_spec() {
        increase_events(target, clk)
    } else {
        decrease_events(target, clk)
    }
}

/// The SPC and FMU state after a run-mode transition. Both directions end
/// in the same state; only the order of the steps differs.
pub open spec fn power_state_after(
    spc: SpcRegs,
    fmu: FmuRegs,
    cur: RunMode,
    target: RunMode,
    clk: u32,
) -> (SpcRegs, FmuRegs) {
    if target == cur {
        (spc, fmu)
    } else {
        (
            SpcRegs {
                coreldo_vdd_lvl: target.level_spec(),
                dcdc_vdd_lvl: target.level_spec(),
                sram_vsm: target.level_spec(),
                sram_req: false,
                ..spc
            },
            FmuRegs { rwsc: flash_ws_or_zero(target, clk) },
        )
    }
}

/// The main clock frequency of a configuration, with an arbitrary fallback
/// where none is configured — the engine's preconditions keep that out.
pub open spec fn main_clk_or_zero(c: Config) -> u32 {
    match c.main_clk_spec() {
        Some(clk) => clk,
        None => 0,
    }
}

/// The clock engine: owns the SCG, SPC and FMU register blocks, the write
/// log and the cached current run mode.
pub struct Clocks {
    pub scg: ScgRegs,
    pub spc: SpcRegs,
    pub fmu: FmuRegs,
    /// The power-sequencing write log; see [`WriteEvent`].
    pub log: Vec<WriteEvent>,
    /// The run mode the engine last established. Cached so a later
    /// frequency change can determine its direction without reading
    /// hardware.
    pub run_mode: RunMode,
    pub config: Config,
}

impl Clocks {
    /// The run mode required by the configured system clock, if the
    /// frequency is derivable and supported.
    pub open spec fn derived_run_mode_spec(self) -> Option<RunMode> {
        match self.config.system_clk_spec() {
            Some(sys) => run_mode_of(sys),
            None => None,
        }
    }

    /// The run mode a freeze will end in: the derived mode, or the current
    /// one where none is derivable.
    pub open spec fn target_mode_spec(self) -> RunMode {
        match self.derived_run_mode_spec() {
            Some(mode) => mode,
            None => self.run_mode,
        }
    }

    /// Everything [`Clocks::freeze`] relies on. A violated condition has
    /// no error return on this interface — on hardware it would be a panic
    /// or an unbounded status spin — so these inputs are excluded rather
    /// than reported:
    /// - the configuration is valid, yields a main clock, and its bus
    ///   divider is nonzero;
    /// - the resulting system clock is supported by some run mode;
    /// - the touched oscillators come up without a fault, and the fast
    ///   reference is either configured or already running (its valid bit
    ///   is polled unconditionally);
    /// - where the run mode changes, no foreign voltage transition is in
    ///   progress and the main clock lies in a flash wait-state band of the
    ///   target mode.
    pub open spec fn freeze_ok(self) -> bool {
        let c = self.config;
        &&& c.is_valid_spec()
        &&& c.main_clk_spec() is Some
        &&& c.ahbclkdiv != 0
        &&& self.derived_run_mode_spec() is Some
        &&& (c.sosc_mode is Some ==> !self.scg.sosccsr.fault)
        &&& !self.scg.sirccsr.fault
        &&& (c.firc_range is Some || self.scg.firccsr.en)
        &&& !self.scg.firccsr.fault
        &&& (self.target_mode_spec() != self.run_mode ==> !self.spc.busy)
        &&& (self.target_mode_spec() != self.run_mode ==> flash_wait_states_of(
            self.target_mode_spec(),
            main_clk_or_zero(c),
        ) is Some)
    }

    /// Takes ownership of the three register blocks. The engine starts
    /// with an empty log, the default configuration and the power-on run
    /// mode, `MidDrive`.
    pub fn constrain(scg: ScgRegs, spc: SpcRegs, fmu: FmuRegs) -> (r: Clocks)
        ensures
            r.scg == scg,
            r.spc == spc,
            r.fmu == fmu,
            r.log@ == Seq::<WriteEvent>::empty(),
            r.run_mode == RunMode::MidDrive,
            r.config == Config::fro12m_spec(),
    {
        Clocks {
            scg,
            spc,
            fmu,
            log: Vec::new(),
            run_mode: RunMode::MidDrive,
            config: Config::default(),
        }
    }

    /// Replaces the configuration to be applied by the next freeze.
    pub fn use_config(&mut self, config: Config)
        ensures
            final(self).config == config,
            final(self).scg == old(self).scg,
            final(self).spc == old(self).spc,
            final(self).fmu == old(self).fmu,
            final(self).log@ == old(self).log@,
            final(self).run_mode == old(self).run_mode,
    {
        self.config = config;
    }

    /// Returns the run mode the engine last established.
    pub fn get_current_run_mode(&self) -> (r: RunMode)
        ensures
            r == self.run_mode,
    {
        self.run_mode
    }

    /// Applies the configuration: sets up the crystal oscillator and the
    /// internal references, switches the main clock source and confirms
    /// the switch, then derives the run mode required by the new system
    /// clock and sequences the transition.
    #[verifier::rlimit(60)]
    pub fn freeze(&mut self)
        requires
            old(self).freeze_ok(),
        ensures
            final(self).config == old(self).config,
            final(self).scg == main_switch_state(
                irc_setup_state(sosc_setup_state(old(self).scg, old(self).config), old(self).config),
                old(self).config,
            ),
            final(self).run_mode == old(self).target_mode_spec(),
            final(self).log@ == old(self).log@ + run_mode_events(
                old(self).run_mode,
                old(self).target_mode_spec(),
                main_clk_or_zero(old(self).config),
            ),
            ({
                let (spc, fmu) = power_state_after(
                    old(self).spc,
                    old(self).fmu,
                    old(self).run_mode,
                    old(self).target_mode_spec(),
                    main_clk_or_zero(old(self).config),
                );
                final(self).spc == spc && final(self).fmu == fmu
            }),
    {
        self.setup_sosc();
        self.setup_irc();

        let code = self.config.main_clock_source.code();
        self.scg.rccr_scs = code;
        self.scg.wait_csr_scs(code);

        let sys: u32 = match self.config.get_system_clk() {
            Some(clk) => clk,
            None => {
                assert(false);
                0
            },
        };
        let run_mode: RunMode = match derive_run_mode(sys) {
            Some(mode) => mode,
            None => {
                assert(false);
                RunMode::MidDrive
            },
        };
        self.setup_run_mode(run_mode);
        self.run_mode = run_mode;
    }

    /// Sequences a run-mode change towards `run_mode`: a no-op when the
    /// mode is unchanged, otherwise an increase or decrease in the
    /// direction-dependent step order.
    pub fn setup_run_mode(&mut self, run_mode: RunMode)
        requires
            run_mode != RunMode::UnderDrive,
            old(self).config.main_clk_spec() is Some,
            run_mode != old(self).run_mode ==> !old(self).spc.busy,
            run_mode != old(self).run_mode ==> flash_wait_states_of(
                run_mode,
                main_clk_or_zero(old(self).config),
            ) is Some,
        ensures
            final(self).scg == old(self).scg,
            final(self).config == old(self).config,
            final(self).run_mode == old(self).run_mode,
            final(self).log@ == old(self).log@ + run_mode_events(
                old(self).run_mode,
                run_mode,
                main_clk_or_zero(old(self).config),
            ),
            ({
                let (spc, fmu) = power_state_after(
                    old(self).spc,
                    old(self).fmu,
                    old(self).run_mode,
                    run_mode,
                    main_clk_or_zero(old(self).config),
                );
                final(self).spc == spc && final(self).fmu == fmu
            }),
    {
        if run_mode == self.run_mode {
            return;
        }
        let clk: u32 = match self.config.get_main_clk() {
            Some(clk) => clk,
            None => {
                assert(false);
                0
            },
        };
        if run_mode.level() > self.run_mode.level() {
            self.increase_run_mode(run_mode, clk);
        } else {
            self.decrease_run_mode(run_mode, clk);
        }
    }

    /// Raises the run mode: voltage first, then flash wait states and the
    /// SRAM voltage-scaling handshake for the new, higher frequency.
    pub fn increase_run_mode(&mut self, run_mode: RunMode, clk: u32)
        requires
            !old(self).spc.busy,
            flash_wait_states_of(run_mode, clk) is Some,
        ensures
            final(self).scg == old(self).scg,
            final(self).config == old(self).config,
            final(self).run_mode == old(self).run_mode,
            final(self).spc == (SpcRegs {
                coreldo_vdd_lvl: run_mode.level_spec(),
                dcdc_vdd_lvl: run_mode.level_spec(),
                sram_vsm: run_mode.level_spec(),
                sram_req: false,
                ..old(self).spc
            }),
            final(self).fmu == (FmuRegs { rwsc: flash_ws_or_zero(run_mode, clk) }),
            final(self).log@ == old(self).log@ + increase_events(run_mode, clk),
    {
        let lvl = run_mode.level();
        self.spc.coreldo_vdd_lvl = lvl;
        self.spc.dcdc_vdd_lvl = lvl;
        self.log.push(WriteEvent::CoreVoltage(lvl));
        self.spc.wait_not_busy();
        self.log.push(WriteEvent::PowerBusyPoll);

        self.setup_flash_access_cycles(run_mode, clk);

        self.spc.sram_vsm = lvl;
        self.log.push(WriteEvent::SramVoltage(lvl));
        self.spc.sram_req = true;
        self.log.push(WriteEvent::SramRequest(true));
        self.spc.wait_sram_ack();
        self.log.push(WriteEvent::SramAckPoll);
        self.spc.sram_req = false;
        self.log.push(WriteEvent::SramRequest(false));

        proof {
            assert(self.log@ =~= old(self).log@ + increase_events(run_mode, clk));
        }
    }

    /// Lowers the run mode: flash wait states and the SRAM scaling
    /// handshake are tightened for the lower target first, and only then
    /// is the voltage dropped — the exact reverse of the increase order.
    pub fn decrease_run_mode(&mut self, run_mode: RunMode, clk: u32)
        requires
            !old(self).spc.busy,
            flash_wait_states_of(run_mode, clk) is Some,
        ensures
            final(self).scg == old(self).scg,
            final(self).config == old(self).config,
            final(self).run_mode == old(self).run_mode,
            final(self).spc == (SpcRegs {
                coreldo_vdd_lvl: run_mode.level_spec(),
                dcdc_vdd_lvl: run_mode.level_spec(),
                sram_vsm: run_mode.level_spec(),
                sram_req: false,
                ..old(self).spc
            }),
            final(self).fmu == (FmuRegs { rwsc: flash_ws_or_zero(run_mode, clk) }),
            final(self).log@ == old(self).log@ + decrease_events(run_mode, clk),
    {
        let lvl = run_mode.level();
        self.setup_flash_access_cycles(run_mode, clk);

        self.spc.sram_vsm = lvl;
        self.log.push(WriteEvent::SramVoltage(lvl));
        self.spc.sram_req = true;
        self.log.push(WriteEvent::SramRequest(true));
        self.spc.wait_sram_ack();
        self.log.push(WriteEvent::SramAckPoll);
        self.spc.sram_req = false;
        self.log.push(WriteEvent::SramRequest(false));

        self.spc.coreldo_vdd_lvl = lvl;
        self.spc.dcdc_vdd_lvl = lvl;
        self.log.push(WriteEvent::CoreVoltage(lvl));
        self.spc.wait_not_busy();
        self.log.push(WriteEvent::PowerBusyPoll);

        proof {
            assert(self.log@ =~= old(self).log@ + decrease_events(run_mode, clk));
        }
    }

    /// Sets up the crystal oscillator as configured: a no-op when no mode
    /// is given.
    fn setup_sosc(&mut self)
        requires
            old(self).config.sosc_mode is Some ==> old(self).config.sosc_range_spec() != 255,
            old(self).config.sosc_mode is Some ==> !old(self).scg.sosccsr.fault,
        ensures
            final(self).scg == sosc_setup_state(old(self).scg, old(self).config),
            final(self).spc == old(self).spc,
            final(self).fmu == old(self).fmu,
            final(self).log@ == old(self).log@,
            final(self).run_mode == old(self).run_mode,
            final(self).config == old(self).config,
    {
        let mode = match self.config.sosc_mode {
            None => {
                return;
            },
            Some(mode) => mode,
        };
        let range = self.config.sosc_range();

        self.scg.ldoen = true;
        self.scg.sosccfg = SoscCfg { erefs: matches!(mode, SOSCMode::Oscillator(_)), range };
        self.scg.sosccsr.lk = false;
        self.scg.sosccsr.en = true;
        self.scg.wait_soscvld();
        self.scg.sosccsr.lk = true;
    }

    /// Sets up the internal references as configured: enables the
    /// requested delivery gates (set-only), selects the FIRC range and
    /// enables the fast reference where a range is given, polling each
    /// valid bit.
    fn setup_irc(&mut self)
        requires
            old(self).config.firc_range is Some || old(self).scg.firccsr.en,
            !old(self).scg.sirccsr.fault,
            !old(self).scg.firccsr.fault,
        ensures
            final(self).scg == irc_setup_state(old(self).scg, old(self).config),
            final(self).spc == old(self).spc,
            final(self).fmu == old(self).fmu,
            final(self).log@ == old(self).log@,
            final(self).run_mode == old(self).run_mode,
            final(self).config == old(self).config,
    {
        self.scg.sirccsr.lk = false;
        if self.config.sirc_clk_periph_en {
            self.scg.sirccsr.clk_periph_en = true;
        }
        self.scg.wait_sircvld();
        self.scg.sirccsr.lk = true;

        match self.config.firc_range {
            Some(range) => {
                self.scg.firccfg = FircCfg { freq_sel: range.code() };
            },
            None => {},
        }
        self.scg.firccsr.lk = false;
        if self.config.firc_sclk_periph_en {
            self.scg.firccsr.sclk_periph_en = true;
        }
        if self.config.firc_fclk_periph_en {
            self.scg.firccsr.fclk_periph_en = true;
        }
        if self.config.firc_range.is_some() {
            self.scg.firccsr.en = true;
        }
        self.scg.wait_fircvld();
        self.scg.firccsr.lk = true;
    }

    /// Writes the flash wait-state count for the (mode, frequency) pair.
    fn setup_flash_access_cycles(&mut self, run_mode: RunMode, clk: u32)
        requires
            flash_wait_states_of(run_mode, clk) is Some,
        ensures
            final(self).scg == old(self).scg,
            final(self).spc == old(self).spc,
            final(self).config == old(self).config,
            final(self).run_mode == old(self).run_mode,
            final(self).fmu == (FmuRegs { rwsc: flash_ws_or_zero(run_mode, clk) }),
            final(self).log@ == old(self).log@.push(
                WriteEvent::FlashWaitStates(flash_ws_or_zero(run_mode, clk)),
            ),
    {
        match flash_wait_states(run_mode, clk) {
            Some(ws) => {
                self.fmu.rwsc = ws;
                self.log.push(WriteEvent::FlashWaitStates(ws));
            },
            None => {
                assert(false);
            },
        }
    }
}

} // verus!
