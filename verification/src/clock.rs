//! Clock control for N-series parts: the SYSCON-based clock tree.
//!
//! [`scg`] holds the clock engine proper — oscillator bring-up, the main
//! clock switch and the run-mode/voltage sequencer. [`syscon`] holds the
//! peripheral clock-gate registry, and [`systick`] and [`clkout`] the two
//! auxiliary clock outputs with their dividers.

pub mod clkout;
pub mod scg;
pub mod syscon;
pub mod systick;
