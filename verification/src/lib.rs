//! Clock-tree and power-sequencing engine for NXP MCX series microcontrollers.
//!
//! The crate brings up oscillators and phase-locked loops, switches the main
//! clock source, keeps core voltage and flash wait states consistent with the
//! selected frequency, and gates clock delivery to peripheral modules.
//!
//! Hardware register blocks are modelled as explicit owned values (see
//! [`regs`]): each engine operation takes the blocks it touches by reference,
//! so the type system rules out two call sites mutating the same block, and
//! every register effect is stated in the operation's contract.

pub mod clock;
pub mod power;
pub mod regs;
pub mod scg;
pub mod spc;
pub mod syscon;
