//! A 6502 processor emulator with a verified instruction decoder and executor.
use vstd::prelude::*;

pub mod emulator;
pub mod state;

pub use emulator::instructions;

verus! {

} // verus!
