//! A cycle-accurate emulator core for the MOS 6502 microprocessor.
//!
//! The [`cpu`] module holds the processor itself: registers and flags, the
//! addressing-mode resolvers, the arithmetic/logic unit (including decimal
//! mode), the per-instruction handlers, and the reset/run sequencer. Every
//! memory access is one bus transaction and charges exactly one clock cycle;
//! the cycle counts are part of the verified contracts.
//!
//! The [`display`] module holds the register-level logic of a character
//! display controller that the processor can drive through its port pins.

pub mod cpu;
pub mod display;
