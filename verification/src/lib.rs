//! A verified core for an 8-bit virtual machine with a fixed 34-instruction
//! set, a 4096-byte memory, sixteen 8-bit registers, a 16-deep call stack,
//! two countdown timers, a 16-key input latch and a 64x32 monochrome display.
//!
//! The library owns the machine state and the fetch/decode/dispatch engine;
//! rendering, input polling and program loading from disk are left to the
//! surrounding driver, which talks to the core through plain values.

pub mod isa;
pub mod model;
pub mod state;
pub mod engine;
pub mod laws;
