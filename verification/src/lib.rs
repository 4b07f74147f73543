//! An instruction-level emulator for a 6502-style 8-bit microprocessor:
//! a flat 64K memory bus, an A/X/Y register file with Zero and Negative
//! status flags, an addressing-mode resolver, a stack unit, and a
//! fetch-decode-execute dispatcher, each with a verified contract.

pub mod arith;
pub mod cpu;
pub mod isa;
pub mod laws;
pub mod model;
