//! Cycle-accurate model of a 32-bit RISC processor core (ARM7TDMI-class).
//!
//! The crate provides the execution engine for the two instruction encodings
//! (the 32-bit set and the 16-bit compressed set), the banked register file,
//! the ALU and barrel shifter, the instruction decoders, and the bus
//! request/response types through which a surrounding harness drives the core
//! one clock edge at a time.

pub mod arm7_tdmi;
pub mod bus;
pub mod common;
pub mod memory;
