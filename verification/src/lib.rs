//! Interrupt-driven concurrency core of a single-core kernel: nested
//! interrupt masking, exclusive-access cells, a UART-class character
//! device with suspendable read/write operations, an interrupt
//! dispatcher, and a cooperative scheduler.
//!
//! Hardware effects (the interrupt-enable line, the device registers)
//! are modeled as explicit state, so every rule of the core is stated
//! and machine-checked.

pub mod cell;
pub mod console;
pub mod driver;
pub mod executor;
pub mod masking;
pub mod stdio;
pub mod uart;
