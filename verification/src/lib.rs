//! A verified byte-code interpreter for a classic 8-bit microprocessor:
//! registers and flags, memory-mapped addressing, per-opcode semantics and
//! the fetch-decode-execute cycle.
//!
//! The `machine` module gives the mathematical model — an abstract machine
//! state and a step function — and the `cpu` module's execution engine is
//! proved to implement it exactly. The `instructions` module holds the
//! opcode catalog, and `laws` states and proves the engine's general
//! properties.

pub mod addressing_modes;
pub mod cpu;
pub mod instructions;
pub mod laws;
pub mod machine;
