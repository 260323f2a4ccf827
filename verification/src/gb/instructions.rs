//! The instruction engine.
//!
//! `instructions` decodes opcodes and steps the instruction in progress;
//! `operations` and `prefixed_operations` say what each operation does in
//! each machine cycle, and `prefixed_instructions` runs the prefix `CB`.
//! The other files prove what holds of all of them: `cycles` the machine
//! cycles that each takes, `bus_access` that a step makes one bus access
//! at most, `invariants` what no program can change, and `identities` what
//! whole instructions do.

pub mod bus_access;
pub mod cycles;
pub mod identities;
pub mod instructions;
pub mod invariants;
pub mod operations;
pub mod prefixed_instructions;
pub mod prefixed_operations;
