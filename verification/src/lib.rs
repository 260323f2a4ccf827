//! The core of a cycle-accurate emulator for the first Game Boy (DMG):
//! register file and ALU, address bus, timer, interrupt controller, OAM DMA
//! engine and the instruction engine, each stated against a mathematical
//! model and verified.
#![allow(non_snake_case)]
#![allow(non_camel_case_types)]

pub mod gb;
