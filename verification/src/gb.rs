//! The Game Boy: its parts, leaves first.
//!
//! `utils` and `bits` hold the shared names and the facts about bits;
//! `cpu` the register file and the arithmetic; `cartridge` the ROM image;
//! `io` the register block with the timer, the joypad and the DMA engine;
//! `bus` the memory map; `instructions` the opcode tables and what each
//! operation does in each machine cycle; `emu` the machine that owns them
//! all and advances one machine cycle at a time; `transfer` what an OAM DMA
//! transfer copies while it does.

pub mod bits;
pub mod utils;
pub mod cpu;
pub mod cartridge;
pub mod instructions;
pub mod io;
pub mod bus;
pub mod emu;
pub mod transfer;
