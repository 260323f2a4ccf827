//! The I/O registers and the units behind them.

pub mod graphics;
pub mod io_registers;
pub mod joypad;
pub mod timer;
