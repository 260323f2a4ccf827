//! The register block of the pixel unit and the OAM DMA engine.

use vstd::prelude::*;
use crate::gb::bus::Bus;
use crate::gb::emu::GameboyEmulator;
use crate::gb::utils::{join_u16, word};

verus! {

/// The number of bytes that one OAM DMA transfer copies.
pub const DMA_LENGTH: u8 = 160;

#[derive(Debug, Clone, Copy, PartialEq, Eq, Structural)]
pub struct GraphicsRegisters {
    /// `0xFF40` - LCD control.
    pub LCDC: u8,
    /// `0xFF41` - LCD status.
    pub STAT: u8,
    /// `0xFF42` - Background vertical scroll.
    pub SCY: u8,
    /// `0xFF43` - Background horizontal scroll.
    pub SCX: u8,
    /// `0xFF44` - LCD Y coordinate.
    pub LY: u8,
    /// `0xFF45` - LCD Y compare.
    pub LYC: u8,
    /// `0xFF46` - OAM DMA source address.
    pub DMA: u8,
    /// `0xFF47` -  Background palette.
    pub BGP: u8,
    /// `0xFF48` -  Object palette 0.
    pub OBP0: u8,
    /// `0xFF49` -  Object palette 1.
    pub OBP1: u8,
    /// `0xFF4A` - Window Y coordinate.
    pub WY: u8,
    /// `0xFF4B` - Window X coordinate.
    pub WX: u8,
    /// `Some(index)` if transfer is in progress, `None` if not.
    pub DMA_transfer_progress: Option<u8>,
}

impl GraphicsRegisters {
    /// Whether a transfer is in progress.
    pub open spec fn dma_active(self) -> bool {
        self.DMA_transfer_progress is Some
    }

    /// The address that the transfer reads next.
    pub open spec fn dma_source(self) -> u16 {
        word(self.DMA_transfer_progress.unwrap(), self.DMA)
    }

    /// The registers after a write of `value` to `FF46`: the source page is
    /// latched and a transfer starts at index 0.
    pub open spec fn with_dma_started(self, value: u8) -> GraphicsRegisters {
        GraphicsRegisters { DMA: value, DMA_transfer_progress: Some(0u8), ..self }
    }

    /// The emulator one machine cycle of the DMA engine later. With a
    /// transfer at index `i` below 160, the byte that the bus reads at
    /// `(DMA << 8) | i` goes to `OAM[i]` and the index moves on; after the
    /// last byte, and for an index that is out of range, the engine is idle.
    pub open spec fn update_spec(emu: GameboyEmulator) -> GameboyEmulator {
        let graphics = emu.io_registers.graphics;
        match graphics.DMA_transfer_progress {
            None => emu,
            Some(index) => {
                if index < DMA_LENGTH {
                    let value = Bus::read_spec(emu, word(index, graphics.DMA));
                    let next = if index == DMA_LENGTH - 1 {
                        None
                    } else {
                        Some((index + 1) as u8)
                    };
                    emu.with_oam_byte(index as int, value).with_graphics(
                        GraphicsRegisters { DMA_transfer_progress: next, ..graphics },
                    )
                } else {
                    emu.with_graphics(GraphicsRegisters { DMA_transfer_progress: None, ..graphics })
                }
            },
        }
    }

    /// The registers at power-on.
    pub open spec fn new_spec() -> GraphicsRegisters {
        GraphicsRegisters {
            LCDC: 0,
            STAT: 0,
            SCY: 0,
            SCX: 0,
            LY: 0,
            LYC: 0,
            DMA: 0,
            BGP: 0,
            OBP0: 0,
            OBP1: 0,
            WY: 0,
            WX: 0,
            DMA_transfer_progress: None,
        }
    }

    pub fn new() -> (graphics: Self)
        ensures
            graphics == Self::new_spec(),
    {
        Self {
            LCDC: 0x00,
            STAT: 0x00,
            SCY: 0x00,
            SCX: 0x00,
            LY: 0x00,
            LYC: 0x00,
            DMA: 0x00,
            BGP: 0x00,
            OBP0: 0x00,
            OBP1: 0x00,
            WY: 0x00,
            WX: 0x00,
            DMA_transfer_progress: None,
        }
    }

    /// Runs the DMA engine for one machine cycle.
    pub fn update(emu: &mut GameboyEmulator)
        ensures
            *final(emu) == Self::update_spec(*old(emu)),
    {
        if let Some(index) = emu.io_registers.graphics.DMA_transfer_progress {
            if index < DMA_LENGTH {
                let value = Bus::read(emu, join_u16(index, emu.io_registers.graphics.DMA));
                emu.bus.oam[index as usize] = value;
                emu.io_registers.graphics.DMA_transfer_progress = if index == DMA_LENGTH - 1 {
                    None
                } else {
                    Some(index + 1)
                };
            } else {
                emu.io_registers.graphics.DMA_transfer_progress = None;
            }
        }
    }

    pub fn write_DMA(emu: &mut GameboyEmulator, value: u8)
        ensures
            *final(emu) == old(emu).with_graphics(
                old(emu).io_registers.graphics.with_dma_started(value),
            ),
    {
        emu.io_registers.graphics.DMA = value;
        emu.io_registers.graphics.DMA_transfer_progress = Some(0);
    }
}

} // verus!
