//! Core of an 8-bit handheld game console emulator: the CPU register file
//! and its packed flag byte, the memory bus with its address-range dispatch,
//! the tile bit-plane codec, the instruction fetch/decode/dispatch engine,
//! the interrupt-enable state machine, and the video timing unit that paces
//! CPU execution against the display refresh.

pub mod cpu;
pub mod errors;
pub mod game_boy;
pub mod lcdc;
pub mod memory;
pub mod object_attribute_memory;
pub mod ppu;
pub mod registers;
pub mod tile;
pub mod vram_tile_data;

pub use cpu::CPU;
pub use game_boy::GameBoy;
pub use memory::Memory;
pub use ppu::PPU;
pub use registers::Registers;
pub use tile::Tile;
