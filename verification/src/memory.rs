use vstd::prelude::*;

use crate::errors::{CartridgeError, MemoryError};
use crate::vram_tile_data::VramTileData;

verus! {

/// An address whose region accepts reads: everything except the prohibited
/// echo range and the prohibited unusable range.
pub open spec fn readable(address: u16) -> bool {
    !(0xe000 <= address <= 0xfdff) && !(0xfea0 <= address <= 0xfeff)
}

/// An address whose region accepts writes: a readable address outside the
/// two read-only ROM banks.
pub open spec fn writable(address: u16) -> bool {
    0x8000 <= address && readable(address)
}

/// Every address maps to exactly one region: the ROM banks reject writes
/// and accept reads, the echo and unusable ranges reject both, and every
/// remaining region accepts both.
pub proof fn lemma_region_dispatch(address: u16)
    ensures
        address < 0x8000 ==> readable(address) && !writable(address),
        0xe000 <= address <= 0xfdff ==> !readable(address) && !writable(address),
        0xfea0 <= address <= 0xfeff ==> !readable(address) && !writable(address),
        (0x8000 <= address < 0xe000) || (0xfe00 <= address < 0xfea0) || address >= 0xff00
            ==> readable(address) && writable(address),
{
}

/// The memory bus: the single authority over all addressable storage. A flat
/// 16-bit address space partitioned into fixed, non-overlapping regions,
/// dispatching every read and write by address range.
pub struct Memory {
    /// ROM bank 0, 0x0000 to 0x3fff, read-only.
    pub rom_bank_00: [u8; 16384],
    /// ROM bank 1, 0x4000 to 0x7fff, read-only.
    pub rom_bank_01: [u8; 16384],
    /// Tile-data block for 0x8000 to 0x87ff.
    pub vram_tile_data_block0: VramTileData,
    /// Tile-data block for 0x8800 to 0x8fff.
    pub vram_tile_data_block1: VramTileData,
    /// Tile-data block for 0x9000 to 0x97ff.
    pub vram_tile_data_block2: VramTileData,
    /// The rest of video RAM, 0x9800 to 0x9fff.
    pub tile_map: [u8; 2048],
    /// External RAM, 0xa000 to 0xbfff.
    pub external_ram: [u8; 8192],
    /// Work RAM bank 0, 0xc000 to 0xcfff.
    pub work_ram_00: [u8; 4096],
    /// Work RAM bank 1, 0xd000 to 0xdfff.
    pub work_ram_01: [u8; 4096],
    /// Object attribute memory, 0xfe00 to 0xfe9f.
    pub object_attribute_memory: [u8; 160],
    /// I/O registers, 0xff00 to 0xff7f.
    pub input_output_registers: [u8; 128],
    /// High RAM, 0xff80 to 0xfffe.
    pub high_ram: [u8; 127],
    /// The interrupt-enable register byte at 0xffff.
    pub interrupt_enable_register: u8,
}

impl Memory {
    pub open spec fn well_formed(self) -> bool {
        &&& self.vram_tile_data_block0.well_formed()
        &&& self.vram_tile_data_block1.well_formed()
        &&& self.vram_tile_data_block2.well_formed()
    }

    /// The byte stored at a readable address, dispatched by region.
    pub open spec fn spec_read(self, address: u16) -> u8
        recommends
            self.well_formed(),
            readable(address),
    {
        if address < 0x4000 {
            self.rom_bank_00@[address as int]
        } else if address < 0x8000 {
            self.rom_bank_01@[address - 0x4000]
        } else if address < 0x8800 {
            self.vram_tile_data_block0.spec_byte(address - 0x8000)
        } else if address < 0x9000 {
            self.vram_tile_data_block1.spec_byte(address - 0x8800)
        } else if address < 0x9800 {
            self.vram_tile_data_block2.spec_byte(address - 0x9000)
        } else if address < 0xa000 {
            self.tile_map@[address - 0x9800]
        } else if address < 0xc000 {
            self.external_ram@[address - 0xa000]
        } else if address < 0xd000 {
            self.work_ram_00@[address - 0xc000]
        } else if address < 0xe000 {
            self.work_ram_01@[address - 0xd000]
        } else if address < 0xfe00 {
            0
        } else if address < 0xfea0 {
            self.object_attribute_memory@[address - 0xfe00]
        } else if address < 0xff00 {
            0
        } else if address < 0xff80 {
            self.input_output_registers@[address - 0xff00]
        } else if address < 0xffff {
            self.high_ram@[address - 0xff80]
        } else {
            self.interrupt_enable_register
        }
    }

    pub fn new() -> (r: Memory)
        ensures
            r.well_formed(),
            forall|address: u16| r.spec_read(address) == 0,
    {
        Memory {
            rom_bank_00: [0u8; 16384],
            rom_bank_01: [0u8; 16384],
            vram_tile_data_block0: VramTileData::new(),
            vram_tile_data_block1: VramTileData::new(),
            vram_tile_data_block2: VramTileData::new(),
            tile_map: [0u8; 2048],
            external_ram: [0u8; 8192],
            work_ram_00: [0u8; 4096],
            work_ram_01: [0u8; 4096],
            object_attribute_memory: [0u8; 160],
            input_output_registers: [0u8; 128],
            high_ram: [0u8; 127],
            interrupt_enable_register: 0,
        }
    }

    /// Split a 32 KiB cartridge image verbatim into the two ROM banks; an
    /// image of any other length is rejected untouched.
    pub fn load_cartridge(&mut self, cartridge_rom: Vec<u8>) -> (r: Result<(), CartridgeError>)
        requires
            old(self).well_formed(),
        ensures
            final(self).well_formed(),
            cartridge_rom@.len() == 32768 ==> {
                &&& r == Ok::<(), CartridgeError>(())
                &&& forall|address: u16|
                    address < 0x8000 ==> final(self).spec_read(address)
                        == cartridge_rom@[address as int]
                &&& forall|address: u16|
                    address >= 0x8000 ==> final(self).spec_read(address) == old(self).spec_read(
                        address,
                    )
            },
            cartridge_rom@.len() != 32768 ==> {
                &&& r == Err::<(), CartridgeError>(
                    CartridgeError::WrongLength { actual: cartridge_rom@.len() as usize },
                )
                &&& *final(self) == *old(self)
            },
    {
        if cartridge_rom.len() != 32768 {
            return Err(CartridgeError::WrongLength { actual: cartridge_rom.len() });
        }
        let mut i: usize = 0;
        while i < 16384
            invariant
                i <= 16384,
                cartridge_rom@.len() == 32768,
                forall|j: int| 0 <= j < i ==> self.rom_bank_00@[j] == cartridge_rom@[j],
                self.rom_bank_01 == old(self).rom_bank_01,
                self.vram_tile_data_block0 == old(self).vram_tile_data_block0,
                self.vram_tile_data_block1 == old(self).vram_tile_data_block1,
                self.vram_tile_data_block2 == old(self).vram_tile_data_block2,
                self.tile_map == old(self).tile_map,
                self.external_ram == old(self).external_ram,
                self.work_ram_00 == old(self).work_ram_00,
                self.work_ram_01 == old(self).work_ram_01,
                self.object_attribute_memory == old(self).object_attribute_memory,
                self.input_output_registers == old(self).input_output_registers,
                self.high_ram == old(self).high_ram,
                self.interrupt_enable_register == old(self).interrupt_enable_register,
            decreases 16384 - i,
        {
            self.rom_bank_00[i] = cartridge_rom[i];
            i = i + 1;
        }
        let mut i: usize = 0;
        while i < 16384
            invariant
                i <= 16384,
                cartridge_rom@.len() == 32768,
                forall|j: int| 0 <= j < 16384 ==> self.rom_bank_00@[j] == cartridge_rom@[j],
                forall|j: int| 0 <= j < i ==> self.rom_bank_01@[j] == cartridge_rom@[16384 + j],
                self.vram_tile_data_block0 == old(self).vram_tile_data_block0,
                self.vram_tile_data_block1 == old(self).vram_tile_data_block1,
                self.vram_tile_data_block2 == old(self).vram_tile_data_block2,
                self.tile_map == old(self).tile_map,
                self.external_ram == old(self).external_ram,
                self.work_ram_00 == old(self).work_ram_00,
                self.work_ram_01 == old(self).work_ram_01,
                self.object_attribute_memory == old(self).object_attribute_memory,
                self.input_output_registers == old(self).input_output_registers,
                self.high_ram == old(self).high_ram,
                self.interrupt_enable_register == old(self).interrupt_enable_register,
            decreases 16384 - i,
        {
            self.rom_bank_01[i] = cartridge_rom[16384 + i];
            i = i + 1;
        }
        Ok(())
    }

    /// Read within video RAM, routed by which 0x800-byte block the address
    /// falls in, forwarding a block-relative offset.
    pub fn read_video_ram(&self, address: u16) -> (r: u8)
        requires
            self.well_formed(),
            0x8000 <= address < 0xa000,
        ensures
            r == self.spec_read(address),
    {
        if address < 0x8800 {
            self.vram_tile_data_block0.read(address - 0x8000)
        } else if address < 0x9000 {
            self.vram_tile_data_block1.read(address - 0x8800)
        } else if address < 0x9800 {
            self.vram_tile_data_block2.read(address - 0x9000)
        } else {
            self.tile_map[(address - 0x9800) as usize]
        }
    }

    /// Write within video RAM, routed by block as reads are.
    fn write_video_ram(&mut self, address: u16, value: u8)
        requires
            old(self).well_formed(),
            0x8000 <= address < 0xa000,
        ensures
            final(self).well_formed(),
            final(self).spec_read(address) == value,
            forall|a: u16| a != address ==> final(self).spec_read(a) == old(self).spec_read(a),
    {
        if address < 0x8800 {
            self.vram_tile_data_block0.write(address - 0x8000, value);
        } else if address < 0x9000 {
            self.vram_tile_data_block1.write(address - 0x8800, value);
        } else if address < 0x9800 {
            self.vram_tile_data_block2.write(address - 0x9000, value);
        } else {
            self.tile_map[(address - 0x9800) as usize] = value;
        }
    }

    /// Dispatch a read purely by address range. Reading a prohibited region
    /// is an illegal-access condition, not a silent no-op.
    pub fn read(&self, address: u16) -> (r: Result<u8, MemoryError>)
        requires
            self.well_formed(),
        ensures
            readable(address) ==> r == Ok::<u8, MemoryError>(self.spec_read(address)),
            !readable(address) ==> r == Err::<u8, MemoryError>(
                MemoryError::IllegalAccess { address },
            ),
    {
        if address < 0x4000 {
            Ok(self.rom_bank_00[address as usize])
        } else if address < 0x8000 {
            Ok(self.rom_bank_01[(address - 0x4000) as usize])
        } else if address < 0xa000 {
            Ok(self.read_video_ram(address))
        } else if address < 0xc000 {
            Ok(self.external_ram[(address - 0xa000) as usize])
        } else if address < 0xd000 {
            Ok(self.work_ram_00[(address - 0xc000) as usize])
        } else if address < 0xe000 {
            Ok(self.work_ram_01[(address - 0xd000) as usize])
        } else if address < 0xfe00 {
            Err(MemoryError::IllegalAccess { address })
        } else if address < 0xfea0 {
            Ok(self.object_attribute_memory[(address - 0xfe00) as usize])
        } else if address < 0xff00 {
            Err(MemoryError::IllegalAccess { address })
        } else if address < 0xff80 {
            Ok(self.input_output_registers[(address - 0xff00) as usize])
        } else if address < 0xffff {
            Ok(self.high_ram[(address - 0xff80) as usize])
        } else {
            Ok(self.interrupt_enable_register)
        }
    }

    /// Dispatch a write purely by address range. Writing a read-only ROM
    /// region or a prohibited region is an illegal-access condition and
    /// leaves the bus untouched.
    pub fn write(&mut self, address: u16, value: u8) -> (r: Result<(), MemoryError>)
        requires
            old(self).well_formed(),
        ensures
            final(self).well_formed(),
            writable(address) ==> {
                &&& r == Ok::<(), MemoryError>(())
                &&& final(self).spec_read(address) == value
                &&& forall|a: u16|
                    a != address ==> final(self).spec_read(a) == old(self).spec_read(a)
            },
            !writable(address) ==> {
                &&& r == Err::<(), MemoryError>(MemoryError::IllegalAccess { address })
                &&& *final(self) == *old(self)
            },
    {
        if address < 0x8000 {
            Err(MemoryError::IllegalAccess { address })
        } else if address < 0xa000 {
            self.write_video_ram(address, value);
            Ok(())
        } else if address < 0xc000 {
            self.external_ram[(address - 0xa000) as usize] = value;
            Ok(())
        } else if address < 0xd000 {
            self.work_ram_00[(address - 0xc000) as usize] = value;
            Ok(())
        } else if address < 0xe000 {
            self.work_ram_01[(address - 0xd000) as usize] = value;
            Ok(())
        } else if address < 0xfe00 {
            Err(MemoryError::IllegalAccess { address })
        } else if address < 0xfea0 {
            self.object_attribute_memory[(address - 0xfe00) as usize] = value;
            Ok(())
        } else if address < 0xff00 {
            Err(MemoryError::IllegalAccess { address })
        } else if address < 0xff80 {
            self.input_output_registers[(address - 0xff00) as usize] = value;
            Ok(())
        } else if address < 0xffff {
            self.high_ram[(address - 0xff80) as usize] = value;
            Ok(())
        } else {
            self.interrupt_enable_register = value;
            Ok(())
        }
    }

    /// Publish the video timing unit's current scanline into the I/O
    /// register region of the bus.
    pub fn set_ly(&mut self, value: u8)
        requires
            old(self).well_formed(),
        ensures
            final(self).well_formed(),
            final(self).spec_read(0xff44) == value,
            forall|a: u16| a != 0xff44 ==> final(self).spec_read(a) == old(self).spec_read(a),
    {
        self.input_output_registers[0x44] = value;
    }
}

} // verus!
