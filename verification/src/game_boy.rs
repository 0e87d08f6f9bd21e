use vstd::assert_seqs_equal;
use vstd::prelude::*;

use crate::cpu::CPU;
use crate::errors::{CartridgeError, GameBoyError};
use crate::memory::Memory;
use crate::ppu::PPU;

verus! {

/// The 48-byte reference logo every valid cartridge header carries at
/// offsets 0x104 to 0x133.
pub open spec fn spec_nintendo_logo() -> Seq<u8> {
    seq![
        0xceu8,
        0xed,
        0x66,
        0x66,
        0xcc,
        0x0d,
        0x00,
        0x0b,
        0x03,
        0x73,
        0x00,
        0x83,
        0x00,
        0x0c,
        0x00,
        0x0d,
        0x00,
        0x08,
        0x11,
        0x1f,
        0x88,
        0x89,
        0x00,
        0x0e,
        0xdc,
        0xcc,
        0x6e,
        0xe6,
        0xdd,
        0xdd,
        0xd9,
        0x99,
        0xbb,
        0xbb,
        0x67,
        0x63,
        0x6e,
        0x0e,
        0xec,
        0xcc,
        0xdd,
        0xdc,
        0x99,
        0x9f,
        0xbb,
        0xb9,
        0x33,
        0x3e,
    ]
}

/// The cartridge bytes at offsets 0x104 to 0x133 equal the reference logo.
pub open spec fn spec_logo_correct(content: Seq<u8>) -> bool {
    forall|i: int| 0 <= i < 48 ==> content[0x104 + i] == spec_nintendo_logo()[i]
}

/// The header checksum folded over the first `n` bytes of the header range
/// starting at 0x134: each byte and one more are subtracted with 8-bit
/// wraparound.
pub open spec fn spec_header_checksum(content: Seq<u8>, n: nat) -> u8
    decreases n,
{
    if n == 0 {
        0
    } else {
        let prev = spec_header_checksum(content, (n - 1) as nat);
        (((prev - content[0x134 + n - 1] - 1) % 256) as u8)
    }
}

/// The global checksum folded over the first `n` bytes of the image: every
/// byte except the two checksum bytes at 0x14e and 0x14f is added with
/// 16-bit wraparound.
pub open spec fn spec_global_checksum(content: Seq<u8>, n: nat) -> u16
    decreases n,
{
    if n == 0 {
        0
    } else {
        let prev = spec_global_checksum(content, (n - 1) as nat);
        if n - 1 == 0x14e || n - 1 == 0x14f {
            prev
        } else {
            (((prev + content[n - 1]) % 0x10000) as u16)
        }
    }
}

/// Spell out the cartridge header's RAM size code: 0 means no RAM, 1 is an
/// unused code, and the others name how many 8 KiB banks the cartridge
/// carries.
pub fn decode_ram_size(code: u8) -> (r: String)
    requires
        code <= 5,
    ensures
        code == 0 ==> r@ == "No RAM"@,
        code == 1 ==> r@ == "Unused"@,
        code == 2 ==> r@ == "1 bank"@,
        code == 3 ==> r@ == "4 banks of 8 KiB each"@,
        code == 4 ==> r@ == "16 banks of 8 KiB each"@,
        code == 5 ==> r@ == "8 banks of 8 KiB each"@,
{
    if code == 0 {
        String::from_str("No RAM")
    } else if code == 1 {
        String::from_str("Unused")
    } else if code == 2 {
        String::from_str("1 bank")
    } else if code == 3 {
        String::from_str("4 banks of 8 KiB each")
    } else if code == 4 {
        String::from_str("16 banks of 8 KiB each")
    } else {
        String::from_str("8 banks of 8 KiB each")
    }
}

/// The whole machine: the CPU, the memory bus it fetches from, and the
/// video timing unit paced by the CPU's cycle counts. The bus is the single
/// shared resource; the driver threads it into the CPU and the timing unit
/// strictly in turn.
pub struct GameBoy {
    pub cpu: CPU,
    pub memory: Memory,
    pub ppu: PPU,
}

impl GameBoy {
    pub open spec fn well_formed(self) -> bool {
        &&& self.memory.well_formed()
        &&& self.ppu.well_formed()
    }

    pub fn new() -> (r: GameBoy)
        ensures
            r.well_formed(),
            !r.cpu.ime,
            !r.cpu.set_ime_after_instruction,
            !r.cpu.halted,
            r.cpu.reg.pc == 0,
            r.ppu.frames == 0,
            forall|address: u16| r.memory.spec_read(address) == 0,
    {
        GameBoy { cpu: CPU::new(), memory: Memory::new(), ppu: PPU::new() }
    }

    /// Compare the cartridge's logo field against the reference constant.
    pub fn is_nintendo_logo_correct(&self, cartridge_rom: &[u8]) -> (r: bool)
        requires
            cartridge_rom@.len() >= 0x134,
        ensures
            r == spec_logo_correct(cartridge_rom@),
    {
        let nintendo_logo: Vec<u8> = vec![
            0xce, 0xed, 0x66, 0x66, 0xcc, 0x0d, 0x00, 0x0b, 0x03, 0x73, 0x00, 0x83, 0x00, 0x0c,
            0x00, 0x0d, 0x00, 0x08, 0x11, 0x1f, 0x88, 0x89, 0x00, 0x0e, 0xdc, 0xcc, 0x6e, 0xe6,
            0xdd, 0xdd, 0xd9, 0x99, 0xbb, 0xbb, 0x67, 0x63, 0x6e, 0x0e, 0xec, 0xcc, 0xdd, 0xdc,
            0x99, 0x9f, 0xbb, 0xb9, 0x33, 0x3e,
        ];
        proof {
            assert_seqs_equal!(nintendo_logo@ == spec_nintendo_logo());
        }
        let mut i: usize = 0;
        while i < 48
            invariant
                cartridge_rom@.len() >= 0x134,
                nintendo_logo@ == spec_nintendo_logo(),
                i <= 48,
                forall|j: int| 0 <= j < i ==> cartridge_rom@[0x104 + j] == spec_nintendo_logo()[j],
            decreases 48 - i,
        {
            if cartridge_rom[0x104 + i] != nintendo_logo[i] {
                return false;
            }
            i = i + 1;
        }
        true
    }

    /// Fold the header checksum over the header range 0x134 to 0x14c.
    pub fn calculate_checksum(content: &[u8]) -> (r: u8)
        requires
            content@.len() >= 0x14d,
        ensures
            r == spec_header_checksum(content@, 0x19),
    {
        let mut checksum: u8 = 0;
        let mut i: usize = 0;
        while i < 0x19
            invariant
                content@.len() >= 0x14d,
                i <= 0x19,
                checksum == spec_header_checksum(content@, i as nat),
            decreases 0x19 - i,
        {
            let byte = content[0x134 + i];
            let after_byte: u8 = if checksum >= byte {
                checksum - byte
            } else {
                ((checksum as u16 + 256) - byte as u16) as u8
            };
            let next: u8 = if after_byte >= 1 {
                after_byte - 1
            } else {
                255
            };
            checksum = next;
            i = i + 1;
        }
        checksum
    }

    /// Fold the global checksum over the whole image, skipping its own two
    /// bytes.
    pub fn calculate_global_checksum(content: &[u8]) -> (r: u16)
        requires
            content@.len() == 32768,
        ensures
            r == spec_global_checksum(content@, 32768),
    {
        let mut checksum: u16 = 0;
        let mut address: usize = 0;
        while address < 32768
            invariant
                content@.len() == 32768,
                address <= 32768,
                checksum == spec_global_checksum(content@, address as nat),
            decreases 32768 - address,
        {
            if address != 0x14e && address != 0x14f {
                let byte = content[address];
                let wide: u32 = checksum as u32 + byte as u32;
                checksum = (wide % 0x10000) as u16;
            }
            address = address + 1;
        }
        checksum
    }

    /// Validate the cartridge image and load it into the ROM banks, ready
    /// for the driver loop to execute instruction by instruction. An image
    /// of the wrong length, with a wrong logo, or with either checksum
    /// wrong is rejected before execution begins, with the machine
    /// untouched; the error says what was expected and what was found.
    pub fn start(&mut self, cartridge_rom: Vec<u8>) -> (r: Result<(), GameBoyError>)
        requires
            old(self).well_formed(),
        ensures
            final(self).well_formed(),
            cartridge_rom@.len() != 32768 ==> r == Err::<(), GameBoyError>(
                GameBoyError::Cartridge(
                    CartridgeError::WrongLength { actual: cartridge_rom@.len() as usize },
                ),
            ) && *final(self) == *old(self),
            cartridge_rom@.len() == 32768 && !spec_logo_correct(cartridge_rom@) ==> r == Err::<
                (),
                GameBoyError,
            >(GameBoyError::Cartridge(CartridgeError::LogoMismatch)) && *final(self) == *old(self),
            (cartridge_rom@.len() == 32768 && spec_logo_correct(cartridge_rom@)
                && spec_header_checksum(cartridge_rom@, 0x19) != cartridge_rom@[0x14d]) ==> r
                == Err::<(), GameBoyError>(
                GameBoyError::Cartridge(
                    CartridgeError::HeaderChecksumMismatch {
                        expected: cartridge_rom@[0x14d],
                        actual: spec_header_checksum(cartridge_rom@, 0x19),
                    },
                ),
            ) && *final(self) == *old(self),
            (cartridge_rom@.len() == 32768 && spec_logo_correct(cartridge_rom@)
                && spec_header_checksum(cartridge_rom@, 0x19) == cartridge_rom@[0x14d]
                && spec_global_checksum(cartridge_rom@, 32768) != crate::registers::spec_merge(
                cartridge_rom@[0x14e],
                cartridge_rom@[0x14f],
            )) ==> r == Err::<(), GameBoyError>(
                GameBoyError::Cartridge(
                    CartridgeError::GlobalChecksumMismatch {
                        expected: crate::registers::spec_merge(
                            cartridge_rom@[0x14e],
                            cartridge_rom@[0x14f],
                        ),
                        actual: spec_global_checksum(cartridge_rom@, 32768),
                    },
                ),
            ) && *final(self) == *old(self),
            (cartridge_rom@.len() == 32768 && spec_logo_correct(cartridge_rom@)
                && spec_header_checksum(cartridge_rom@, 0x19) == cartridge_rom@[0x14d]
                && spec_global_checksum(cartridge_rom@, 32768) == crate::registers::spec_merge(
                cartridge_rom@[0x14e],
                cartridge_rom@[0x14f],
            )) ==> {
                &&& r == Ok::<(), GameBoyError>(())
                &&& final(self).cpu == old(self).cpu
                &&& final(self).ppu == old(self).ppu
                &&& forall|address: u16|
                    address < 0x8000 ==> final(self).memory.spec_read(address)
                        == cartridge_rom@[address as int]
                &&& forall|address: u16|
                    address >= 0x8000 ==> final(self).memory.spec_read(address) == old(
                        self,
                    ).memory.spec_read(address)
            },
    {
        if cartridge_rom.len() != 32768 {
            return Err(
                GameBoyError::Cartridge(CartridgeError::WrongLength { actual: cartridge_rom.len() }),
            );
        }
        if !self.is_nintendo_logo_correct(cartridge_rom.as_slice()) {
            return Err(GameBoyError::Cartridge(CartridgeError::LogoMismatch));
        }
        let header_checksum = cartridge_rom[0x14d];
        let computed_checksum = Self::calculate_checksum(cartridge_rom.as_slice());
        if computed_checksum != header_checksum {
            return Err(
                GameBoyError::Cartridge(
                    CartridgeError::HeaderChecksumMismatch {
                        expected: header_checksum,
                        actual: computed_checksum,
                    },
                ),
            );
        }
        let global_checksum: u16 = cartridge_rom[0x14e] as u16 * 256 + cartridge_rom[0x14f] as u16;
        let computed_global = Self::calculate_global_checksum(cartridge_rom.as_slice());
        if computed_global != global_checksum {
            return Err(
                GameBoyError::Cartridge(
                    CartridgeError::GlobalChecksumMismatch {
                        expected: global_checksum,
                        actual: computed_global,
                    },
                ),
            );
        }
        match self.memory.load_cartridge(cartridge_rom) {
            Ok(()) => Ok(()),
            Err(e) => Err(GameBoyError::Cartridge(e)),
        }
    }
}

} // verus!
