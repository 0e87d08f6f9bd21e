use gameboy_emu::errors::{CartridgeError, CpuError, GameBoyError};
use gameboy_emu::game_boy::GameBoy;

const LOGO: [u8; 48] = [
    0xCE, 0xED, 0x66, 0x66, 0xCC, 0x0D, 0x00, 0x0B, 0x03, 0x73, 0x00, 0x83, 0x00, 0x0C, 0x00,
    0x0D, 0x00, 0x08, 0x11, 0x1F, 0x88, 0x89, 0x00, 0x0E, 0xDC, 0xCC, 0x6E, 0xE6, 0xDD, 0xDD,
    0xD9, 0x99, 0xBB, 0xBB, 0x67, 0x63, 0x6E, 0x0E, 0xEC, 0xCC, 0xDD, 0xDC, 0x99, 0x9F, 0xBB,
    0xB9, 0x33, 0x3E,
];

fn header_checksum_of(cart: &[u8]) -> u8 {
    let mut checksum: u8 = 0;
    for i in 0x134..=0x14c {
        checksum = checksum.wrapping_sub(cart[i]).wrapping_sub(1);
    }
    checksum
}

fn global_checksum_of(cart: &[u8]) -> u16 {
    let mut checksum: u16 = 0;
    for (address, byte) in cart.iter().enumerate() {
        if address != 0x14e && address != 0x14f {
            checksum = checksum.wrapping_add(*byte as u16);
        }
    }
    checksum
}

fn valid_cartridge() -> Vec<u8> {
    let mut cart = vec![0u8; 32 * 1024];
    cart[0x104..0x134].copy_from_slice(&LOGO);
    cart[0x14d] = header_checksum_of(&cart);
    let global = global_checksum_of(&cart);
    cart[0x14e] = (global >> 8) as u8;
    cart[0x14f] = global as u8;
    cart
}

#[test]
fn a_correct_cartridge_passes_both_checksums() {
    let mut gb = GameBoy::new();
    assert_eq!(gb.start(valid_cartridge()), Ok(()));
    assert_eq!(gb.memory.read(0x104).unwrap(), 0xCE, "the image is loaded into ROM");
    assert_eq!(gb.memory.read(0x105).unwrap(), 0xED);
}

#[test]
fn a_corrupted_header_byte_fails_header_validation() {
    let mut cart = valid_cartridge();
    let expected = cart[0x14d];
    cart[0x140] ^= 0xff;
    let actual = header_checksum_of(&cart);
    let mut gb = GameBoy::new();
    assert_eq!(
        gb.start(cart),
        Err(GameBoyError::Cartridge(CartridgeError::HeaderChecksumMismatch { expected, actual }))
    );
}

#[test]
fn a_corrupted_body_byte_fails_global_validation() {
    let mut cart = valid_cartridge();
    let expected = (cart[0x14e] as u16) << 8 | cart[0x14f] as u16;
    cart[0x2000] = cart[0x2000].wrapping_add(1);
    let actual = global_checksum_of(&cart);
    let mut gb = GameBoy::new();
    assert_eq!(
        gb.start(cart),
        Err(GameBoyError::Cartridge(CartridgeError::GlobalChecksumMismatch { expected, actual }))
    );
}

#[test]
fn a_wrong_logo_is_fatal() {
    let mut cart = valid_cartridge();
    cart[0x104] = 0;
    let mut gb = GameBoy::new();
    assert_eq!(gb.start(cart), Err(GameBoyError::Cartridge(CartridgeError::LogoMismatch)));
}

#[test]
fn a_wrong_length_is_fatal() {
    let mut gb = GameBoy::new();
    assert_eq!(
        gb.start(vec![0u8; 123]),
        Err(GameBoyError::Cartridge(CartridgeError::WrongLength { actual: 123 }))
    );
}

#[test]
fn checksum_of_a_zeroed_header_range() {
    let cart = vec![0u8; 32 * 1024];
    assert_eq!(GameBoy::calculate_checksum(&cart), 0xe7, "25 wrapped decrements from zero");
}

#[test]
fn global_checksum_adds_every_byte_but_its_own() {
    let mut cart = vec![0u8; 32 * 1024];
    cart[0] = 7;
    cart[0x14e] = 0xff;
    cart[0x14f] = 0xff;
    cart[0x7fff] = 3;
    assert_eq!(GameBoy::calculate_global_checksum(&cart), 10);
}

#[test]
fn the_driver_loop_runs_until_a_fatal_condition() {
    let mut cart = valid_cartridge();
    cart[0] = 0xc3;
    cart[1] = 0x50;
    cart[2] = 0x01;
    cart[0x150] = 0xfe;
    cart[0x151] = 0x00;
    cart[0x14d] = header_checksum_of(&cart);
    let global = global_checksum_of(&cart);
    cart[0x14e] = (global >> 8) as u8;
    cart[0x14f] = global as u8;

    let mut gb = GameBoy::new();
    gb.start(cart).unwrap();
    let error = loop {
        match gb.cpu.execute_next_instruction(&mut gb.memory) {
            Ok(cycles) => gb.ppu.step(&mut gb.memory, cycles),
            Err(e) => break e,
        }
    };
    assert_eq!(error, CpuError::IllegalOpcode { opcode: 0x00, pc: 0x152 });
    assert!(gb.cpu.reg.read_zero_flag(), "the compare before the stop saw A equal to zero");
}
