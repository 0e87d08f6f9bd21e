use gameboy_emu::tile::Tile;
use gameboy_emu::vram_tile_data::VramTileData;

#[test]
fn test_tile() {
    let data = vec![
        0x3C, 0x7E,
        0x42, 0x42,
        0x42, 0x42,
        0x42, 0x42,
        0x7E, 0x5E,
        0x7E, 0x0A,
        0x7C, 0x56,
        0x38, 0x7C,
    ];

    let tile = Tile::from_vec(data);

    let expected = [
        [0b00, 0b10, 0b11, 0b11, 0b11, 0b11, 0b10, 0b00],
        [0b00, 0b11, 0b00, 0b00, 0b00, 0b00, 0b11, 0b00],
        [0b00, 0b11, 0b00, 0b00, 0b00, 0b00, 0b11, 0b00],
        [0b00, 0b11, 0b00, 0b00, 0b00, 0b00, 0b11, 0b00],
        [0b00, 0b11, 0b01, 0b11, 0b11, 0b11, 0b11, 0b00],
        [0b00, 0b01, 0b01, 0b01, 0b11, 0b01, 0b11, 0b00],
        [0b00, 0b11, 0b01, 0b11, 0b01, 0b11, 0b10, 0b00],
        [0b00, 0b10, 0b11, 0b11, 0b11, 0b10, 0b00, 0b00],
    ];

    assert_eq!(tile.to_array(), expected);
}

#[test]
fn first_documented_row_decodes_exactly() {
    let mut bytes = vec![0u8; 16];
    bytes[0] = 0x3c;
    bytes[1] = 0x7e;
    let tile = Tile::from_vec(bytes);
    let grid = tile.to_array();
    assert_eq!(grid[0], [0, 2, 3, 3, 3, 3, 2, 0]);
}

#[test]
fn byte0_gives_the_low_pixel_bit_and_byte1_the_high() {
    let mut bytes = vec![0u8; 16];
    bytes[0] = 0b1000_0000;
    bytes[1] = 0b0100_0000;
    let tile = Tile::from_vec(bytes);
    let grid = tile.to_array();
    assert_eq!(grid[0][0], 0b01, "only byte0 set gives pixel value 1");
    assert_eq!(grid[0][1], 0b10, "only byte1 set gives pixel value 2");
    assert_eq!(grid[0][2], 0b00, "neither set gives pixel value 0");
}

#[test]
fn fresh_tile_decodes_to_zeroes() {
    let tile = Tile::new();
    assert_eq!(tile.to_array(), [[0u8; 8]; 8]);
}

#[test]
fn tile_block_addresses_tiles_by_sixteen_byte_slots() {
    let mut block = VramTileData::new();
    block.write(0x0000, 0xaa);
    block.write(0x0010, 0xbb);
    block.write(0x001f, 0xcc);
    assert_eq!(block.read(0x0000), 0xaa);
    assert_eq!(block.read(0x0010), 0xbb);
    assert_eq!(block.read(0x001f), 0xcc);
    assert_eq!(block.tiles[1].data[0], 0xbb);
    assert_eq!(block.tiles[1].data[15], 0xcc);
}
