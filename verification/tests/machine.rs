use gameboy_emu::game_boy::{decode_ram_size, GameBoy};
use gameboy_emu::lcdc::Lcdc;
use gameboy_emu::object_attribute_memory::ObjectAttributeMemory;

#[test]
fn a_fresh_machine_is_blank() {
    let gb = GameBoy::new();
    assert_eq!(gb.cpu.reg.read_pc(), 0);
    assert!(!gb.cpu.ime);
    assert_eq!(gb.ppu.frames, 0);
    assert_eq!(gb.memory.read(0xc000).unwrap(), 0);
}

#[test]
fn ram_size_codes_spell_out_the_bank_count() {
    assert_eq!(decode_ram_size(0), "No RAM");
    assert_eq!(decode_ram_size(1), "Unused");
    assert_eq!(decode_ram_size(2), "1 bank");
    assert_eq!(decode_ram_size(3), "4 banks of 8 KiB each");
    assert_eq!(decode_ram_size(4), "16 banks of 8 KiB each");
    assert_eq!(decode_ram_size(5), "8 banks of 8 KiB each");
}

#[test]
fn lcd_control_flags_unpack_by_bit_position() {
    let mut lcdc = Lcdc::default();
    assert!(!lcdc.lcd_ppu_enabled);
    lcdc.set_flags(0b1010_0101);
    assert!(lcdc.lcd_ppu_enabled);
    assert!(!lcdc.window_tile_map_area);
    assert!(lcdc.window_enable);
    assert!(!lcdc.bg_window_tile_data_area);
    assert!(!lcdc.bg_tile_map_area);
    assert!(lcdc.obj_size);
    assert!(!lcdc.obj_enable);
    assert!(lcdc.bg_window_enable_priority);
}

#[test]
fn object_attribute_memory_holds_forty_blank_slots() {
    let oam = ObjectAttributeMemory::new();
    assert_eq!(oam.objects.len(), 40);
    assert_eq!(oam.objects[0].y_position, 0);
    assert_eq!(oam.objects[39].tile_index, 0);
}
