use vstd::prelude::*;

verus! {

/// The LCD-control register, unpacked into its eight named switches.
pub struct Lcdc {
    pub lcd_ppu_enabled: bool,
    pub window_tile_map_area: bool,
    pub window_enable: bool,
    pub bg_window_tile_data_area: bool,
    pub bg_tile_map_area: bool,
    pub obj_size: bool,
    pub obj_enable: bool,
    pub bg_window_enable_priority: bool,
}

impl Lcdc {
    pub fn default() -> (r: Lcdc)
        ensures
            r == (Lcdc {
                lcd_ppu_enabled: false,
                window_tile_map_area: false,
                window_enable: false,
                bg_window_tile_data_area: false,
                bg_tile_map_area: false,
                obj_size: false,
                obj_enable: false,
                bg_window_enable_priority: false,
            }),
    {
        Lcdc {
            lcd_ppu_enabled: false,
            window_tile_map_area: false,
            window_enable: false,
            bg_window_tile_data_area: false,
            bg_tile_map_area: false,
            obj_size: false,
            obj_enable: false,
            bg_window_enable_priority: false,
        }
    }

    /// Unpack a flag byte: each switch takes the bit of its position, bit 7
    /// down to bit 0.
    pub fn set_flags(&mut self, flags: u8)
        ensures
            final(self).lcd_ppu_enabled == (flags & 0x80 != 0),
            final(self).window_tile_map_area == (flags & 0x40 != 0),
            final(self).window_enable == (flags & 0x20 != 0),
            final(self).bg_window_tile_data_area == (flags & 0x10 != 0),
            final(self).bg_tile_map_area == (flags & 0x08 != 0),
            final(self).obj_size == (flags & 0x04 != 0),
            final(self).obj_enable == (flags & 0x02 != 0),
            final(self).bg_window_enable_priority == (flags & 0x01 != 0),
    {
        self.lcd_ppu_enabled = flags & 0x80 != 0;
        self.window_tile_map_area = flags & 0x40 != 0;
        self.window_enable = flags & 0x20 != 0;
        self.bg_window_tile_data_area = flags & 0x10 != 0;
        self.bg_tile_map_area = flags & 0x08 != 0;
        self.obj_size = flags & 0x04 != 0;
        self.obj_enable = flags & 0x02 != 0;
        self.bg_window_enable_priority = flags & 0x01 != 0;
    }
}

} // verus!
