use gameboy_emu::memory::Memory;
use gameboy_emu::ppu::PPU;

#[test]
fn crossing_the_scanline_budget_exactly_advances_one_line() {
    let mut ppu = PPU::new();
    let mut memory = Memory::new();
    ppu.step(&mut memory, 114);
    assert_eq!(ppu.current_scanline, 1, "456 dots are exactly one scanline");
    assert_eq!(ppu.acc, 0);
    assert_eq!(memory.read(0xff44).unwrap(), 1, "the scanline is published to the bus");
}

#[test]
fn dots_accumulate_across_calls_before_a_line_completes() {
    let mut ppu = PPU::new();
    let mut memory = Memory::new();
    ppu.step(&mut memory, 100);
    assert_eq!(ppu.current_scanline, 0);
    assert_eq!(ppu.acc, 400);
    assert_eq!(memory.read(0xff44).unwrap(), 0, "nothing published while no line completed");
    ppu.step(&mut memory, 14);
    assert_eq!(ppu.current_scanline, 1);
    assert_eq!(ppu.acc, 0);
}

#[test]
fn one_step_can_complete_several_lines() {
    let mut ppu = PPU::new();
    let mut memory = Memory::new();
    ppu.step(&mut memory, 114 * 3);
    assert_eq!(ppu.current_scanline, 3);
    assert_eq!(ppu.acc, 0);
    assert_eq!(memory.read(0xff44).unwrap(), 3);
}

#[test]
fn a_full_frame_of_advances_signals_exactly_one_end_of_frame() {
    let mut ppu = PPU::new();
    let mut memory = Memory::new();
    for _ in 0..154 {
        ppu.step(&mut memory, 114);
    }
    assert_eq!(ppu.frames, 1, "exactly one end-of-frame signal");
    assert_eq!(ppu.current_scanline, 0, "the counter wrapped back to the top");
    assert_eq!(memory.read(0xff44).unwrap(), 0);

    for _ in 0..154 {
        ppu.step(&mut memory, 114);
    }
    assert_eq!(ppu.frames, 2);
}

#[test]
fn vertical_blank_lines_still_advance_the_counter() {
    let mut ppu = PPU::new();
    let mut memory = Memory::new();
    for _ in 0..145 {
        ppu.step(&mut memory, 114);
    }
    assert_eq!(ppu.current_scanline, 145, "the blank band is counted through");
    assert_eq!(ppu.frames, 0);
}

#[test]
fn draw_frame_counts_signals() {
    let mut ppu = PPU::new();
    ppu.draw_frame();
    ppu.draw_frame();
    assert_eq!(ppu.frames, 2);
}
