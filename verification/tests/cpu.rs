use gameboy_emu::cpu::CPU;
use gameboy_emu::memory::Memory;

#[test]
fn add_negative_to_sp() {
    let mut cpu = CPU::new();

    cpu.add_sp(-5);
    assert_eq!(-5, cpu.reg.read_sp() as i16);
}

#[test]
fn add_to_sp_overflow() {
    let mut cpu = CPU::new();
    cpu.reg.write_sp(u16::MAX);
    cpu.add_sp(1);
    assert_eq!(0, cpu.reg.read_sp());
    assert_eq!(true, cpu.reg.read_carry_flag(), "carry flag is set");
    assert_eq!(true, cpu.reg.read_half_carry_flag(), "half carry flag is set");
}

#[test]
fn add_to_sp_set_carry_flag() {
    let mut cpu = CPU::new();
    cpu.reg.write_sp(0xFF);
    cpu.add_sp(1);
    assert_eq!(0xFF + 1, cpu.reg.read_sp());
    assert_eq!(true, cpu.reg.read_carry_flag(), "carry flag is set");
    assert_eq!(true, cpu.reg.read_half_carry_flag(), "half carry flag is set");
}

#[test]
fn cpu_add_from_ram_to_a() {
    let mut cpu = CPU::new();
    let mut memory = Memory::new();
    cpu.reg.write_hl(0xc000);

    memory.write(0xc000, 17).unwrap();
    cpu.adc_a_r8(&memory, 6).unwrap();
    assert_eq!(cpu.reg.read_a(), 17);

    memory.write(0xc000, 12).unwrap();
    cpu.adc_a_r8(&memory, 6).unwrap();

    assert_eq!(cpu.reg.read_a(), 29);
}

#[test]
fn lib_add_from_ram_to_a() {
    let mut cpu = CPU::new();
    let mut memory = Memory::new();
    cpu.reg.write_hl(0xc000);

    memory.write(0xc000, 17).unwrap();
    cpu.adc_a_r8(&memory, 6).unwrap();
    assert_eq!(cpu.reg.read_a(), 17);

    memory.write(0xc000, 12).unwrap();
    cpu.adc_a_r8(&memory, 6).unwrap();

    assert_eq!(cpu.reg.read_a(), 29);
}

#[test]
fn and_a() {
    let mut cpu = CPU::new();
    let a = 0b1011_1101;
    let v = 0b1011_1110;
    cpu.reg.write_a(a);
    cpu.and_a(v);

    assert_eq!(0b1011_1100, cpu.reg.read_a());
}

#[test]
fn test_bit() {
    let mut cpu = CPU::new();
    let memory = Memory::new();
    cpu.reg.write_a(0b_0000_0001);

    cpu.bit_u3_r8(&memory, 0, 7).unwrap();
    assert!(!cpu.reg.read_zero_flag(), "zero flag is not set");

    cpu.bit_u3_r8(&memory, 1, 7).unwrap();
    assert!(cpu.reg.read_zero_flag(), "zero flag is set");
}

#[test]
fn adc_wraps_and_sets_every_flag() {
    let mut cpu = CPU::new();
    cpu.reg.write_a(0xff);
    cpu.adc_a(0x01);
    assert_eq!(cpu.reg.read_a(), 0x00);
    assert!(cpu.reg.read_zero_flag());
    assert!(cpu.reg.read_carry_flag());
    assert!(cpu.reg.read_half_carry_flag());
    assert!(!cpu.reg.read_subtraction_flag());
}

#[test]
fn adc_uses_incoming_carry() {
    let mut cpu = CPU::new();
    cpu.reg.write_a(10);
    cpu.reg.set_carry_flag(true);
    cpu.adc_a(5);
    assert_eq!(cpu.reg.read_a(), 16);
    assert!(!cpu.reg.read_carry_flag());
}

#[test]
fn add_a_ignores_carry() {
    let mut cpu = CPU::new();
    cpu.reg.write_a(10);
    cpu.reg.set_carry_flag(true);
    cpu.add_a(5);
    assert_eq!(cpu.reg.read_a(), 15);
}

#[test]
fn compare_sets_borrow_flags() {
    let mut cpu = CPU::new();
    cpu.reg.write_a(0b00101101);
    cpu.cp_a(0b00111111);
    assert!(cpu.reg.read_carry_flag());
    assert!(cpu.reg.read_half_carry_flag());
    assert!(cpu.reg.read_subtraction_flag());
    assert!(!cpu.reg.read_zero_flag());
    assert_eq!(cpu.reg.read_a(), 0b00101101, "compare does not modify A");

    cpu.cp_a(0b00001111);
    assert!(!cpu.reg.read_carry_flag());
    assert!(cpu.reg.read_half_carry_flag());
}

#[test]
fn compare_equal_sets_zero() {
    let mut cpu = CPU::new();
    cpu.reg.write_a(0x42);
    cpu.cp_a(0x42);
    assert!(cpu.reg.read_zero_flag());
    assert!(!cpu.reg.read_carry_flag());
}

#[test]
fn increment_never_touches_carry() {
    let mut memory = Memory::new();
    for start in [0x00u8, 0x0f, 0x7f, 0xff] {
        for carry in [false, true] {
            let mut cpu = CPU::new();
            cpu.reg.write_a(start);
            cpu.reg.set_carry_flag(carry);
            cpu.inc_r8(&mut memory, 7).unwrap();
            assert_eq!(cpu.reg.read_a(), start.wrapping_add(1));
            assert_eq!(cpu.reg.read_carry_flag(), carry, "carry is untouched by inc");
        }
    }
}

#[test]
fn decrement_never_touches_carry() {
    let mut memory = Memory::new();
    for start in [0x00u8, 0x01, 0x10, 0xff] {
        for carry in [false, true] {
            let mut cpu = CPU::new();
            cpu.reg.write_a(start);
            cpu.reg.set_carry_flag(carry);
            cpu.dec_r8(&mut memory, 7).unwrap();
            assert_eq!(cpu.reg.read_a(), start.wrapping_sub(1));
            assert_eq!(cpu.reg.read_carry_flag(), carry, "carry is untouched by dec");
        }
    }
}

#[test]
fn increment_sets_half_carry_on_low_nibble_overflow() {
    let mut memory = Memory::new();
    let mut cpu = CPU::new();
    cpu.reg.write_a(0x0f);
    cpu.inc_r8(&mut memory, 7).unwrap();
    assert_eq!(cpu.reg.read_a(), 0x10);
    assert!(cpu.reg.read_half_carry_flag());
    assert!(!cpu.reg.read_subtraction_flag());
}

#[test]
fn decrement_to_zero_sets_zero_flag() {
    let mut memory = Memory::new();
    let mut cpu = CPU::new();
    cpu.reg.write_a(0x01);
    cpu.dec_r8(&mut memory, 7).unwrap();
    assert_eq!(cpu.reg.read_a(), 0x00);
    assert!(cpu.reg.read_zero_flag());
    assert!(cpu.reg.read_subtraction_flag());
}

#[test]
fn sixteen_bit_increment_and_decrement_wrap() {
    let mut cpu = CPU::new();
    cpu.reg.write_bc(0xffff);
    cpu.inc_r16(0);
    assert_eq!(cpu.reg.read_bc(), 0);
    cpu.dec_r16(0);
    assert_eq!(cpu.reg.read_bc(), 0xffff);
}

#[test]
fn add_hl_sets_bit_11_and_15_carries() {
    let mut cpu = CPU::new();
    cpu.reg.write_hl(0x0fff);
    cpu.reg.set_zero_flag(true);
    cpu.add_hl(0x0001);
    assert_eq!(cpu.reg.read_hl(), 0x1000);
    assert!(cpu.reg.read_half_carry_flag());
    assert!(!cpu.reg.read_carry_flag());
    assert!(cpu.reg.read_zero_flag(), "add_hl leaves the zero flag alone");

    cpu.reg.write_hl(0xffff);
    cpu.add_hl(0x0001);
    assert_eq!(cpu.reg.read_hl(), 0x0000);
    assert!(cpu.reg.read_carry_flag());
}

#[test]
fn complement_a_inverts_bits() {
    let mut cpu = CPU::new();
    cpu.reg.write_a(0b10110100);
    cpu.cpl();
    assert_eq!(cpu.reg.read_a(), 0b01001011);
    assert!(cpu.reg.read_subtraction_flag());
    assert!(cpu.reg.read_half_carry_flag());
}

#[test]
fn complement_carry_toggles() {
    let mut cpu = CPU::new();
    cpu.ccf();
    assert!(cpu.reg.read_carry_flag());
    cpu.ccf();
    assert!(!cpu.reg.read_carry_flag());
}

#[test]
fn daa_adjusts_packed_decimal_addition() {
    let mut cpu = CPU::new();
    cpu.reg.write_a(0x15);
    cpu.add_a(0x27);
    assert_eq!(cpu.reg.read_a(), 0x3c);
    cpu.daa();
    assert_eq!(cpu.reg.read_a(), 0x42, "0x15 + 0x27 reads 42 in packed decimal");
    assert!(!cpu.reg.read_carry_flag());
    assert!(!cpu.reg.read_half_carry_flag());
}

#[test]
fn daa_sets_carry_past_99() {
    let mut cpu = CPU::new();
    cpu.reg.write_a(0x9a);
    cpu.daa();
    assert_eq!(cpu.reg.read_a(), 0x00);
    assert!(cpu.reg.read_carry_flag());
    assert!(cpu.reg.read_zero_flag());
}

#[test]
fn and_a_fixes_half_carry_and_carry() {
    let mut cpu = CPU::new();
    cpu.reg.write_a(0xf0);
    cpu.reg.set_carry_flag(true);
    cpu.and_a(0x0f);
    assert_eq!(cpu.reg.read_a(), 0);
    assert!(cpu.reg.read_zero_flag());
    assert!(cpu.reg.read_half_carry_flag());
    assert!(!cpu.reg.read_carry_flag());
}

#[test]
fn load_between_registers_and_memory() {
    let mut cpu = CPU::new();
    let mut memory = Memory::new();
    cpu.reg.write_b(0x7a);
    cpu.ld_r8_r8(&mut memory, 7, 0).unwrap();
    assert_eq!(cpu.reg.read_a(), 0x7a);

    cpu.reg.write_hl(0xc123);
    cpu.ld_r8_r8(&mut memory, 6, 0).unwrap();
    assert_eq!(memory.read(0xc123).unwrap(), 0x7a);

    cpu.reg.write_a(0);
    cpu.ld_r8_r8(&mut memory, 7, 6).unwrap();
    assert_eq!(cpu.reg.read_a(), 0x7a);
}

#[test]
fn store_and_load_a_at_immediate_address() {
    let mut cpu = CPU::new();
    let mut memory = Memory::new();
    cpu.reg.write_a(0x5c);
    cpu.ld_n16_a(&mut memory, 0xd010).unwrap();
    assert_eq!(memory.read(0xd010).unwrap(), 0x5c);

    cpu.reg.write_a(0);
    cpu.ld_a_n16(&memory, 0xd010).unwrap();
    assert_eq!(cpu.reg.read_a(), 0x5c);
}

#[test]
fn jumps_load_the_program_counter() {
    let mut cpu = CPU::new();
    cpu.jp_n16(0x1234);
    assert_eq!(cpu.reg.read_pc(), 0x1234);

    cpu.reg.write_hl(0x4567);
    cpu.jp_hl();
    assert_eq!(cpu.reg.read_pc(), 0x4567);

    cpu.reg.set_zero_flag(false);
    cpu.jp_cc_n16(0, 0x2000);
    assert_eq!(cpu.reg.read_pc(), 0x2000, "not-zero condition taken");
    cpu.jp_cc_n16(1, 0x3000);
    assert_eq!(cpu.reg.read_pc(), 0x2000, "zero condition not taken");
}

#[test]
fn call_pushes_return_address_and_jumps() {
    let mut cpu = CPU::new();
    let mut memory = Memory::new();
    cpu.reg.write_sp(0xd000);
    cpu.reg.write_pc(0x1234);
    cpu.call_n16(&mut memory, 0x2000).unwrap();
    assert_eq!(cpu.reg.read_pc(), 0x2000);
    assert_eq!(cpu.reg.read_sp(), 0xcffe);
    assert_eq!(memory.read(0xcfff).unwrap(), 0x12, "high byte of the return address");
    assert_eq!(memory.read(0xcffe).unwrap(), 0x34, "low byte of the return address");
}

#[test]
fn conditional_call_respects_condition() {
    let mut cpu = CPU::new();
    let mut memory = Memory::new();
    cpu.reg.write_sp(0xd000);
    cpu.reg.write_pc(0x1234);
    cpu.reg.set_carry_flag(false);
    cpu.call_cc_n16(&mut memory, 3, 0x2000).unwrap();
    assert_eq!(cpu.reg.read_pc(), 0x1234, "carry condition not taken");
    assert_eq!(cpu.reg.read_sp(), 0xd000);

    cpu.reg.set_carry_flag(true);
    cpu.call_cc_n16(&mut memory, 3, 0x2000).unwrap();
    assert_eq!(cpu.reg.read_pc(), 0x2000, "carry condition taken");
    assert_eq!(cpu.reg.read_sp(), 0xcffe);
}

#[test]
fn call_into_rom_stack_is_rejected() {
    let mut cpu = CPU::new();
    let mut memory = Memory::new();
    cpu.reg.write_sp(0x4001);
    cpu.reg.write_pc(0x1234);
    let result = cpu.call_n16(&mut memory, 0x2000);
    assert_eq!(result, Err(gameboy_emu::errors::CpuError::IllegalAccess { address: 0x4000 }));
    assert_eq!(cpu.reg.read_pc(), 0x1234);
    assert_eq!(cpu.reg.read_sp(), 0x4001);
}

#[test]
fn indirect_operand_in_prohibited_region_is_rejected() {
    let mut cpu = CPU::new();
    let memory = Memory::new();
    cpu.reg.write_hl(0xe000);
    let result = cpu.adc_a_r8(&memory, 6);
    assert_eq!(result, Err(gameboy_emu::errors::CpuError::IllegalAccess { address: 0xe000 }));
}

#[test]
fn load_immediate_into_register_pairs() {
    let mut cpu = CPU::new();
    cpu.ld_r16_n16(0, 0x1234);
    assert_eq!(cpu.reg.read_bc(), 0x1234);
    cpu.ld_r16_n16(3, 0xfffe);
    assert_eq!(cpu.reg.read_sp(), 0xfffe);
}

#[test]
fn load_widened_a_into_a_pair() {
    let mut cpu = CPU::new();
    cpu.reg.write_a(0x9c);
    cpu.ld_r16_a(1);
    assert_eq!(cpu.reg.read_de(), 0x009c);
}

#[test]
fn nop_changes_nothing() {
    let mut cpu = CPU::new();
    cpu.reg.write_a(0x12);
    cpu.reg.set_carry_flag(true);
    cpu.nop();
    assert_eq!(cpu.reg.read_a(), 0x12);
    assert!(cpu.reg.read_carry_flag());
}

#[test]
fn register_codes_reach_every_register() {
    let mut cpu = CPU::new();
    let mut memory = Memory::new();
    for (code, value) in [(0u8, 10u8), (1, 11), (2, 12), (3, 13), (4, 14), (5, 15), (7, 17)] {
        cpu.ld_r8_n8(&mut memory, code, value).unwrap();
    }
    assert_eq!(cpu.reg.read_b(), 10);
    assert_eq!(cpu.reg.read_c(), 11);
    assert_eq!(cpu.reg.read_d(), 12);
    assert_eq!(cpu.reg.read_e(), 13);
    assert_eq!(cpu.reg.read_h(), 14);
    assert_eq!(cpu.reg.read_l(), 15);
    assert_eq!(cpu.reg.read_a(), 17);
}
