use gameboy_emu::cpu::{is_match, CPU};
use gameboy_emu::errors::CpuError;
use gameboy_emu::memory::Memory;

fn machine_with_program(start: u16, program: &[u8]) -> (CPU, Memory) {
    let mut cpu = CPU::new();
    let mut memory = Memory::new();
    for (offset, byte) in program.iter().enumerate() {
        memory.write(start + offset as u16, *byte).unwrap();
    }
    cpu.reg.write_pc(start);
    (cpu, memory)
}

#[test]
fn template_matcher_follows_the_pattern_characters() {
    assert!(is_match("11000011", 0xc3));
    assert!(!is_match("11000011", 0xc2));
    assert!(is_match("00...110", 0x06));
    assert!(is_match("00...110", 0x3e));
    assert!(!is_match("00...110", 0x76));
    assert!(is_match("110..010", 0xc2));
    assert!(is_match("110..010", 0xda));
    assert!(!is_match("110..010", 0xea));
    assert!(is_match("........", 0x5a));
}

#[test]
fn jump_instruction_loads_little_endian_target() {
    let (mut cpu, mut memory) = machine_with_program(0xc000, &[0xc3, 0x34, 0x12]);
    let cycles = cpu.execute_next_instruction(&mut memory).unwrap();
    assert_eq!(cycles, 4);
    assert_eq!(cpu.reg.read_pc(), 0x1234, "low byte fetched first");
}

#[test]
fn load_immediate_into_register_b() {
    let (mut cpu, mut memory) = machine_with_program(0xc000, &[0x06, 0x42]);
    let cycles = cpu.execute_next_instruction(&mut memory).unwrap();
    assert_eq!(cycles, 2);
    assert_eq!(cpu.reg.read_b(), 0x42);
    assert_eq!(cpu.reg.read_pc(), 0xc002);
}

#[test]
fn load_immediate_into_indirect_hl() {
    let (mut cpu, mut memory) = machine_with_program(0xc000, &[0x36, 0x99]);
    cpu.reg.write_hl(0xd500);
    let cycles = cpu.execute_next_instruction(&mut memory).unwrap();
    assert_eq!(cycles, 2);
    assert_eq!(memory.read(0xd500).unwrap(), 0x99);
}

#[test]
fn store_a_at_immediate_address() {
    let (mut cpu, mut memory) = machine_with_program(0xc000, &[0xea, 0x00, 0xd0]);
    cpu.reg.write_a(0x77);
    let cycles = cpu.execute_next_instruction(&mut memory).unwrap();
    assert_eq!(cycles, 4);
    assert_eq!(memory.read(0xd000).unwrap(), 0x77);
    assert_eq!(cpu.reg.read_pc(), 0xc003);
}

#[test]
fn load_a_from_immediate_address() {
    let (mut cpu, mut memory) = machine_with_program(0xc000, &[0xfa, 0x00, 0xd0]);
    memory.write(0xd000, 0x55).unwrap();
    let cycles = cpu.execute_next_instruction(&mut memory).unwrap();
    assert_eq!(cycles, 4);
    assert_eq!(cpu.reg.read_a(), 0x55);
}

#[test]
fn compare_immediate_updates_flags_only() {
    let (mut cpu, mut memory) = machine_with_program(0xc000, &[0xfe, 0x10]);
    cpu.reg.write_a(0x10);
    let cycles = cpu.execute_next_instruction(&mut memory).unwrap();
    assert_eq!(cycles, 2);
    assert!(cpu.reg.read_zero_flag());
    assert!(cpu.reg.read_subtraction_flag());
    assert_eq!(cpu.reg.read_a(), 0x10);
}

#[test]
fn conditional_jump_taken_and_not_taken() {
    let (mut cpu, mut memory) = machine_with_program(0xc000, &[0xc2, 0x00, 0x20]);
    cpu.reg.set_zero_flag(false);
    let cycles = cpu.execute_next_instruction(&mut memory).unwrap();
    assert_eq!(cycles, 4, "not-zero condition taken costs the full price");
    assert_eq!(cpu.reg.read_pc(), 0x2000);

    let (mut cpu, mut memory) = machine_with_program(0xc000, &[0xca, 0x00, 0x20]);
    cpu.reg.set_zero_flag(false);
    let cycles = cpu.execute_next_instruction(&mut memory).unwrap();
    assert_eq!(cycles, 1, "zero condition not taken costs less");
    assert_eq!(cpu.reg.read_pc(), 0xc003, "the operand bytes are still consumed");
}

#[test]
fn illegal_opcode_reports_byte_and_fetch_address() {
    let (mut cpu, mut memory) = machine_with_program(0xc000, &[0x00]);
    let result = cpu.execute_next_instruction(&mut memory);
    assert_eq!(result, Err(CpuError::IllegalOpcode { opcode: 0x00, pc: 0xc000 }));

    let (mut cpu, mut memory) = machine_with_program(0xc005, &[0x76]);
    let result = cpu.execute_next_instruction(&mut memory);
    assert_eq!(result, Err(CpuError::IllegalOpcode { opcode: 0x76, pc: 0xc005 }));
}

#[test]
fn fetching_from_a_prohibited_region_is_rejected() {
    let mut cpu = CPU::new();
    let mut memory = Memory::new();
    cpu.reg.write_pc(0xe000);
    let result = cpu.execute_next_instruction(&mut memory);
    assert_eq!(result, Err(CpuError::IllegalAccess { address: 0xe000 }));
    assert_eq!(cpu.reg.read_pc(), 0xe000, "the counter does not move past a failed fetch");
}

#[test]
fn enable_interrupts_takes_effect_one_instruction_late() {
    let (mut cpu, mut memory) = machine_with_program(0xc000, &[0x06, 0x01, 0x06, 0x02]);
    cpu.ei();
    assert!(!cpu.ime, "not enabled by the request itself");
    cpu.execute_next_instruction(&mut memory).unwrap();
    assert!(cpu.ime, "enabled once the following instruction completed");
    assert!(!cpu.set_ime_after_instruction);
}

#[test]
fn disable_interrupts_is_immediate() {
    let mut cpu = CPU::new();
    cpu.ei();
    cpu.ime = true;
    cpu.di();
    assert!(!cpu.ime);
}

#[test]
fn halted_cpu_idles_without_fetching() {
    let (mut cpu, mut memory) = machine_with_program(0xc000, &[0x00]);
    cpu.halt();
    let cycles = cpu.execute_next_instruction(&mut memory).unwrap();
    assert_eq!(cycles, 1);
    assert_eq!(cpu.reg.read_pc(), 0xc000, "a halted CPU does not advance");
}
