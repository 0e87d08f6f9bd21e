use vstd::prelude::*;

use crate::errors::{CpuError, MemoryError};
use crate::memory::{readable, writable, Memory};
use crate::registers::{spec_hi, spec_lo, spec_merge, Registers};

verus! {

/// The value an 8-bit register code names: codes 0 to 5 name B, C, D, E, H
/// and L, code 6 names the byte at the address in HL, and code 7 names A.
pub open spec fn spec_r8_value(reg: Registers, mem: Memory, code: u8) -> u8 {
    if code == 0 {
        reg.b
    } else if code == 1 {
        reg.c
    } else if code == 2 {
        reg.d
    } else if code == 3 {
        reg.e
    } else if code == 4 {
        reg.h
    } else if code == 5 {
        reg.l
    } else if code == 6 {
        mem.spec_read(spec_merge(reg.h, reg.l))
    } else {
        reg.a
    }
}

/// The register file after writing `value` to the register an 8-bit code
/// names. Code 6 writes through the bus instead and leaves the file as it
/// was.
pub open spec fn spec_set_r8(reg: Registers, code: u8, value: u8) -> Registers {
    if code == 0 {
        Registers { b: value, ..reg }
    } else if code == 1 {
        Registers { c: value, ..reg }
    } else if code == 2 {
        Registers { d: value, ..reg }
    } else if code == 3 {
        Registers { e: value, ..reg }
    } else if code == 4 {
        Registers { h: value, ..reg }
    } else if code == 5 {
        Registers { l: value, ..reg }
    } else if code == 6 {
        reg
    } else {
        Registers { a: value, ..reg }
    }
}

/// The value a 16-bit register code names: codes 0 to 3 name the pairs BC,
/// DE, HL and the stack pointer.
pub open spec fn spec_r16_value(reg: Registers, code: u8) -> u16 {
    if code == 0 {
        spec_merge(reg.b, reg.c)
    } else if code == 1 {
        spec_merge(reg.d, reg.e)
    } else if code == 2 {
        spec_merge(reg.h, reg.l)
    } else {
        reg.sp
    }
}

/// The register file after writing `value` to the pair or stack pointer a
/// 16-bit code names.
pub open spec fn spec_set_r16(reg: Registers, code: u8, value: u16) -> Registers {
    if code == 0 {
        Registers { b: spec_hi(value), c: spec_lo(value), ..reg }
    } else if code == 1 {
        Registers { d: spec_hi(value), e: spec_lo(value), ..reg }
    } else if code == 2 {
        Registers { h: spec_hi(value), l: spec_lo(value), ..reg }
    } else {
        Registers { sp: value, ..reg }
    }
}

/// The branch condition a 2-bit code names: not-Zero, Zero, not-Carry,
/// Carry.
pub open spec fn spec_condition(reg: Registers, code: u8) -> bool {
    if code == 0 {
        !reg.zero_flag()
    } else if code == 1 {
        reg.zero_flag()
    } else if code == 2 {
        !reg.carry_flag()
    } else {
        reg.carry_flag()
    }
}

/// The single bit of weight `1 << n`.
pub open spec fn spec_bit_n(n: int) -> u8 {
    if n == 0 {
        0x01
    } else if n == 1 {
        0x02
    } else if n == 2 {
        0x04
    } else if n == 3 {
        0x08
    } else if n == 4 {
        0x10
    } else if n == 5 {
        0x20
    } else if n == 6 {
        0x40
    } else {
        0x80
    }
}

/// An 8-bit signed operand reinterpreted as the unsigned 16-bit value with
/// the same two's-complement bits.
pub open spec fn spec_e8_as_u16(e8: i8) -> u16 {
    if e8 >= 0 {
        e8 as u16
    } else {
        (e8 + 0x10000) as u16
    }
}

/// The flag-and-A outcome of an 8-bit addition into A: the widened sum of
/// A, the operand and the carry-in decides every flag before truncation.
/// Zero reflects the truncated result; Half-Carry is the carry out of bit
/// 3 of the widened sum; Carry is the carry out of bit 7.
pub open spec fn spec_add_a_post(pre: Registers, value: u8, carry_in: int, post: Registers) -> bool {
    let sum = pre.a + value + carry_in;
    &&& post.a == sum % 256
    &&& post.zero_flag() == (sum % 256 == 0)
    &&& post.subtraction_flag() == false
    &&& post.half_carry_flag() == (sum > 0xf)
    &&& post.carry_flag() == (sum > 0xff)
    &&& post.eq_except_a(pre)
}

/// The flag outcome of a compare of A against an operand: a non-mutating
/// subtract. Zero means equality, Half-Carry a borrow out of bit 3, Carry
/// that the operand exceeds A.
pub open spec fn spec_cp_post(pre: Registers, value: u8, post: Registers) -> bool {
    &&& post.zero_flag() == (pre.a == value)
    &&& post.subtraction_flag() == true
    &&& post.half_carry_flag() == ((value & 0x0f) > (pre.a & 0x0f))
    &&& post.carry_flag() == (value > pre.a)
    &&& post.non_flags_eq(pre)
}

/// The A value the BCD adjust produces: 0x06 and/or 0x60 added or
/// subtracted depending on the flags and, outside subtraction mode, on A's
/// nibbles exceeding 9 and 99.
pub open spec fn spec_daa_a(pre: Registers) -> u8 {
    if pre.subtraction_flag() {
        let adj = (if pre.half_carry_flag() {
            0x06int
        } else {
            0int
        }) + (if pre.carry_flag() {
            0x60int
        } else {
            0int
        });
        (((pre.a - adj) % 256) as u8)
    } else {
        let adj = (if pre.half_carry_flag() || pre.a & 0x0f > 0x09 {
            0x06int
        } else {
            0int
        }) + (if pre.carry_flag() || pre.a > 0x99 {
            0x60int
        } else {
            0int
        });
        (((pre.a + adj) % 256) as u8)
    }
}

/// The carry flag the BCD adjust leaves: set per the standard rule when a
/// 0x60 adjustment was called for in addition mode, untouched in
/// subtraction mode.
pub open spec fn spec_daa_carry(pre: Registers) -> bool {
    if pre.subtraction_flag() {
        pre.carry_flag()
    } else {
        pre.carry_flag() || pre.a > 0x99
    }
}

/// A 16-bit value incremented by one, wrapping at the end of the address
/// space.
pub open spec fn spec_inc16(v: u16) -> u16 {
    (((v + 1) % 0x10000) as u16)
}

/// A 16-bit value decremented by one, wrapping below zero.
pub open spec fn spec_dec16(v: u16) -> u16 {
    (((v + 0xffff) % 0x10000) as u16)
}

/// The bit of the opcode at position `i`, counted from the most significant
/// bit down, rendered as the character a decode template compares against.
pub open spec fn spec_bit_char(instruction: u8, i: int) -> char {
    if instruction & spec_bit_n(7 - i) != 0 {
        '1'
    } else {
        '0'
    }
}

/// One position of a decode template accepts the opcode: a wildcard accepts
/// either bit, any other character must equal the opcode's bit at that
/// position.
pub open spec fn spec_char_matches(c: char, instruction: u8, i: int) -> bool {
    c == '.' || c == spec_bit_char(instruction, i)
}

/// An opcode matches a bit-pattern template when every position of the
/// template accepts it.
pub open spec fn spec_pattern_matches(pattern: Seq<char>, instruction: u8) -> bool {
    forall|i: int| 0 <= i < pattern.len() ==> spec_char_matches(pattern[i], instruction, i)
}

/// The template of the unconditional jump to a 16-bit immediate.
pub open spec fn spec_is_jp_n16(op: u8) -> bool {
    spec_pattern_matches("11000011"@, op)
}

/// The template of the load of an 8-bit immediate into the register the
/// wildcard field names.
pub open spec fn spec_is_ld_r8_n8(op: u8) -> bool {
    spec_pattern_matches("00...110"@, op)
}

/// The template of the store of A at a 16-bit immediate address.
pub open spec fn spec_is_ld_n16_a(op: u8) -> bool {
    spec_pattern_matches("11101010"@, op)
}

/// The template of the load of the byte at a 16-bit immediate address into
/// A.
pub open spec fn spec_is_ld_a_n16(op: u8) -> bool {
    spec_pattern_matches("11111010"@, op)
}

/// The template of the compare of A with an 8-bit immediate.
pub open spec fn spec_is_cp_n8(op: u8) -> bool {
    spec_pattern_matches("11111110"@, op)
}

/// The template of the conditional jump to a 16-bit immediate, with a
/// 2-bit condition-code field.
pub open spec fn spec_is_jp_cc_n16(op: u8) -> bool {
    spec_pattern_matches("110..010"@, op)
}

/// The opcode matches some template of the ordered decode set.
pub open spec fn spec_matches_any_template(op: u8) -> bool {
    ||| spec_is_jp_n16(op)
    ||| spec_is_ld_r8_n8(op)
    ||| spec_is_ld_n16_a(op)
    ||| spec_is_ld_a_n16(op)
    ||| spec_is_cp_n8(op)
    ||| spec_is_jp_cc_n16(op)
}

/// Match an opcode against one 8-character decode template: each position
/// holds `0` or `1`, which the opcode's bit at that position must equal, or
/// a wildcard that matches either bit.
pub fn is_match(pattern: &str, instruction: u8) -> (r: bool)
    requires
        pattern@.len() == 8,
    ensures
        r == spec_pattern_matches(pattern@, instruction),
{
    let mut idx: usize = 0;
    while idx < 8
        invariant
            pattern@.len() == 8,
            idx <= 8,
            forall|i: int| 0 <= i < idx ==> spec_char_matches(pattern@[i], instruction, i),
        decreases 8 - idx,
    {
        let bit = pattern.get_char(idx);
        if bit != '.' {
            let mask = bit_n_at((7 - idx) as u8);
            let other_bit = if instruction & mask != 0 {
                '1'
            } else {
                '0'
            };
            if other_bit != bit {
                return false;
            }
        }
        idx = idx + 1;
    }
    true
}

fn bit_n_at(n: u8) -> (r: u8)
    requires
        n < 8,
    ensures
        r == spec_bit_n(n as int),
{
    if n == 0 {
        0x01
    } else if n == 1 {
        0x02
    } else if n == 2 {
        0x04
    } else if n == 3 {
        0x08
    } else if n == 4 {
        0x10
    } else if n == 5 {
        0x20
    } else if n == 6 {
        0x40
    } else {
        0x80
    }
}

/// The wildcard fields a matched template extracts stay inside the range
/// their width allows: a 3-bit register-code field is below 8 and a 2-bit
/// condition-code field below 4.
proof fn lemma_field_bounds(op: u8)
    by (bit_vector)
    ensures
        (op & 0x38) >> 3 < 8,
        (op & 0x18) >> 3 < 4,
{
}

/// One instruction has completed: an enable-interrupts latch that was
/// pending before it began is applied to the master flag only now, one
/// instruction late, and the latch is cleared.
pub open spec fn spec_ime_applied(pre: CPU, post: CPU) -> bool {
    &&& post.ime == (pre.ime || pre.set_ime_after_instruction)
    &&& post.set_ime_after_instruction == false
    &&& post.halted == pre.halted
}

/// The CPU: the register file, the interrupt-master-enable flag with its
/// one-instruction-delayed activation latch, and the halt latch. The memory
/// bus is not owned here; the driver threads it into each call that needs
/// it, which keeps the single-threaded sharing of the bus evident in the
/// API shape.
pub struct CPU {
    pub reg: Registers,
    /// Interrupts currently enabled.
    pub ime: bool,
    /// Enable interrupts only after the next instruction has completed.
    pub set_ime_after_instruction: bool,
    /// The CPU has executed a halt and idles.
    pub halted: bool,
}

impl CPU {
    pub open spec fn well_formed(self) -> bool {
        self.reg.well_formed()
    }

    /// The interrupt-enable state and the halt latch of `self` agree with
    /// `other`.
    pub open spec fn control_eq(self, other: CPU) -> bool {
        &&& self.ime == other.ime
        &&& self.set_ime_after_instruction == other.set_ime_after_instruction
        &&& self.halted == other.halted
    }

    pub fn new() -> (r: CPU)
        ensures
            r.reg == (Registers { a: 0, f: 0, b: 0, c: 0, d: 0, e: 0, h: 0, l: 0, sp: 0, pc: 0 }),
            !r.ime,
            !r.set_ime_after_instruction,
            !r.halted,
            r.well_formed(),
            !r.reg.zero_flag(),
            !r.reg.subtraction_flag(),
            !r.reg.half_carry_flag(),
            !r.reg.carry_flag(),
    {
        CPU { reg: Registers::new(), ime: false, set_ime_after_instruction: false, halted: false }
    }

    pub fn nop(&mut self)
        ensures
            *final(self) == *old(self),
    {
    }

    /// Read the value an 8-bit register code names; code 6 goes through the
    /// bus at the address in HL and fails where that address is prohibited.
    pub fn decode_r8(&self, memory: &Memory, r8: u8) -> (r: Result<u8, CpuError>)
        requires
            memory.well_formed(),
            r8 < 8,
        ensures
            (r8 != 6 || readable(spec_merge(self.reg.h, self.reg.l))) ==> r == Ok::<u8, CpuError>(
                spec_r8_value(self.reg, *memory, r8),
            ),
            (r8 == 6 && !readable(spec_merge(self.reg.h, self.reg.l))) ==> r == Err::<u8, CpuError>(
                CpuError::IllegalAccess { address: spec_merge(self.reg.h, self.reg.l) },
            ),
    {
        if r8 == 0 {
            Ok(self.reg.read_b())
        } else if r8 == 1 {
            Ok(self.reg.read_c())
        } else if r8 == 2 {
            Ok(self.reg.read_d())
        } else if r8 == 3 {
            Ok(self.reg.read_e())
        } else if r8 == 4 {
            Ok(self.reg.read_h())
        } else if r8 == 5 {
            Ok(self.reg.read_l())
        } else if r8 == 6 {
            match memory.read(self.reg.read_hl()) {
                Ok(value) => Ok(value),
                Err(MemoryError::IllegalAccess { address }) => Err(
                    CpuError::IllegalAccess { address },
                ),
            }
        } else {
            Ok(self.reg.read_a())
        }
    }

    /// Write a value to the register an 8-bit code names; code 6 goes
    /// through the bus at the address in HL and fails where that address
    /// rejects writes.
    pub fn encode_r8(&mut self, memory: &mut Memory, r8: u8, value: u8) -> (r: Result<
        (),
        CpuError,
    >)
        requires
            old(memory).well_formed(),
            r8 < 8,
        ensures
            final(memory).well_formed(),
            r8 != 6 ==> {
                &&& r == Ok::<(), CpuError>(())
                &&& final(self).reg == spec_set_r8(old(self).reg, r8, value)
                &&& final(self).ime == old(self).ime
                &&& final(self).set_ime_after_instruction == old(self).set_ime_after_instruction
                &&& final(self).halted == old(self).halted
                &&& *final(memory) == *old(memory)
            },
            (r8 == 6 && writable(spec_merge(old(self).reg.h, old(self).reg.l))) ==> {
                &&& r == Ok::<(), CpuError>(())
                &&& *final(self) == *old(self)
                &&& final(memory).spec_read(spec_merge(old(self).reg.h, old(self).reg.l)) == value
                &&& forall|a: u16|
                    a != spec_merge(old(self).reg.h, old(self).reg.l) ==> final(memory).spec_read(a)
                        == old(memory).spec_read(a)
            },
            (r8 == 6 && !writable(spec_merge(old(self).reg.h, old(self).reg.l))) ==> {
                &&& r == Err::<(), CpuError>(
                    CpuError::IllegalAccess {
                        address: spec_merge(old(self).reg.h, old(self).reg.l),
                    },
                )
                &&& *final(self) == *old(self)
                &&& *final(memory) == *old(memory)
            },
    {
        if r8 == 0 {
            self.reg.write_b(value);
            Ok(())
        } else if r8 == 1 {
            self.reg.write_c(value);
            Ok(())
        } else if r8 == 2 {
            self.reg.write_d(value);
            Ok(())
        } else if r8 == 3 {
            self.reg.write_e(value);
            Ok(())
        } else if r8 == 4 {
            self.reg.write_h(value);
            Ok(())
        } else if r8 == 5 {
            self.reg.write_l(value);
            Ok(())
        } else if r8 == 6 {
            match memory.write(self.reg.read_hl(), value) {
                Ok(()) => Ok(()),
                Err(MemoryError::IllegalAccess { address }) => Err(
                    CpuError::IllegalAccess { address },
                ),
            }
        } else {
            self.reg.write_a(value);
            Ok(())
        }
    }

    /// Read the pair or stack pointer a 16-bit register code names.
    pub fn decode_r16(&self, r16: u8) -> (r: u16)
        requires
            r16 < 4,
        ensures
            r == spec_r16_value(self.reg, r16),
    {
        if r16 == 0 {
            self.reg.read_bc()
        } else if r16 == 1 {
            self.reg.read_de()
        } else if r16 == 2 {
            self.reg.read_hl()
        } else {
            self.reg.read_sp()
        }
    }

    /// Write a value to the pair or stack pointer a 16-bit register code
    /// names.
    pub fn encode_r16(&mut self, r16: u8, value: u16)
        requires
            r16 < 4,
        ensures
            final(self).reg == spec_set_r16(old(self).reg, r16, value),
            final(self).ime == old(self).ime,
            final(self).set_ime_after_instruction == old(self).set_ime_after_instruction,
            final(self).halted == old(self).halted,
    {
        if r16 == 0 {
            self.reg.write_bc(value);
        } else if r16 == 1 {
            self.reg.write_de(value);
        } else if r16 == 2 {
            self.reg.write_hl(value);
        } else {
            self.reg.write_sp(value);
        }
    }

    /// Resolve a 2-bit branch condition code against the flags: NZ, Z, NC,
    /// C.
    pub fn resolve_condition(&self, cond: u8) -> (r: bool)
        requires
            cond < 4,
        ensures
            r == spec_condition(self.reg, cond),
    {
        if cond == 0 {
            !self.reg.read_zero_flag()
        } else if cond == 1 {
            self.reg.read_zero_flag()
        } else if cond == 2 {
            !self.reg.read_carry_flag()
        } else {
            self.reg.read_carry_flag()
        }
    }

    /// Disable interrupts immediately.
    pub fn di(&mut self)
        ensures
            *final(self) == (CPU { ime: false, ..*old(self) }),
    {
        self.ime = false;
    }

    /// Request interrupts enabled, applied only after the instruction
    /// following this one has fully executed.
    pub fn ei(&mut self)
        ensures
            *final(self) == (CPU { set_ime_after_instruction: true, ..*old(self) }),
    {
        self.set_ime_after_instruction = true;
    }

    /// Stop executing instructions until an interrupt would wake the CPU.
    pub fn halt(&mut self)
        ensures
            *final(self) == (CPU { halted: true, ..*old(self) }),
    {
        self.halted = true;
    }

    /// Complement the carry flag; Subtraction and Half-Carry are cleared,
    /// Zero is untouched.
    pub fn ccf(&mut self)
        ensures
            final(self).reg.carry_flag() == !old(self).reg.carry_flag(),
            final(self).reg.subtraction_flag() == false,
            final(self).reg.half_carry_flag() == false,
            final(self).reg.zero_flag() == old(self).reg.zero_flag(),
            final(self).reg.non_flags_eq(old(self).reg),
            final(self).ime == old(self).ime,
            final(self).set_ime_after_instruction == old(self).set_ime_after_instruction,
            final(self).halted == old(self).halted,
            old(self).well_formed() ==> final(self).well_formed(),
    {
        self.reg.set_subtraction_flag(false);
        self.reg.set_half_carry_flag(false);
        let carry = self.reg.read_carry_flag();
        self.reg.set_carry_flag(!carry);
    }

    /// Bitwise-invert register A; Subtraction and Half-Carry are set, Zero
    /// and Carry are untouched.
    pub fn cpl(&mut self)
        ensures
            final(self).reg.a == !old(self).reg.a,
            final(self).reg.subtraction_flag() == true,
            final(self).reg.half_carry_flag() == true,
            final(self).reg.zero_flag() == old(self).reg.zero_flag(),
            final(self).reg.carry_flag() == old(self).reg.carry_flag(),
            final(self).reg.eq_except_a(old(self).reg),
            final(self).ime == old(self).ime,
            final(self).set_ime_after_instruction == old(self).set_ime_after_instruction,
            final(self).halted == old(self).halted,
            old(self).well_formed() ==> final(self).well_formed(),
    {
        let a = self.reg.read_a();
        self.reg.write_a(!a);
        self.reg.set_subtraction_flag(true);
        self.reg.set_half_carry_flag(true);
    }

    /// Add the value the register code names, plus the carry flag, to A.
    pub fn adc_a_r8(&mut self, memory: &Memory, r8: u8) -> (r: Result<(), CpuError>)
        requires
            memory.well_formed(),
            r8 < 8,
        ensures
            final(self).control_eq(*old(self)),
            final(self).reg.f & 0x0f == old(self).reg.f & 0x0f,
            (r8 == 6 && !readable(spec_merge(old(self).reg.h, old(self).reg.l))) ==> {
                &&& r == Err::<(), CpuError>(
                    CpuError::IllegalAccess {
                        address: spec_merge(old(self).reg.h, old(self).reg.l),
                    },
                )
                &&& *final(self) == *old(self)
            },
            (r8 != 6 || readable(spec_merge(old(self).reg.h, old(self).reg.l))) ==> {
                &&& r == Ok::<(), CpuError>(())
                &&& spec_add_a_post(
                    old(self).reg,
                    spec_r8_value(old(self).reg, *memory, r8),
                    if old(self).reg.carry_flag() {
                        1int
                    } else {
                        0int
                    },
                    final(self).reg,
                )
            },
    {
        let register_value = match self.decode_r8(memory, r8) {
            Ok(value) => value,
            Err(e) => {
                return Err(e);
            },
        };
        self.adc_a(register_value);
        Ok(())
    }

    /// Add a byte plus the carry flag to A.
    pub fn adc_a(&mut self, value: u8)
        ensures
            spec_add_a_post(
                old(self).reg,
                value,
                if old(self).reg.carry_flag() {
                    1int
                } else {
                    0int
                },
                final(self).reg,
            ),
            final(self).control_eq(*old(self)),
            final(self).reg.f & 0x0f == old(self).reg.f & 0x0f,
    {
        let a = self.reg.read_a();
        let carry_in: u16 = if self.reg.read_carry_flag() {
            1
        } else {
            0
        };
        let sum_result: u16 = a as u16 + value as u16 + carry_in;
        self.reg.set_zero_flag(sum_result % 256 == 0);
        self.reg.set_subtraction_flag(false);
        self.reg.set_half_carry_flag(sum_result > 0xf);
        self.reg.set_carry_flag(sum_result > 0xff);
        self.reg.write_a((sum_result % 256) as u8);
    }

    /// Add the value the register code names to A.
    pub fn add_a_r8(&mut self, memory: &Memory, r8: u8) -> (r: Result<(), CpuError>)
        requires
            memory.well_formed(),
            r8 < 8,
        ensures
            final(self).control_eq(*old(self)),
            final(self).reg.f & 0x0f == old(self).reg.f & 0x0f,
            (r8 == 6 && !readable(spec_merge(old(self).reg.h, old(self).reg.l))) ==> {
                &&& r == Err::<(), CpuError>(
                    CpuError::IllegalAccess {
                        address: spec_merge(old(self).reg.h, old(self).reg.l),
                    },
                )
                &&& *final(self) == *old(self)
            },
            (r8 != 6 || readable(spec_merge(old(self).reg.h, old(self).reg.l))) ==> {
                &&& r == Ok::<(), CpuError>(())
                &&& spec_add_a_post(
                    old(self).reg,
                    spec_r8_value(old(self).reg, *memory, r8),
                    0,
                    final(self).reg,
                )
            },
    {
        let register_value = match self.decode_r8(memory, r8) {
            Ok(value) => value,
            Err(e) => {
                return Err(e);
            },
        };
        self.add_a(register_value);
        Ok(())
    }

    /// Add a byte to A.
    pub fn add_a(&mut self, value: u8)
        ensures
            spec_add_a_post(old(self).reg, value, 0, final(self).reg),
            final(self).control_eq(*old(self)),
            final(self).reg.f & 0x0f == old(self).reg.f & 0x0f,
    {
        let a = self.reg.read_a();
        let sum_result: u16 = a as u16 + value as u16;
        self.reg.set_zero_flag(sum_result % 256 == 0);
        self.reg.set_subtraction_flag(false);
        self.reg.set_half_carry_flag(sum_result > 0xf);
        self.reg.set_carry_flag(sum_result > 0xff);
        self.reg.write_a((sum_result % 256) as u8);
    }

    /// Add the pair or stack pointer the 16-bit code names to HL.
    pub fn add_hl_r16(&mut self, r16: u8)
        requires
            r16 < 4,
        ensures
            ({
                let sum = spec_merge(old(self).reg.h, old(self).reg.l) + spec_r16_value(
                    old(self).reg,
                    r16,
                );
                &&& final(self).reg.h == spec_hi(((sum % 0x10000) as u16))
                &&& final(self).reg.l == spec_lo(((sum % 0x10000) as u16))
                &&& final(self).reg.subtraction_flag() == false
                &&& final(self).reg.half_carry_flag() == (sum > 0xfff)
                &&& final(self).reg.carry_flag() == (sum > 0xffff)
            }),
            final(self).reg.zero_flag() == old(self).reg.zero_flag(),
            final(self).reg.eq_except_hl(old(self).reg),
            final(self).control_eq(*old(self)),
            final(self).reg.f & 0x0f == old(self).reg.f & 0x0f,
    {
        let register_value = self.decode_r16(r16);
        self.add_hl(register_value);
    }

    /// Add a 16-bit value to HL. Half-Carry is the carry out of bit 11,
    /// Carry the carry out of bit 15, and Zero is not touched.
    pub fn add_hl(&mut self, value: u16)
        ensures
            ({
                let sum = spec_merge(old(self).reg.h, old(self).reg.l) + value;
                &&& final(self).reg.h == spec_hi(((sum % 0x10000) as u16))
                &&& final(self).reg.l == spec_lo(((sum % 0x10000) as u16))
                &&& final(self).reg.subtraction_flag() == false
                &&& final(self).reg.half_carry_flag() == (sum > 0xfff)
                &&& final(self).reg.carry_flag() == (sum > 0xffff)
            }),
            final(self).reg.zero_flag() == old(self).reg.zero_flag(),
            final(self).reg.eq_except_hl(old(self).reg),
            final(self).control_eq(*old(self)),
            final(self).reg.f & 0x0f == old(self).reg.f & 0x0f,
    {
        let hl = self.reg.read_hl();
        let sum_result: u32 = hl as u32 + value as u32;
        self.reg.set_subtraction_flag(false);
        self.reg.set_half_carry_flag(sum_result > 0xfff);
        self.reg.set_carry_flag(sum_result > 0xffff);
        self.reg.write_hl((sum_result % 0x10000) as u16);
    }

    /// Add a signed 8-bit operand to the stack pointer. Zero and
    /// Subtraction are forced false; Half-Carry and Carry come from the
    /// wrapped result or from the overflow of the widening add.
    pub fn add_sp(&mut self, e8: i8)
        ensures
            ({
                let sum = old(self).reg.sp + spec_e8_as_u16(e8);
                let result = ((sum % 0x10000) as u16);
                &&& final(self).reg.sp == result
                &&& final(self).reg.zero_flag() == false
                &&& final(self).reg.subtraction_flag() == false
                &&& final(self).reg.half_carry_flag() == (result > 0xf || sum > 0xffff)
                &&& final(self).reg.carry_flag() == (result > 0xff || sum > 0xffff)
            }),
            final(self).reg.eq_except_sp(old(self).reg),
            final(self).control_eq(*old(self)),
            final(self).reg.f & 0x0f == old(self).reg.f & 0x0f,
    {
        let sp = self.reg.read_sp();
        let operand: u16 = if e8 >= 0 {
            e8 as u16
        } else {
            (e8 as i32 + 0x10000) as u16
        };
        let sum: u32 = sp as u32 + operand as u32;
        let has_overflow = sum > 0xffff;
        let sum_result: u16 = (sum % 0x10000) as u16;
        self.reg.set_zero_flag(false);
        self.reg.set_subtraction_flag(false);
        self.reg.set_half_carry_flag(sum_result > 0xf || has_overflow);
        self.reg.set_carry_flag(sum_result > 0xff || has_overflow);
        self.reg.write_sp(sum_result);
    }

    /// Bitwise-and the value the register code names into A.
    pub fn and_a_r8(&mut self, memory: &Memory, r8: u8) -> (r: Result<(), CpuError>)
        requires
            memory.well_formed(),
            r8 < 8,
        ensures
            final(self).control_eq(*old(self)),
            final(self).reg.f & 0x0f == old(self).reg.f & 0x0f,
            (r8 == 6 && !readable(spec_merge(old(self).reg.h, old(self).reg.l))) ==> {
                &&& r == Err::<(), CpuError>(
                    CpuError::IllegalAccess {
                        address: spec_merge(old(self).reg.h, old(self).reg.l),
                    },
                )
                &&& *final(self) == *old(self)
            },
            (r8 != 6 || readable(spec_merge(old(self).reg.h, old(self).reg.l))) ==> {
                &&& r == Ok::<(), CpuError>(())
                &&& final(self).reg.a == (old(self).reg.a & spec_r8_value(
                    old(self).reg,
                    *memory,
                    r8,
                ))
                &&& final(self).reg.zero_flag() == (old(self).reg.a & spec_r8_value(
                    old(self).reg,
                    *memory,
                    r8,
                ) == 0)
                &&& final(self).reg.subtraction_flag() == false
                &&& final(self).reg.half_carry_flag() == true
                &&& final(self).reg.carry_flag() == false
                &&& final(self).reg.eq_except_a(old(self).reg)
            },
    {
        let register_value = match self.decode_r8(memory, r8) {
            Ok(value) => value,
            Err(e) => {
                return Err(e);
            },
        };
        self.and_a(register_value);
        Ok(())
    }

    /// Bitwise-and a byte into A. Half-Carry is fixed true and Carry fixed
    /// false.
    pub fn and_a(&mut self, value: u8)
        ensures
            final(self).reg.a == (old(self).reg.a & value),
            final(self).reg.zero_flag() == (old(self).reg.a & value == 0),
            final(self).reg.subtraction_flag() == false,
            final(self).reg.half_carry_flag() == true,
            final(self).reg.carry_flag() == false,
            final(self).reg.eq_except_a(old(self).reg),
            final(self).control_eq(*old(self)),
            final(self).reg.f & 0x0f == old(self).reg.f & 0x0f,
    {
        let and_result = self.reg.read_a() & value;
        self.reg.set_zero_flag(and_result == 0);
        self.reg.set_subtraction_flag(false);
        self.reg.set_half_carry_flag(true);
        self.reg.set_carry_flag(false);
        self.reg.write_a(and_result);
    }

    /// Test bit `u3` of the value the register code names: Zero is set
    /// exactly when that bit is clear. Carry is unaffected and the operand
    /// is not mutated.
    pub fn bit_u3_r8(&mut self, memory: &Memory, u3: u8, r8: u8) -> (r: Result<(), CpuError>)
        requires
            memory.well_formed(),
            u3 < 8,
            r8 < 8,
        ensures
            final(self).control_eq(*old(self)),
            final(self).reg.f & 0x0f == old(self).reg.f & 0x0f,
            (r8 == 6 && !readable(spec_merge(old(self).reg.h, old(self).reg.l))) ==> {
                &&& r == Err::<(), CpuError>(
                    CpuError::IllegalAccess {
                        address: spec_merge(old(self).reg.h, old(self).reg.l),
                    },
                )
                &&& *final(self) == *old(self)
            },
            (r8 != 6 || readable(spec_merge(old(self).reg.h, old(self).reg.l))) ==> {
                &&& r == Ok::<(), CpuError>(())
                &&& final(self).reg.zero_flag() == (spec_r8_value(old(self).reg, *memory, r8)
                    & spec_bit_n(u3 as int) == 0)
                &&& final(self).reg.subtraction_flag() == false
                &&& final(self).reg.half_carry_flag() == true
                &&& final(self).reg.carry_flag() == old(self).reg.carry_flag()
                &&& final(self).reg.non_flags_eq(old(self).reg)
            },
    {
        let register_value = match self.decode_r8(memory, r8) {
            Ok(value) => value,
            Err(e) => {
                return Err(e);
            },
        };
        let mask = bit_n_at(u3);
        self.reg.set_zero_flag(register_value & mask == 0);
        self.reg.set_subtraction_flag(false);
        self.reg.set_half_carry_flag(true);
        Ok(())
    }

    /// Compare A with the value the register code names.
    pub fn cp_a_r8(&mut self, memory: &Memory, r8: u8) -> (r: Result<(), CpuError>)
        requires
            memory.well_formed(),
            r8 < 8,
        ensures
            final(self).control_eq(*old(self)),
            final(self).reg.f & 0x0f == old(self).reg.f & 0x0f,
            (r8 == 6 && !readable(spec_merge(old(self).reg.h, old(self).reg.l))) ==> {
                &&& r == Err::<(), CpuError>(
                    CpuError::IllegalAccess {
                        address: spec_merge(old(self).reg.h, old(self).reg.l),
                    },
                )
                &&& *final(self) == *old(self)
            },
            (r8 != 6 || readable(spec_merge(old(self).reg.h, old(self).reg.l))) ==> {
                &&& r == Ok::<(), CpuError>(())
                &&& spec_cp_post(
                    old(self).reg,
                    spec_r8_value(old(self).reg, *memory, r8),
                    final(self).reg,
                )
            },
    {
        let register_value = match self.decode_r8(memory, r8) {
            Ok(value) => value,
            Err(e) => {
                return Err(e);
            },
        };
        self.cp_a(register_value);
        Ok(())
    }

    /// Compare A with a byte: a non-mutating subtract that only updates the
    /// flags.
    pub fn cp_a(&mut self, value: u8)
        ensures
            spec_cp_post(old(self).reg, value, final(self).reg),
            final(self).control_eq(*old(self)),
            final(self).reg.f & 0x0f == old(self).reg.f & 0x0f,
    {
        let a = self.reg.read_a();
        self.reg.set_zero_flag(a == value);
        self.reg.set_subtraction_flag(true);
        self.reg.set_half_carry_flag(Self::detect_bit_3_borrow(a, value));
        self.reg.set_carry_flag(value > a);
    }

    /// Whether subtracting `b` from `a` borrows out of bit 3: the low
    /// nibble of `b` exceeds the low nibble of `a`.
    pub fn detect_bit_3_borrow(a: u8, b: u8) -> (r: bool)
        ensures
            r == ((b & 0x0f) > (a & 0x0f)),
    {
        (a & 0x0f) < (b & 0x0f)
    }

    /// Whether adding `a` and `b` carries out of bit 3: the sum of the low
    /// nibbles does not fit in a nibble.
    pub fn detect_bit_3_overflow(a: u8, b: u8) -> (r: bool)
        ensures
            r == ((a & 0x0f) + (b & 0x0f) > 0x0f),
    {
        let la: u16 = (a & 0x0f) as u16;
        let lb: u16 = (b & 0x0f) as u16;
        proof {
            assert((a & 0x0f) < 16 && (b & 0x0f) < 16) by (bit_vector);
        }
        let s: u16 = la + lb;
        proof {
            assert((s & 0x10 != 0) == (s > 0xf)) by (bit_vector)
                requires
                    s < 32,
            ;
        }
        (s & 0x10) != 0
    }

    /// BCD-adjust A after an addition or subtraction so that it reads as a
    /// packed decimal result. Zero is recomputed from the adjusted A,
    /// Half-Carry is always cleared, and Carry follows the standard
    /// adjust rule.
    pub fn daa(&mut self)
        ensures
            final(self).reg.a == spec_daa_a(old(self).reg),
            final(self).reg.zero_flag() == (spec_daa_a(old(self).reg) == 0),
            final(self).reg.subtraction_flag() == old(self).reg.subtraction_flag(),
            final(self).reg.half_carry_flag() == false,
            final(self).reg.carry_flag() == spec_daa_carry(old(self).reg),
            final(self).reg.eq_except_a(old(self).reg),
            final(self).control_eq(*old(self)),
            final(self).reg.f & 0x0f == old(self).reg.f & 0x0f,
    {
        let a = self.reg.read_a();
        if self.reg.read_subtraction_flag() {
            let mut adj: u16 = 0;
            if self.reg.read_half_carry_flag() {
                adj = adj + 0x06;
            }
            if self.reg.read_carry_flag() {
                adj = adj + 0x60;
            }
            let adjusted: u8 = (((a as u16 + 0x100) - adj) % 0x100) as u8;
            self.reg.write_a(adjusted);
            self.reg.set_zero_flag(adjusted == 0);
        } else {
            let mut adj: u16 = 0;
            if self.reg.read_half_carry_flag() || (a & 0x0f) > 0x09 {
                adj = adj + 0x06;
            }
            let new_carry = self.reg.read_carry_flag() || a > 0x99;
            if new_carry {
                adj = adj + 0x60;
            }
            let adjusted: u8 = ((a as u16 + adj) % 0x100) as u8;
            self.reg.write_a(adjusted);
            self.reg.set_zero_flag(adjusted == 0);
            self.reg.set_carry_flag(new_carry);
        }
        self.reg.set_half_carry_flag(false);
    }

    /// Increment the value the register code names, wrapping modulo 256.
    /// The Carry flag is never touched.
    pub fn inc_r8(&mut self, memory: &mut Memory, r8: u8) -> (r: Result<(), CpuError>)
        requires
            old(memory).well_formed(),
            r8 < 8,
        ensures
            final(memory).well_formed(),
            final(self).control_eq(*old(self)),
            final(self).reg.f & 0x0f == old(self).reg.f & 0x0f,
            final(self).reg.carry_flag() == old(self).reg.carry_flag(),
            ({
                let hl = spec_merge(old(self).reg.h, old(self).reg.l);
                let value = spec_r8_value(old(self).reg, *old(memory), r8);
                let incremented = (((value + 1) % 256) as u8);
                if r8 == 6 && !writable(hl) {
                    &&& r == Err::<(), CpuError>(CpuError::IllegalAccess { address: hl })
                    &&& *final(self) == *old(self)
                    &&& *final(memory) == *old(memory)
                } else {
                    &&& r == Ok::<(), CpuError>(())
                    &&& final(self).reg.non_flags_eq(spec_set_r8(old(self).reg, r8, incremented))
                    &&& final(self).reg.zero_flag() == (incremented == 0)
                    &&& final(self).reg.subtraction_flag() == false
                    &&& final(self).reg.half_carry_flag() == ((value & 0x0f) + 1 > 0x0f)
                    &&& (r8 == 6 ==> final(memory).spec_read(hl) == incremented && forall|a: u16|
                        a != hl ==> final(memory).spec_read(a) == old(memory).spec_read(a))
                    &&& (r8 != 6 ==> *final(memory) == *old(memory))
                }
            }),
    {
        let register_value = match self.decode_r8(memory, r8) {
            Ok(value) => value,
            Err(e) => {
                return Err(e);
            },
        };
        let new_value: u8 = ((register_value as u16 + 1) % 256) as u8;
        match self.encode_r8(memory, r8, new_value) {
            Ok(()) => {},
            Err(e) => {
                return Err(e);
            },
        }
        self.reg.set_zero_flag(new_value == 0);
        self.reg.set_subtraction_flag(false);
        proof {
            assert(1u8 & 0x0f == 1) by (bit_vector);
        }
        self.reg.set_half_carry_flag(Self::detect_bit_3_overflow(register_value, 1));
        Ok(())
    }

    /// Decrement the value the register code names, wrapping modulo 256.
    /// The Carry flag is never touched.
    pub fn dec_r8(&mut self, memory: &mut Memory, r8: u8) -> (r: Result<(), CpuError>)
        requires
            old(memory).well_formed(),
            r8 < 8,
        ensures
            final(memory).well_formed(),
            final(self).control_eq(*old(self)),
            final(self).reg.f & 0x0f == old(self).reg.f & 0x0f,
            final(self).reg.carry_flag() == old(self).reg.carry_flag(),
            ({
                let hl = spec_merge(old(self).reg.h, old(self).reg.l);
                let value = spec_r8_value(old(self).reg, *old(memory), r8);
                let decremented = (((value + 255) % 256) as u8);
                if r8 == 6 && !writable(hl) {
                    &&& r == Err::<(), CpuError>(CpuError::IllegalAccess { address: hl })
                    &&& *final(self) == *old(self)
                    &&& *final(memory) == *old(memory)
                } else {
                    &&& r == Ok::<(), CpuError>(())
                    &&& final(self).reg.non_flags_eq(spec_set_r8(old(self).reg, r8, decremented))
                    &&& final(self).reg.zero_flag() == (decremented == 0)
                    &&& final(self).reg.subtraction_flag() == true
                    &&& final(self).reg.half_carry_flag() == ((value & 0x0f) < 1)
                    &&& (r8 == 6 ==> final(memory).spec_read(hl) == decremented && forall|a: u16|
                        a != hl ==> final(memory).spec_read(a) == old(memory).spec_read(a))
                    &&& (r8 != 6 ==> *final(memory) == *old(memory))
                }
            }),
    {
        let register_value = match self.decode_r8(memory, r8) {
            Ok(value) => value,
            Err(e) => {
                return Err(e);
            },
        };
        let new_value: u8 = ((register_value as u16 + 255) % 256) as u8;
        match self.encode_r8(memory, r8, new_value) {
            Ok(()) => {},
            Err(e) => {
                return Err(e);
            },
        }
        self.reg.set_zero_flag(new_value == 0);
        self.reg.set_subtraction_flag(true);
        proof {
            assert(1u8 & 0x0f == 1) by (bit_vector);
        }
        self.reg.set_half_carry_flag(Self::detect_bit_3_borrow(register_value, 1));
        Ok(())
    }

    /// Copy the value the right register code names into the register the
    /// left code names.
    pub fn ld_r8_r8(&mut self, memory: &mut Memory, left: u8, right: u8) -> (r: Result<
        (),
        CpuError,
    >)
        requires
            old(memory).well_formed(),
            left < 8,
            right < 8,
        ensures
            final(memory).well_formed(),
            final(self).control_eq(*old(self)),
            ({
                let hl = spec_merge(old(self).reg.h, old(self).reg.l);
                let value = spec_r8_value(old(self).reg, *old(memory), right);
                if right == 6 && !readable(hl) {
                    &&& r == Err::<(), CpuError>(CpuError::IllegalAccess { address: hl })
                    &&& *final(self) == *old(self)
                    &&& *final(memory) == *old(memory)
                } else if left == 6 && !writable(hl) {
                    &&& r == Err::<(), CpuError>(CpuError::IllegalAccess { address: hl })
                    &&& *final(self) == *old(self)
                    &&& *final(memory) == *old(memory)
                } else {
                    &&& r == Ok::<(), CpuError>(())
                    &&& final(self).reg == spec_set_r8(old(self).reg, left, value)
                    &&& (left == 6 ==> final(memory).spec_read(hl) == value && forall|a: u16|
                        a != hl ==> final(memory).spec_read(a) == old(memory).spec_read(a))
                    &&& (left != 6 ==> *final(memory) == *old(memory))
                }
            }),
    {
        let right_value = match self.decode_r8(memory, right) {
            Ok(value) => value,
            Err(e) => {
                return Err(e);
            },
        };
        self.encode_r8(memory, left, right_value)
    }

    /// Copy an immediate byte into the register the code names.
    pub fn ld_r8_n8(&mut self, memory: &mut Memory, r8: u8, n8: u8) -> (r: Result<(), CpuError>)
        requires
            old(memory).well_formed(),
            r8 < 8,
        ensures
            final(memory).well_formed(),
            final(self).control_eq(*old(self)),
            ({
                let hl = spec_merge(old(self).reg.h, old(self).reg.l);
                if r8 == 6 && !writable(hl) {
                    &&& r == Err::<(), CpuError>(CpuError::IllegalAccess { address: hl })
                    &&& *final(self) == *old(self)
                    &&& *final(memory) == *old(memory)
                } else {
                    &&& r == Ok::<(), CpuError>(())
                    &&& final(self).reg == spec_set_r8(old(self).reg, r8, n8)
                    &&& (r8 == 6 ==> final(memory).spec_read(hl) == n8 && forall|a: u16|
                        a != hl ==> final(memory).spec_read(a) == old(memory).spec_read(a))
                    &&& (r8 != 6 ==> *final(memory) == *old(memory))
                }
            }),
    {
        self.encode_r8(memory, r8, n8)
    }

    /// Copy an immediate 16-bit value into the pair or stack pointer the
    /// code names.
    pub fn ld_r16_n16(&mut self, r16: u8, n16: u16)
        requires
            r16 < 4,
        ensures
            final(self).reg == spec_set_r16(old(self).reg, r16, n16),
            final(self).control_eq(*old(self)),
    {
        self.encode_r16(r16, n16);
    }

    /// Copy A, widened, into the pair or stack pointer the code names.
    pub fn ld_r16_a(&mut self, r16: u8)
        requires
            r16 < 4,
        ensures
            final(self).reg == spec_set_r16(old(self).reg, r16, old(self).reg.a as u16),
            final(self).control_eq(*old(self)),
    {
        let a = self.reg.read_a();
        self.encode_r16(r16, a as u16);
    }

    /// Store A at an immediate 16-bit address through the bus.
    pub fn ld_n16_a(&mut self, memory: &mut Memory, n16: u16) -> (r: Result<(), CpuError>)
        requires
            old(memory).well_formed(),
        ensures
            final(memory).well_formed(),
            *final(self) == *old(self),
            writable(n16) ==> {
                &&& r == Ok::<(), CpuError>(())
                &&& final(memory).spec_read(n16) == old(self).reg.a
                &&& forall|a: u16|
                    a != n16 ==> final(memory).spec_read(a) == old(memory).spec_read(a)
            },
            !writable(n16) ==> {
                &&& r == Err::<(), CpuError>(CpuError::IllegalAccess { address: n16 })
                &&& *final(memory) == *old(memory)
            },
    {
        let a = self.reg.read_a();
        match memory.write(n16, a) {
            Ok(()) => Ok(()),
            Err(MemoryError::IllegalAccess { address }) => Err(
                CpuError::IllegalAccess { address },
            ),
        }
    }

    /// Load the byte at an immediate 16-bit address into A.
    pub fn ld_a_n16(&mut self, memory: &Memory, n16: u16) -> (r: Result<(), CpuError>)
        requires
            memory.well_formed(),
        ensures
            readable(n16) ==> {
                &&& r == Ok::<(), CpuError>(())
                &&& final(self).reg == (Registers {
                    a: memory.spec_read(n16),
                    ..old(self).reg
                })
                &&& final(self).control_eq(*old(self))
            },
            !readable(n16) ==> {
                &&& r == Err::<(), CpuError>(CpuError::IllegalAccess { address: n16 })
                &&& *final(self) == *old(self)
            },
    {
        let byte_at_address = match memory.read(n16) {
            Ok(value) => value,
            Err(MemoryError::IllegalAccess { address }) => {
                return Err(CpuError::IllegalAccess { address });
            },
        };
        self.reg.write_a(byte_at_address);
        Ok(())
    }

    /// Jump: load the program counter with an immediate 16-bit address.
    pub fn jp_n16(&mut self, n16: u16)
        ensures
            *final(self) == (CPU {
                reg: Registers { pc: n16, ..old(self).reg },
                ..*old(self)
            }),
    {
        self.reg.write_pc(n16);
    }

    /// Conditional jump: load the program counter only when the condition
    /// code resolves true against the flags.
    pub fn jp_cc_n16(&mut self, cc: u8, n16: u16)
        requires
            cc < 4,
        ensures
            spec_condition(old(self).reg, cc) ==> *final(self) == (CPU {
                reg: Registers { pc: n16, ..old(self).reg },
                ..*old(self)
            }),
            !spec_condition(old(self).reg, cc) ==> *final(self) == *old(self),
    {
        if self.resolve_condition(cc) {
            self.reg.write_pc(n16);
        }
    }

    /// Jump to the address in HL.
    pub fn jp_hl(&mut self)
        ensures
            *final(self) == (CPU {
                reg: Registers {
                    pc: spec_merge(old(self).reg.h, old(self).reg.l),
                    ..old(self).reg
                },
                ..*old(self)
            }),
    {
        let hl = self.reg.read_hl();
        self.reg.write_pc(hl);
    }

    /// Call: push the current program counter onto the stack, high byte at
    /// SP - 1 and low byte at SP - 2, move SP down by two and jump to the
    /// immediate address.
    pub fn call_n16(&mut self, memory: &mut Memory, n16: u16) -> (r: Result<(), CpuError>)
        requires
            old(memory).well_formed(),
        ensures
            final(memory).well_formed(),
            ({
                let sp1 = spec_dec16(old(self).reg.sp);
                let sp2 = spec_dec16(sp1);
                if !writable(sp1) {
                    &&& r == Err::<(), CpuError>(CpuError::IllegalAccess { address: sp1 })
                    &&& *final(self) == *old(self)
                    &&& *final(memory) == *old(memory)
                } else if !writable(sp2) {
                    &&& r == Err::<(), CpuError>(CpuError::IllegalAccess { address: sp2 })
                    &&& *final(self) == *old(self)
                    &&& final(memory).spec_read(sp1) == spec_hi(old(self).reg.pc)
                    &&& forall|a: u16|
                        a != sp1 ==> final(memory).spec_read(a) == old(memory).spec_read(a)
                } else {
                    &&& r == Ok::<(), CpuError>(())
                    &&& *final(self) == (CPU {
                        reg: Registers { pc: n16, sp: sp2, ..old(self).reg },
                        ..*old(self)
                    })
                    &&& final(memory).spec_read(sp1) == spec_hi(old(self).reg.pc)
                    &&& final(memory).spec_read(sp2) == spec_lo(old(self).reg.pc)
                    &&& forall|a: u16|
                        a != sp1 && a != sp2 ==> final(memory).spec_read(a) == old(
                            memory,
                        ).spec_read(a)
                }
            }),
    {
        let sp = self.reg.read_sp();
        let sp1: u16 = if sp == 0 {
            0xffff
        } else {
            sp - 1
        };
        let sp2: u16 = if sp1 == 0 {
            0xffff
        } else {
            sp1 - 1
        };
        let pc = self.reg.read_pc();
        let pc_hi: u8 = (pc / 256) as u8;
        let pc_lo: u8 = (pc % 256) as u8;
        match memory.write(sp1, pc_hi) {
            Ok(()) => {},
            Err(MemoryError::IllegalAccess { address }) => {
                return Err(CpuError::IllegalAccess { address });
            },
        }
        match memory.write(sp2, pc_lo) {
            Ok(()) => {},
            Err(MemoryError::IllegalAccess { address }) => {
                return Err(CpuError::IllegalAccess { address });
            },
        }
        self.reg.write_sp(sp2);
        self.reg.write_pc(n16);
        Ok(())
    }

    /// Call only when the condition code resolves true against the flags.
    pub fn call_cc_n16(&mut self, memory: &mut Memory, cc: u8, n16: u16) -> (r: Result<
        (),
        CpuError,
    >)
        requires
            old(memory).well_formed(),
            cc < 4,
        ensures
            final(memory).well_formed(),
            !spec_condition(old(self).reg, cc) ==> {
                &&& r == Ok::<(), CpuError>(())
                &&& *final(self) == *old(self)
                &&& *final(memory) == *old(memory)
            },
            spec_condition(old(self).reg, cc) ==> ({
                let sp1 = spec_dec16(old(self).reg.sp);
                let sp2 = spec_dec16(sp1);
                if !writable(sp1) {
                    &&& r == Err::<(), CpuError>(CpuError::IllegalAccess { address: sp1 })
                    &&& *final(self) == *old(self)
                    &&& *final(memory) == *old(memory)
                } else if !writable(sp2) {
                    &&& r == Err::<(), CpuError>(CpuError::IllegalAccess { address: sp2 })
                    &&& *final(self) == *old(self)
                    &&& final(memory).spec_read(sp1) == spec_hi(old(self).reg.pc)
                    &&& forall|a: u16|
                        a != sp1 ==> final(memory).spec_read(a) == old(memory).spec_read(a)
                } else {
                    &&& r == Ok::<(), CpuError>(())
                    &&& *final(self) == (CPU {
                        reg: Registers { pc: n16, sp: sp2, ..old(self).reg },
                        ..*old(self)
                    })
                    &&& final(memory).spec_read(sp1) == spec_hi(old(self).reg.pc)
                    &&& final(memory).spec_read(sp2) == spec_lo(old(self).reg.pc)
                    &&& forall|a: u16|
                        a != sp1 && a != sp2 ==> final(memory).spec_read(a) == old(
                            memory,
                        ).spec_read(a)
                }
            }),
    {
        if self.resolve_condition(cc) {
            self.call_n16(memory, n16)
        } else {
            Ok(())
        }
    }

    /// Fetch the byte at the program counter and advance the counter past
    /// it.
    pub fn fetch_instruction(&mut self, memory: &Memory) -> (r: Result<u8, CpuError>)
        requires
            memory.well_formed(),
        ensures
            readable(old(self).reg.pc) ==> {
                &&& r == Ok::<u8, CpuError>(memory.spec_read(old(self).reg.pc))
                &&& *final(self) == (CPU {
                    reg: Registers { pc: spec_inc16(old(self).reg.pc), ..old(self).reg },
                    ..*old(self)
                })
            },
            !readable(old(self).reg.pc) ==> {
                &&& r == Err::<u8, CpuError>(
                    CpuError::IllegalAccess { address: old(self).reg.pc },
                )
                &&& *final(self) == *old(self)
            },
    {
        let pc = self.reg.read_pc();
        let instruction = match memory.read(pc) {
            Ok(value) => value,
            Err(MemoryError::IllegalAccess { address }) => {
                return Err(CpuError::IllegalAccess { address });
            },
        };
        self.reg.inc_pc();
        Ok(instruction)
    }

    /// Fetch a 16-bit immediate, low byte first, advancing the program
    /// counter past both bytes.
    pub fn fetch_n16(&mut self, memory: &Memory) -> (r: Result<u16, CpuError>)
        requires
            memory.well_formed(),
        ensures
            ({
                let pc0 = old(self).reg.pc;
                let pc1 = spec_inc16(pc0);
                if !readable(pc0) {
                    &&& r == Err::<u16, CpuError>(CpuError::IllegalAccess { address: pc0 })
                    &&& *final(self) == *old(self)
                } else if !readable(pc1) {
                    &&& r == Err::<u16, CpuError>(CpuError::IllegalAccess { address: pc1 })
                    &&& *final(self) == (CPU {
                        reg: Registers { pc: pc1, ..old(self).reg },
                        ..*old(self)
                    })
                } else {
                    &&& r == Ok::<u16, CpuError>(
                        spec_merge(memory.spec_read(pc1), memory.spec_read(pc0)),
                    )
                    &&& *final(self) == (CPU {
                        reg: Registers { pc: spec_inc16(pc1), ..old(self).reg },
                        ..*old(self)
                    })
                }
            }),
    {
        let lower_byte = match self.fetch_instruction(memory) {
            Ok(value) => value,
            Err(e) => {
                return Err(e);
            },
        };
        let upper_byte = match self.fetch_instruction(memory) {
            Ok(value) => value,
            Err(e) => {
                return Err(e);
            },
        };
        Ok(upper_byte as u16 * 256 + lower_byte as u16)
    }

    /// Fetch an 8-bit immediate, advancing the program counter past it.
    pub fn fetch_n8(&mut self, memory: &Memory) -> (r: Result<u8, CpuError>)
        requires
            memory.well_formed(),
        ensures
            readable(old(self).reg.pc) ==> {
                &&& r == Ok::<u8, CpuError>(memory.spec_read(old(self).reg.pc))
                &&& *final(self) == (CPU {
                    reg: Registers { pc: spec_inc16(old(self).reg.pc), ..old(self).reg },
                    ..*old(self)
                })
            },
            !readable(old(self).reg.pc) ==> {
                &&& r == Err::<u8, CpuError>(
                    CpuError::IllegalAccess { address: old(self).reg.pc },
                )
                &&& *final(self) == *old(self)
            },
    {
        self.fetch_instruction(memory)
    }

    /// Fetch the byte at the program counter, match it top-to-bottom
    /// against the ordered decode templates, fetch the immediates the
    /// matched instruction needs, dispatch to its handler and return its
    /// cycle cost; a conditional jump not taken returns the smaller cost.
    /// A byte matching no template is the illegal-opcode condition,
    /// carrying the byte and the counter it was fetched at. A pending
    /// enable-interrupts latch is applied once the instruction completes.
    /// A halted CPU fetches nothing and idles for one cycle.
    pub fn execute_next_instruction(&mut self, memory: &mut Memory) -> (r: Result<i32, CpuError>)
        requires
            old(memory).well_formed(),
        ensures
            final(memory).well_formed(),
            final(self).reg.f & 0x0f == old(self).reg.f & 0x0f,
            r matches Ok(cycles) ==> 1 <= cycles <= 4,
            old(self).halted ==> r == Ok::<i32, CpuError>(1) && *final(self) == *old(self)
                && *final(memory) == *old(memory),
            (!old(self).halted && !readable(old(self).reg.pc)) ==> r == Err::<i32, CpuError>(
                CpuError::IllegalAccess { address: old(self).reg.pc },
            ) && *final(self) == *old(self) && *final(memory) == *old(memory),
            (!old(self).halted && readable(old(self).reg.pc) && !spec_matches_any_template(
                old(memory).spec_read(old(self).reg.pc),
            )) ==> r == Err::<i32, CpuError>(
                CpuError::IllegalOpcode {
                    opcode: old(memory).spec_read(old(self).reg.pc),
                    pc: old(self).reg.pc,
                },
            ),
            (!old(self).halted && readable(old(self).reg.pc)) ==> ({
                let pc0 = old(self).reg.pc;
                let op = old(memory).spec_read(pc0);
                let pc1 = spec_inc16(pc0);
                let pc2 = spec_inc16(pc1);
                let pc3 = spec_inc16(pc2);
                let imm_lo = old(memory).spec_read(pc1);
                let imm_hi = old(memory).spec_read(pc2);
                let n16 = spec_merge(imm_hi, imm_lo);
                let hl = spec_merge(old(self).reg.h, old(self).reg.l);
                if spec_is_jp_n16(op) {
                    if !readable(pc1) {
                        &&& r == Err::<i32, CpuError>(CpuError::IllegalAccess { address: pc1 })
                        &&& final(self).reg == (Registers { pc: pc1, ..old(self).reg })
                        &&& final(self).control_eq(*old(self))
                        &&& *final(memory) == *old(memory)
                    } else if !readable(pc2) {
                        &&& r == Err::<i32, CpuError>(CpuError::IllegalAccess { address: pc2 })
                        &&& final(self).reg == (Registers { pc: pc2, ..old(self).reg })
                        &&& final(self).control_eq(*old(self))
                        &&& *final(memory) == *old(memory)
                    } else {
                        &&& r == Ok::<i32, CpuError>(4)
                        &&& final(self).reg == (Registers { pc: n16, ..old(self).reg })
                        &&& spec_ime_applied(*old(self), *final(self))
                        &&& *final(memory) == *old(memory)
                    }
                } else if spec_is_ld_r8_n8(op) {
                    let code = (op & 0x38) >> 3;
                    if !readable(pc1) {
                        &&& r == Err::<i32, CpuError>(CpuError::IllegalAccess { address: pc1 })
                        &&& final(self).reg == (Registers { pc: pc1, ..old(self).reg })
                        &&& final(self).control_eq(*old(self))
                        &&& *final(memory) == *old(memory)
                    } else if code != 6 {
                        &&& r == Ok::<i32, CpuError>(2)
                        &&& final(self).reg == spec_set_r8(
                            Registers { pc: pc2, ..old(self).reg },
                            code,
                            imm_lo,
                        )
                        &&& spec_ime_applied(*old(self), *final(self))
                        &&& *final(memory) == *old(memory)
                    } else if writable(hl) {
                        &&& r == Ok::<i32, CpuError>(2)
                        &&& final(self).reg == (Registers { pc: pc2, ..old(self).reg })
                        &&& spec_ime_applied(*old(self), *final(self))
                        &&& final(memory).spec_read(hl) == imm_lo
                        &&& forall|a: u16|
                            a != hl ==> final(memory).spec_read(a) == old(memory).spec_read(a)
                    } else {
                        &&& r == Err::<i32, CpuError>(CpuError::IllegalAccess { address: hl })
                        &&& final(self).reg == (Registers { pc: pc2, ..old(self).reg })
                        &&& final(self).control_eq(*old(self))
                        &&& *final(memory) == *old(memory)
                    }
                } else if spec_is_ld_n16_a(op) {
                    if !readable(pc1) {
                        &&& r == Err::<i32, CpuError>(CpuError::IllegalAccess { address: pc1 })
                        &&& final(self).reg == (Registers { pc: pc1, ..old(self).reg })
                        &&& final(self).control_eq(*old(self))
                        &&& *final(memory) == *old(memory)
                    } else if !readable(pc2) {
                        &&& r == Err::<i32, CpuError>(CpuError::IllegalAccess { address: pc2 })
                        &&& final(self).reg == (Registers { pc: pc2, ..old(self).reg })
                        &&& final(self).control_eq(*old(self))
                        &&& *final(memory) == *old(memory)
                    } else if writable(n16) {
                        &&& r == Ok::<i32, CpuError>(4)
                        &&& final(self).reg == (Registers { pc: pc3, ..old(self).reg })
                        &&& spec_ime_applied(*old(self), *final(self))
                        &&& final(memory).spec_read(n16) == old(self).reg.a
                        &&& forall|a: u16|
                            a != n16 ==> final(memory).spec_read(a) == old(memory).spec_read(a)
                    } else {
                        &&& r == Err::<i32, CpuError>(CpuError::IllegalAccess { address: n16 })
                        &&& final(self).reg == (Registers { pc: pc3, ..old(self).reg })
                        &&& final(self).control_eq(*old(self))
                        &&& *final(memory) == *old(memory)
                    }
                } else if spec_is_ld_a_n16(op) {
                    if !readable(pc1) {
                        &&& r == Err::<i32, CpuError>(CpuError::IllegalAccess { address: pc1 })
                        &&& final(self).reg == (Registers { pc: pc1, ..old(self).reg })
                        &&& final(self).control_eq(*old(self))
                        &&& *final(memory) == *old(memory)
                    } else if !readable(pc2) {
                        &&& r == Err::<i32, CpuError>(CpuError::IllegalAccess { address: pc2 })
                        &&& final(self).reg == (Registers { pc: pc2, ..old(self).reg })
                        &&& final(self).control_eq(*old(self))
                        &&& *final(memory) == *old(memory)
                    } else if readable(n16) {
                        &&& r == Ok::<i32, CpuError>(4)
                        &&& final(self).reg == (Registers {
                            a: old(memory).spec_read(n16),
                            pc: pc3,
                            ..old(self).reg
                        })
                        &&& spec_ime_applied(*old(self), *final(self))
                        &&& *final(memory) == *old(memory)
                    } else {
                        &&& r == Err::<i32, CpuError>(CpuError::IllegalAccess { address: n16 })
                        &&& final(self).reg == (Registers { pc: pc3, ..old(self).reg })
                        &&& final(self).control_eq(*old(self))
                        &&& *final(memory) == *old(memory)
                    }
                } else if spec_is_cp_n8(op) {
                    if !readable(pc1) {
                        &&& r == Err::<i32, CpuError>(CpuError::IllegalAccess { address: pc1 })
                        &&& final(self).reg == (Registers { pc: pc1, ..old(self).reg })
                        &&& final(self).control_eq(*old(self))
                        &&& *final(memory) == *old(memory)
                    } else {
                        &&& r == Ok::<i32, CpuError>(2)
                        &&& spec_cp_post(
                            Registers { pc: pc2, ..old(self).reg },
                            imm_lo,
                            final(self).reg,
                        )
                        &&& spec_ime_applied(*old(self), *final(self))
                        &&& *final(memory) == *old(memory)
                    }
                } else if spec_is_jp_cc_n16(op) {
                    let taken = spec_condition(old(self).reg, (op & 0x18) >> 3);
                    if !readable(pc1) {
                        &&& r == Err::<i32, CpuError>(CpuError::IllegalAccess { address: pc1 })
                        &&& final(self).reg == (Registers { pc: pc1, ..old(self).reg })
                        &&& final(self).control_eq(*old(self))
                        &&& *final(memory) == *old(memory)
                    } else if !readable(pc2) {
                        &&& r == Err::<i32, CpuError>(CpuError::IllegalAccess { address: pc2 })
                        &&& final(self).reg == (Registers { pc: pc2, ..old(self).reg })
                        &&& final(self).control_eq(*old(self))
                        &&& *final(memory) == *old(memory)
                    } else if taken {
                        &&& r == Ok::<i32, CpuError>(4)
                        &&& final(self).reg == (Registers { pc: n16, ..old(self).reg })
                        &&& spec_ime_applied(*old(self), *final(self))
                        &&& *final(memory) == *old(memory)
                    } else {
                        &&& r == Ok::<i32, CpuError>(1)
                        &&& final(self).reg == (Registers { pc: pc3, ..old(self).reg })
                        &&& spec_ime_applied(*old(self), *final(self))
                        &&& *final(memory) == *old(memory)
                    }
                } else {
                    &&& r == Err::<i32, CpuError>(CpuError::IllegalOpcode { opcode: op, pc: pc0 })
                    &&& final(self).reg == (Registers { pc: pc1, ..old(self).reg })
                    &&& final(self).control_eq(*old(self))
                    &&& *final(memory) == *old(memory)
                }
            }),
    {
        if self.halted {
            return Ok(1);
        }
        let pending = self.set_ime_after_instruction;
        let opcode_pc = self.reg.read_pc();
        let instruction = match self.fetch_instruction(memory) {
            Ok(value) => value,
            Err(e) => {
                return Err(e);
            },
        };
        proof {
            lemma_field_bounds(instruction);
            reveal_strlit("11000011");
            reveal_strlit("00...110");
            reveal_strlit("11101010");
            reveal_strlit("11111010");
            reveal_strlit("11111110");
            reveal_strlit("110..010");
        }
        let cycles: i32;
        if is_match("11000011", instruction) {
            let n16 = match self.fetch_n16(memory) {
                Ok(value) => value,
                Err(e) => {
                    return Err(e);
                },
            };
            self.jp_n16(n16);
            cycles = 4;
        } else if is_match("00...110", instruction) {
            let n8 = match self.fetch_n8(memory) {
                Ok(value) => value,
                Err(e) => {
                    return Err(e);
                },
            };
            let r8 = (instruction & 0b00111000) >> 3;
            match self.ld_r8_n8(memory, r8, n8) {
                Ok(()) => {},
                Err(e) => {
                    return Err(e);
                },
            }
            cycles = 2;
        } else if is_match("11101010", instruction) {
            let n16 = match self.fetch_n16(memory) {
                Ok(value) => value,
                Err(e) => {
                    return Err(e);
                },
            };
            match self.ld_n16_a(memory, n16) {
                Ok(()) => {},
                Err(e) => {
                    return Err(e);
                },
            }
            cycles = 4;
        } else if is_match("11111010", instruction) {
            let n16 = match self.fetch_n16(memory) {
                Ok(value) => value,
                Err(e) => {
                    return Err(e);
                },
            };
            match self.ld_a_n16(memory, n16) {
                Ok(()) => {},
                Err(e) => {
                    return Err(e);
                },
            }
            cycles = 4;
        } else if is_match("11111110", instruction) {
            let n8 = match self.fetch_n8(memory) {
                Ok(value) => value,
                Err(e) => {
                    return Err(e);
                },
            };
            self.cp_a(n8);
            cycles = 2;
        } else if is_match("110..010", instruction) {
            let n16 = match self.fetch_n16(memory) {
                Ok(value) => value,
                Err(e) => {
                    return Err(e);
                },
            };
            if self.resolve_condition((instruction & 0b00011000) >> 3) {
                self.jp_n16(n16);
                cycles = 4;
            } else {
                cycles = 1;
            }
        } else {
            return Err(CpuError::IllegalOpcode { opcode: instruction, pc: opcode_pc });
        }
        if pending {
            self.ime = true;
            self.set_ime_after_instruction = false;
        }
        Ok(cycles)
    }

    /// Increment the pair or stack pointer the 16-bit code names, wrapping
    /// modulo 65536. No flags are affected.
    pub fn inc_r16(&mut self, r16: u8)
        requires
            r16 < 4,
        ensures
            final(self).reg == spec_set_r16(
                old(self).reg,
                r16,
                (((spec_r16_value(old(self).reg, r16) + 1) % 0x10000) as u16),
            ),
            final(self).control_eq(*old(self)),
    {
        let register_value = self.decode_r16(r16);
        let new_value: u16 = if register_value == 0xffff {
            0
        } else {
            register_value + 1
        };
        self.encode_r16(r16, new_value);
    }

    /// Decrement the pair or stack pointer the 16-bit code names, wrapping
    /// modulo 65536. No flags are affected.
    pub fn dec_r16(&mut self, r16: u8)
        requires
            r16 < 4,
        ensures
            final(self).reg == spec_set_r16(
                old(self).reg,
                r16,
                (((spec_r16_value(old(self).reg, r16) + 0xffff) % 0x10000) as u16),
            ),
            final(self).control_eq(*old(self)),
    {
        let register_value = self.decode_r16(r16);
        let new_value: u16 = if register_value == 0 {
            0xffff
        } else {
            register_value - 1
        };
        self.encode_r16(r16, new_value);
    }
}

} // verus!

