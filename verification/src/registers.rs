use vstd::prelude::*;

verus! {

/// Merge a high and a low byte into one 16-bit value, high byte first.
pub open spec fn spec_merge(hi: u8, lo: u8) -> u16 {
    (hi * 256 + lo) as u16
}

/// The high byte of the big-endian decomposition of a 16-bit value.
pub open spec fn spec_hi(v: u16) -> u8 {
    (v / 256) as u8
}

/// The low byte of the big-endian decomposition of a 16-bit value.
pub open spec fn spec_lo(v: u16) -> u8 {
    (v % 256) as u8
}

/// Splitting a 16-bit value into high and low bytes and merging them again
/// gives the value back, and merging two bytes puts each byte where the
/// big-endian decomposition finds it afterwards: the register pairs
/// round-trip through their merged 16-bit views.
pub proof fn lemma_pair_round_trip(hi: u8, lo: u8, v: u16)
    ensures
        spec_merge(spec_hi(v), spec_lo(v)) == v,
        spec_hi(spec_merge(hi, lo)) == hi,
        spec_lo(spec_merge(hi, lo)) == lo,
{
    assert(spec_merge(spec_hi(v), spec_lo(v)) == v) by {
        assert(v == 256 * (v / 256) + v % 256) by {
            vstd::arithmetic::div_mod::lemma_fundamental_div_mod(v as int, 256);
        }
    }
    assert((hi * 256 + lo) / 256 == hi && (hi * 256 + lo) % 256 == lo) by {
        vstd::arithmetic::div_mod::lemma_fundamental_div_mod_converse(
            hi * 256 + lo,
            256,
            hi as int,
            lo as int,
        );
    }
}

/// Every flag update rewrites a single bit of the flag byte: setting or
/// clearing one of the four flag bits leaves the other three flag bits and
/// the low nibble as they were.
proof fn lemma_flag_bits(f: u8)
    by (bit_vector)
    ensures
        (f | 0x80) & 0x80 != 0 && (f & 0x7f) & 0x80 == 0,
        (f | 0x80) & 0x40 == f & 0x40 && (f & 0x7f) & 0x40 == f & 0x40,
        (f | 0x80) & 0x20 == f & 0x20 && (f & 0x7f) & 0x20 == f & 0x20,
        (f | 0x80) & 0x10 == f & 0x10 && (f & 0x7f) & 0x10 == f & 0x10,
        (f | 0x80) & 0x0f == f & 0x0f && (f & 0x7f) & 0x0f == f & 0x0f,
        (f | 0x40) & 0x40 != 0 && (f & 0xbf) & 0x40 == 0,
        (f | 0x40) & 0x80 == f & 0x80 && (f & 0xbf) & 0x80 == f & 0x80,
        (f | 0x40) & 0x20 == f & 0x20 && (f & 0xbf) & 0x20 == f & 0x20,
        (f | 0x40) & 0x10 == f & 0x10 && (f & 0xbf) & 0x10 == f & 0x10,
        (f | 0x40) & 0x0f == f & 0x0f && (f & 0xbf) & 0x0f == f & 0x0f,
        (f | 0x20) & 0x20 != 0 && (f & 0xdf) & 0x20 == 0,
        (f | 0x20) & 0x80 == f & 0x80 && (f & 0xdf) & 0x80 == f & 0x80,
        (f | 0x20) & 0x40 == f & 0x40 && (f & 0xdf) & 0x40 == f & 0x40,
        (f | 0x20) & 0x10 == f & 0x10 && (f & 0xdf) & 0x10 == f & 0x10,
        (f | 0x20) & 0x0f == f & 0x0f && (f & 0xdf) & 0x0f == f & 0x0f,
        (f | 0x10) & 0x10 != 0 && (f & 0xef) & 0x10 == 0,
        (f | 0x10) & 0x80 == f & 0x80 && (f & 0xef) & 0x80 == f & 0x80,
        (f | 0x10) & 0x40 == f & 0x40 && (f & 0xef) & 0x40 == f & 0x40,
        (f | 0x10) & 0x20 == f & 0x20 && (f & 0xef) & 0x20 == f & 0x20,
        (f | 0x10) & 0x0f == f & 0x0f && (f & 0xef) & 0x0f == f & 0x0f,
{
}

/// The register file: eight 8-bit registers (A and the flag byte F, plus the
/// pairs B/C, D/E, H/L), the 16-bit stack pointer and the program counter.
/// F is never addressed as data; it is reached only through the four named
/// flags packed in its top four bits (bit 7 Zero, 6 Subtraction, 5 Half-Carry,
/// 4 Carry), and its low nibble is always zero.
pub struct Registers {
    pub a: u8,
    pub f: u8,
    pub b: u8,
    pub c: u8,
    pub d: u8,
    pub e: u8,
    pub h: u8,
    pub l: u8,
    pub sp: u16,
    pub pc: u16,
}

impl Registers {
    /// The flag byte only ever carries the four flag bits: its low nibble
    /// stays zero.
    pub open spec fn well_formed(self) -> bool {
        self.f & 0x0f == 0
    }

    pub open spec fn zero_flag(self) -> bool {
        self.f & 0x80 != 0
    }

    pub open spec fn subtraction_flag(self) -> bool {
        self.f & 0x40 != 0
    }

    pub open spec fn half_carry_flag(self) -> bool {
        self.f & 0x20 != 0
    }

    pub open spec fn carry_flag(self) -> bool {
        self.f & 0x10 != 0
    }

    /// Everything but register A and the flag byte of `self` agrees with
    /// `other`.
    pub open spec fn eq_except_a(self, other: Registers) -> bool {
        &&& self.b == other.b
        &&& self.c == other.c
        &&& self.d == other.d
        &&& self.e == other.e
        &&& self.h == other.h
        &&& self.l == other.l
        &&& self.sp == other.sp
        &&& self.pc == other.pc
    }

    /// Everything but the pair H/L and the flag byte of `self` agrees with
    /// `other`.
    pub open spec fn eq_except_hl(self, other: Registers) -> bool {
        &&& self.a == other.a
        &&& self.b == other.b
        &&& self.c == other.c
        &&& self.d == other.d
        &&& self.e == other.e
        &&& self.sp == other.sp
        &&& self.pc == other.pc
    }

    /// Everything but the stack pointer and the flag byte of `self` agrees
    /// with `other`.
    pub open spec fn eq_except_sp(self, other: Registers) -> bool {
        &&& self.a == other.a
        &&& self.b == other.b
        &&& self.c == other.c
        &&& self.d == other.d
        &&& self.e == other.e
        &&& self.h == other.h
        &&& self.l == other.l
        &&& self.pc == other.pc
    }

    /// Everything but the flag byte of `self` agrees with `other`.
    pub open spec fn non_flags_eq(self, other: Registers) -> bool {
        &&& self.a == other.a
        &&& self.b == other.b
        &&& self.c == other.c
        &&& self.d == other.d
        &&& self.e == other.e
        &&& self.h == other.h
        &&& self.l == other.l
        &&& self.sp == other.sp
        &&& self.pc == other.pc
    }

    pub fn new() -> (r: Registers)
        ensures
            r == (Registers { a: 0, f: 0, b: 0, c: 0, d: 0, e: 0, h: 0, l: 0, sp: 0, pc: 0 }),
            r.well_formed(),
            !r.zero_flag(),
            !r.subtraction_flag(),
            !r.half_carry_flag(),
            !r.carry_flag(),
    {
        let r = Registers { a: 0, f: 0, b: 0, c: 0, d: 0, e: 0, h: 0, l: 0, sp: 0, pc: 0 };
        proof {
            assert(0u8 & 0x0f == 0 && 0u8 & 0x80 == 0 && 0u8 & 0x40 == 0 && 0u8 & 0x20 == 0 && 0u8
                & 0x10 == 0) by (bit_vector);
        }
        r
    }

    fn merge_to_16_bit(first: u8, second: u8) -> (r: u16)
        ensures
            r == spec_merge(first, second),
    {
        first as u16 * 256 + second as u16
    }

    pub fn write_a(&mut self, val: u8)
        ensures
            *final(self) == (Registers { a: val, ..*old(self) }),
    {
        self.a = val;
    }

    pub fn write_b(&mut self, val: u8)
        ensures
            *final(self) == (Registers { b: val, ..*old(self) }),
    {
        self.b = val;
    }

    pub fn write_c(&mut self, val: u8)
        ensures
            *final(self) == (Registers { c: val, ..*old(self) }),
    {
        self.c = val;
    }

    pub fn write_d(&mut self, val: u8)
        ensures
            *final(self) == (Registers { d: val, ..*old(self) }),
    {
        self.d = val;
    }

    pub fn write_e(&mut self, val: u8)
        ensures
            *final(self) == (Registers { e: val, ..*old(self) }),
    {
        self.e = val;
    }

    pub fn write_h(&mut self, val: u8)
        ensures
            *final(self) == (Registers { h: val, ..*old(self) }),
    {
        self.h = val;
    }

    pub fn write_l(&mut self, val: u8)
        ensures
            *final(self) == (Registers { l: val, ..*old(self) }),
    {
        self.l = val;
    }

    /// A merged-pair write splits the 16-bit value big-endian-style: the high
    /// byte lands in the high register, the low byte in the low register.
    pub fn write_bc(&mut self, val: u16)
        ensures
            *final(self) == (Registers { b: spec_hi(val), c: spec_lo(val), ..*old(self) }),
    {
        self.b = (val / 256) as u8;
        self.c = (val % 256) as u8;
    }

    pub fn write_de(&mut self, val: u16)
        ensures
            *final(self) == (Registers { d: spec_hi(val), e: spec_lo(val), ..*old(self) }),
    {
        self.d = (val / 256) as u8;
        self.e = (val % 256) as u8;
    }

    pub fn write_hl(&mut self, val: u16)
        ensures
            *final(self) == (Registers { h: spec_hi(val), l: spec_lo(val), ..*old(self) }),
    {
        self.h = (val / 256) as u8;
        self.l = (val % 256) as u8;
    }

    pub fn write_sp(&mut self, value: u16)
        ensures
            *final(self) == (Registers { sp: value, ..*old(self) }),
    {
        self.sp = value;
    }

    pub fn write_pc(&mut self, value: u16)
        ensures
            *final(self) == (Registers { pc: value, ..*old(self) }),
    {
        self.pc = value;
    }

    /// Advance the program counter by one, wrapping at the end of the
    /// address space.
    pub fn inc_pc(&mut self)
        ensures
            *final(self) == (Registers {
                pc: ((old(self).pc + 1) % 0x10000) as u16,
                ..*old(self)
            }),
    {
        if self.pc == 0xffff {
            self.pc = 0;
        } else {
            self.pc = self.pc + 1;
        }
    }

    pub fn read_a(&self) -> (r: u8)
        ensures
            r == self.a,
    {
        self.a
    }

    pub fn read_b(&self) -> (r: u8)
        ensures
            r == self.b,
    {
        self.b
    }

    pub fn read_c(&self) -> (r: u8)
        ensures
            r == self.c,
    {
        self.c
    }

    pub fn read_d(&self) -> (r: u8)
        ensures
            r == self.d,
    {
        self.d
    }

    pub fn read_e(&self) -> (r: u8)
        ensures
            r == self.e,
    {
        self.e
    }

    pub fn read_h(&self) -> (r: u8)
        ensures
            r == self.h,
    {
        self.h
    }

    pub fn read_l(&self) -> (r: u8)
        ensures
            r == self.l,
    {
        self.l
    }

    /// A merged-pair read recombines the two bytes big-endian-style: the high
    /// register forms bits 8 to 15.
    pub fn read_hl(&self) -> (r: u16)
        ensures
            r == spec_merge(self.h, self.l),
    {
        Self::merge_to_16_bit(self.h, self.l)
    }

    pub fn read_bc(&self) -> (r: u16)
        ensures
            r == spec_merge(self.b, self.c),
    {
        Self::merge_to_16_bit(self.b, self.c)
    }

    pub fn read_de(&self) -> (r: u16)
        ensures
            r == spec_merge(self.d, self.e),
    {
        Self::merge_to_16_bit(self.d, self.e)
    }

    pub fn read_sp(&self) -> (r: u16)
        ensures
            r == self.sp,
    {
        self.sp
    }

    pub fn read_pc(&self) -> (r: u16)
        ensures
            r == self.pc,
    {
        self.pc
    }

    pub fn read_zero_flag(&self) -> (r: bool)
        ensures
            r == self.zero_flag(),
    {
        (self.f & 0x80) != 0
    }

    pub fn read_subtraction_flag(&self) -> (r: bool)
        ensures
            r == self.subtraction_flag(),
    {
        (self.f & 0x40) != 0
    }

    pub fn read_half_carry_flag(&self) -> (r: bool)
        ensures
            r == self.half_carry_flag(),
    {
        (self.f & 0x20) != 0
    }

    pub fn read_carry_flag(&self) -> (r: bool)
        ensures
            r == self.carry_flag(),
    {
        (self.f & 0x10) != 0
    }

    pub fn set_zero_flag(&mut self, value: bool)
        ensures
            final(self).zero_flag() == value,
            final(self).subtraction_flag() == old(self).subtraction_flag(),
            final(self).half_carry_flag() == old(self).half_carry_flag(),
            final(self).carry_flag() == old(self).carry_flag(),
            final(self).f & 0x0f == old(self).f & 0x0f,
            final(self).non_flags_eq(*old(self)),
    {
        proof {
            lemma_flag_bits(self.f);
        }
        if value {
            self.f = self.f | 0x80;
        } else {
            self.f = self.f & 0x7f;
        }
    }

    pub fn set_subtraction_flag(&mut self, value: bool)
        ensures
            final(self).subtraction_flag() == value,
            final(self).zero_flag() == old(self).zero_flag(),
            final(self).half_carry_flag() == old(self).half_carry_flag(),
            final(self).carry_flag() == old(self).carry_flag(),
            final(self).f & 0x0f == old(self).f & 0x0f,
            final(self).non_flags_eq(*old(self)),
    {
        proof {
            lemma_flag_bits(self.f);
        }
        if value {
            self.f = self.f | 0x40;
        } else {
            self.f = self.f & 0xbf;
        }
    }

    pub fn set_half_carry_flag(&mut self, value: bool)
        ensures
            final(self).half_carry_flag() == value,
            final(self).zero_flag() == old(self).zero_flag(),
            final(self).subtraction_flag() == old(self).subtraction_flag(),
            final(self).carry_flag() == old(self).carry_flag(),
            final(self).f & 0x0f == old(self).f & 0x0f,
            final(self).non_flags_eq(*old(self)),
    {
        proof {
            lemma_flag_bits(self.f);
        }
        if value {
            self.f = self.f | 0x20;
        } else {
            self.f = self.f & 0xdf;
        }
    }

    pub fn set_carry_flag(&mut self, value: bool)
        ensures
            final(self).carry_flag() == value,
            final(self).zero_flag() == old(self).zero_flag(),
            final(self).subtraction_flag() == old(self).subtraction_flag(),
            final(self).half_carry_flag() == old(self).half_carry_flag(),
            final(self).f & 0x0f == old(self).f & 0x0f,
            final(self).non_flags_eq(*old(self)),
    {
        proof {
            lemma_flag_bits(self.f);
        }
        if value {
            self.f = self.f | 0x10;
        } else {
            self.f = self.f & 0xef;
        }
    }
}

} // verus!
