use vstd::prelude::*;

use crate::memory::Memory;

verus! {

/// Stepping a non-negative counter by one shifts its division and modulus
/// by a fixed base in the familiar carry pattern: the quotient grows
/// exactly when the remainder was about to wrap.
proof fn lemma_div_mod_step(x: int, m: int)
    requires
        x >= 0,
        m > 0,
    ensures
        (x + 1) / m == x / m + (if x % m == m - 1 {
            1int
        } else {
            0int
        }),
        (x + 1) % m == (if x % m == m - 1 {
            0int
        } else {
            x % m + 1
        }),
{
    vstd::arithmetic::div_mod::lemma_fundamental_div_mod(x, m);
    vstd::arithmetic::div_mod::lemma_mod_bound(x, m);
    let q = x / m;
    let r = x % m;
    if r == m - 1 {
        assert((q + 1) * m + 0 == x + 1) by (nonlinear_arith)
            requires
                x == m * q + r,
                r == m - 1,
        ;
        vstd::arithmetic::div_mod::lemma_fundamental_div_mod_converse(x + 1, m, q + 1, 0);
    } else {
        assert(q * m + (r + 1) == x + 1) by (nonlinear_arith)
            requires
                x == m * q + r,
        ;
        vstd::arithmetic::div_mod::lemma_fundamental_div_mod_converse(x + 1, m, q, r + 1);
    }
}

/// A non-negative count added onto a 64-bit counter, saturating at the
/// counter's ceiling.
pub open spec fn spec_sat_add64(a: u64, b: int) -> u64
    recommends
        b >= 0,
{
    if a + b <= 0xffff_ffff_ffff_ffff {
        ((a + b) as u64)
    } else {
        0xffff_ffff_ffff_ffff
    }
}

/// The video timing unit: a dot accumulator and the current scanline
/// counter, advanced from CPU-reported cycles and kept synchronized with
/// the display refresh. Scanlines 0 to 143 render; 144 to 153 are the
/// vertical blank band; completing scanline 153 ends the frame.
pub struct PPU {
    /// Dots accumulated since the last completed scanline; one scanline
    /// takes 456 dots.
    pub acc: i32,
    /// The scanline the unit is currently on, 0 to 153.
    pub current_scanline: u8,
    /// How many end-of-frame signals have been raised for the external
    /// renderer.
    pub frames: u64,
}

impl PPU {
    /// The accumulator stays below one scanline's worth of dots and the
    /// scanline counter inside the 154-line frame.
    pub open spec fn well_formed(self) -> bool {
        &&& 0 <= self.acc < 456
        &&& self.current_scanline < 154
    }

    pub fn new() -> (r: PPU)
        ensures
            r == (PPU { acc: 0, current_scanline: 0, frames: 0 }),
            r.well_formed(),
    {
        PPU { acc: 0, current_scanline: 0, frames: 0 }
    }

    /// Search the object attribute memory for sprites overlapping the
    /// current line. Fixed duration of 80 dots; may access video RAM.
    fn mode2(&self) {
    }

    /// Transfer the line's pixels to the display. Variable duration; the
    /// rendered output is the external renderer's concern.
    fn mode3(&self) {
    }

    /// Raise the end-of-frame signal for the external renderer: count it,
    /// saturating at the counter's ceiling.
    pub fn draw_frame(&mut self)
        ensures
            *final(self) == (PPU { frames: spec_sat_add64(old(self).frames, 1), ..*old(self) }),
    {
        if self.frames < 0xffff_ffff_ffff_ffff {
            self.frames = self.frames + 1;
        }
    }

    /// Complete one scanline: run object search and pixel transfer on a
    /// rendering line, advance the counter, wrap at 154 raising exactly
    /// one end-of-frame signal, and publish the new counter to the bus.
    fn draw_line(&mut self, memory: &mut Memory)
        requires
            old(self).current_scanline < 154,
            old(memory).well_formed(),
        ensures
            final(memory).well_formed(),
            final(self).current_scanline == (old(self).current_scanline + 1) % 154,
            final(self).frames == spec_sat_add64(
                old(self).frames,
                if old(self).current_scanline == 153 {
                    1int
                } else {
                    0int
                },
            ),
            final(self).acc == old(self).acc,
            final(memory).spec_read(0xff44) == final(self).current_scanline,
            forall|a: u16| a != 0xff44 ==> final(memory).spec_read(a) == old(memory).spec_read(a),
    {
        if self.current_scanline <= 143 {
            self.mode2();
            self.mode3();
        }
        self.current_scanline = self.current_scanline + 1;
        if self.current_scanline == 154 {
            self.draw_frame();
            self.current_scanline = 0;
        }
        memory.set_ly(self.current_scanline);
    }

    /// Advance the unit by a CPU cycle count: accumulate 4 dots per cycle
    /// and, while a full scanline's 456 dots have accumulated, complete one
    /// scanline. Crossing 456 exactly once advances the scanline counter by
    /// exactly one; every 154 completed scanlines raise exactly one
    /// end-of-frame signal and wrap the counter to 0, which is published to
    /// the bus whenever any line completed.
    pub fn step(&mut self, memory: &mut Memory, cycles: i32)
        requires
            old(self).well_formed(),
            old(memory).well_formed(),
            0 <= cycles <= 100000,
        ensures
            final(self).well_formed(),
            final(memory).well_formed(),
            ({
                let total = old(self).acc + 4 * cycles;
                let lines = total / 456;
                &&& final(self).acc == total % 456
                &&& final(self).current_scanline == (old(self).current_scanline + lines) % 154
                &&& final(self).frames == spec_sat_add64(
                    old(self).frames,
                    (old(self).current_scanline + lines) / 154,
                )
                &&& (lines == 0 ==> *final(memory) == *old(memory))
                &&& (lines > 0 ==> final(memory).spec_read(0xff44) == final(self).current_scanline
                    && forall|a: u16|
                    a != 0xff44 ==> final(memory).spec_read(a) == old(memory).spec_read(a))
            }),
    {
        let ghost total: int = old(self).acc + 4 * cycles;
        let ghost scan0: int = old(self).current_scanline as int;
        let ghost frames0: u64 = old(self).frames;
        self.acc = self.acc + 4 * cycles;
        let ghost mut lines_done: int = 0;
        proof {
            vstd::arithmetic::div_mod::lemma_div_pos_is_pos(scan0, 154);
        }
        while self.acc >= 456
            invariant
                scan0 == old(self).current_scanline as int,
                0 <= scan0 < 154,
                total == old(self).acc + 4 * cycles,
                frames0 == old(self).frames,
                0 <= lines_done,
                self.acc == total - 456 * lines_done,
                self.acc >= 0,
                total <= 456 + 400000,
                self.current_scanline == (scan0 + lines_done) % 154,
                self.frames == spec_sat_add64(frames0, (scan0 + lines_done) / 154),
                self.current_scanline < 154,
                memory.well_formed(),
                lines_done == 0 ==> *memory == *old(memory),
                lines_done > 0 ==> memory.spec_read(0xff44) == self.current_scanline && forall|
                    a: u16,
                |
                    a != 0xff44 ==> memory.spec_read(a) == old(memory).spec_read(a),
            decreases self.acc,
        {
            self.acc = self.acc - 456;
            proof {
                vstd::arithmetic::div_mod::lemma_div_pos_is_pos(scan0 + lines_done, 154);
                lemma_div_mod_step(scan0 + lines_done, 154);
            }
            self.draw_line(memory);
            proof {
                lines_done = lines_done + 1;
            }
        }
        proof {
            vstd::arithmetic::div_mod::lemma_fundamental_div_mod_converse(
                total,
                456,
                lines_done,
                self.acc as int,
            );
        }
    }
}

} // verus!
