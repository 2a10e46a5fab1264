//! The LR35902-compatible CPU register file and its flag algebra.
//!
//! Eight 8-bit registers, paired big-endian into AF, BC, DE and HL; the flag
//! register F keeps Zero (bit 7), Subtract (bit 6), Half-carry (bit 5) and
//! Carry (bit 4) and its low nibble is always zero.

use vstd::prelude::*;
use crate::mmu::{Mmu, MmuView};

verus! {

/// Zero flag: bit 7 of F.
pub open spec fn flag_z(f: u8) -> bool {
    f & 0x80 != 0
}

/// Subtract flag: bit 6 of F.
pub open spec fn flag_n(f: u8) -> bool {
    f & 0x40 != 0
}

/// Half-carry flag: bit 5 of F.
pub open spec fn flag_h(f: u8) -> bool {
    f & 0x20 != 0
}

/// Carry flag: bit 4 of F.
pub open spec fn flag_c(f: u8) -> bool {
    f & 0x10 != 0
}

/// The low nibble of F never holds data.
pub open spec fn flags_low_clear(f: u8) -> bool {
    f & 0x0F == 0
}

/// The 16-bit value formed from a high and a low byte.
pub open spec fn word16(hi: u8, lo: u8) -> u16 {
    (hi * 0x100 + lo) as u16
}

/// 8-bit value of `x`, which must lie within one period of the byte range.
pub open spec fn byte_wrap(x: int) -> u8 {
    if x >= 0x100 {
        (x - 0x100) as u8
    } else if x < 0 {
        (x + 0x100) as u8
    } else {
        x as u8
    }
}

/// 16-bit value of `x`, which must lie within one period of the word range.
pub open spec fn word_wrap(x: int) -> u16 {
    if x >= 0x10000 {
        (x - 0x10000) as u16
    } else if x < 0 {
        (x + 0x10000) as u16
    } else {
        x as u16
    }
}

/// 64-bit value of `x`, which must lie within one period of the u64 range.
pub open spec fn qword_wrap(x: int) -> u64 {
    if x > u64::MAX {
        (x - 0x1_0000_0000_0000_0000) as u64
    } else {
        x as u64
    }
}

/// 64-bit value of `x` reduced modulo the counter width, for any `x`.
pub open spec fn cycle_wrap(x: int) -> u64 {
    (x % 0x1_0000_0000_0000_0000) as u64
}

/// Within two periods, the one-period wrap agrees with modular reduction.
pub proof fn lemma_qword_wrap_mod(x: int)
    requires
        0 <= x < 0x2_0000_0000_0000_0000,
    ensures
        qword_wrap(x) == cycle_wrap(x),
{
    if x > u64::MAX {
        vstd::arithmetic::div_mod::lemma_mod_sub_multiples_vanish(x, 0x1_0000_0000_0000_0000);
        vstd::arithmetic::div_mod::lemma_small_mod(
            (x - 0x1_0000_0000_0000_0000) as nat,
            0x1_0000_0000_0000_0000,
        );
    } else {
        vstd::arithmetic::div_mod::lemma_small_mod(x as nat, 0x1_0000_0000_0000_0000);
    }
}

/// Accumulating one more step under the counter wrap is reduction of the
/// whole sum.
pub proof fn lemma_cycle_wrap_step(base: int, total: int, c: int)
    requires
        base >= 0,
        total >= 0,
        0 <= c <= 0xFF,
    ensures
        qword_wrap(cycle_wrap(base + total) + c) == cycle_wrap(base + total + c),
{
    let m: int = 0x1_0000_0000_0000_0000;
    vstd::arithmetic::div_mod::lemma_mod_division_less_than_divisor(base + total, m);
    lemma_qword_wrap_mod(cycle_wrap(base + total) + c);
    vstd::arithmetic::div_mod::lemma_small_mod(c as nat, m as nat);
    vstd::arithmetic::div_mod::lemma_add_mod_noop(base + total, c, m);
}

/// One left rotation of a byte: bit 7 moves into bit 0.
pub open spec fn rlc_byte(x: u8) -> u8 {
    (x << 1) | (x >> 7)
}

/// A masked byte never exceeds its mask.
pub proof fn lemma_mask_le(x: u8, m: u8)
    ensures
        x & m <= m,
{
    assert(x & m <= m) by (bit_vector);
}

/// A masked word never exceeds its mask.
pub proof fn lemma_mask16_le(x: u16, m: u16)
    ensures
        x & m <= m,
{
    assert(x & m <= m) by (bit_vector);
}

/// Shift-or composition of two bytes equals the arithmetic composition.
pub proof fn lemma_compose16(hi: u8, lo: u8)
    ensures
        (((hi as u16) << 8) | (lo as u16)) == word16(hi, lo),
{
    assert((((hi as u16) << 8) | (lo as u16)) == (hi * 0x100 + lo) as u16) by (bit_vector);
}

/// Splitting a pair value into halves and composing them again returns the
/// value; for AF the stored low half is masked to its high nibble.
pub proof fn lemma_pair_round_trip(v: u16)
    ensures
        word16((v >> 8) as u8, (v & 0xFF) as u8) == v,
        word16((v >> 8) as u8, (v & 0xF0) as u8) == v & 0xFFF0,
{
    assert(((v >> 8) as u8) * 0x100 + ((v & 0xFF) as u8) == v) by (bit_vector);
    assert((((v >> 8) as u8) * 0x100 + ((v & 0xF0) as u8)) as u16 == v & 0xFFF0) by (bit_vector);
}

/// Rotating a byte left eight times returns the byte itself: the register
/// round trip behind repeated RLC, stated modulo flag state.
pub proof fn lemma_rotate_left_eight_identity(x: u8)
    ensures
        rlc_byte(rlc_byte(rlc_byte(rlc_byte(rlc_byte(rlc_byte(rlc_byte(rlc_byte(x)))))))) == x,
{
    assert(rlc_byte(rlc_byte(rlc_byte(rlc_byte(rlc_byte(rlc_byte(rlc_byte(rlc_byte(x))))))))
        == x) by (bit_vector);
}

/// The CPU register file and interrupt bookkeeping.
pub struct Cpu {
    pub a: u8,
    pub b: u8,
    pub c: u8,
    pub d: u8,
    pub e: u8,
    pub f: u8,
    pub h: u8,
    pub l: u8,
    pub sp: u16,
    pub pc: u16,
    /// Set by HALT; while set the clock advances without fetching.
    pub halted: bool,
    /// EI's one-instruction delay: IME turns on after the next instruction.
    pub interrupt_enable: bool,
    /// Interrupt master enable.
    pub ime: bool,
    /// Set when an illegal opcode locked the bus; the CPU then only idles.
    pub fatal: bool,
    /// Cumulative T-cycle counter.
    pub cycles: u64,
}

impl Cpu {
    /// The flag register carries no data in its low nibble.
    pub open spec fn wf(self) -> bool {
        flags_low_clear(self.f)
    }

    pub fn new() -> (r: Cpu)
        ensures
            r == (Cpu {
                a: 0u8,
                b: 0u8,
                c: 0u8,
                d: 0u8,
                e: 0u8,
                f: 0u8,
                h: 0u8,
                l: 0u8,
                sp: 0u16,
                pc: 0u16,
                halted: false,
                interrupt_enable: true,
                ime: false,
                fatal: false,
                cycles: 0u64,
            }),
            r.wf(),
    {
        proof {
            assert(0u8 & 0x0F == 0) by (bit_vector);
        }
        Cpu {
            a: 0,
            b: 0,
            c: 0,
            d: 0,
            e: 0,
            f: 0,
            h: 0,
            l: 0,
            sp: 0,
            pc: 0,
            halted: false,
            interrupt_enable: true,
            ime: false,
            fatal: false,
            cycles: 0,
        }
    }

    // Register pairs: big-endian composition of two 8-bit halves.

    pub fn get_af(&self) -> (r: u16)
        ensures
            r == word16(self.a, self.f),
    {
        proof {
            lemma_compose16(self.a, self.f);
        }
        (self.a as u16) << 8 | self.f as u16
    }

    /// The stored flag half keeps only its high nibble.
    pub fn set_af(&mut self, value: u16)
        ensures
            *final(self) == (Cpu { a: (value >> 8) as u8, f: (value & 0xF0) as u8, ..*old(self) }),
            final(self).wf(),
    {
        self.a = (value >> 8) as u8;
        self.f = (value & 0xF0) as u8;
        proof {
            assert(((value & 0xF0) as u8) & 0x0F == 0) by (bit_vector);
        }
    }

    pub fn get_bc(&self) -> (r: u16)
        ensures
            r == word16(self.b, self.c),
    {
        proof {
            lemma_compose16(self.b, self.c);
        }
        (self.b as u16) << 8 | self.c as u16
    }

    pub fn set_bc(&mut self, value: u16)
        ensures
            *final(self) == (Cpu { b: (value >> 8) as u8, c: (value & 0xFF) as u8, ..*old(self) }),
    {
        self.b = (value >> 8) as u8;
        self.c = (value & 0xFF) as u8;
    }

    pub fn get_de(&self) -> (r: u16)
        ensures
            r == word16(self.d, self.e),
    {
        proof {
            lemma_compose16(self.d, self.e);
        }
        (self.d as u16) << 8 | self.e as u16
    }

    pub fn set_de(&mut self, value: u16)
        ensures
            *final(self) == (Cpu { d: (value >> 8) as u8, e: (value & 0xFF) as u8, ..*old(self) }),
    {
        self.d = (value >> 8) as u8;
        self.e = (value & 0xFF) as u8;
    }

    pub fn get_hl(&self) -> (r: u16)
        ensures
            r == word16(self.h, self.l),
    {
        proof {
            lemma_compose16(self.h, self.l);
        }
        (self.h as u16) << 8 | self.l as u16
    }

    pub fn set_hl(&mut self, value: u16)
        ensures
            *final(self) == (Cpu { h: (value >> 8) as u8, l: (value & 0xFF) as u8, ..*old(self) }),
    {
        self.h = (value >> 8) as u8;
        self.l = (value & 0xFF) as u8;
    }

    // Flag accessors: each setter touches exactly its own bit.

    pub fn set_f_carry(&mut self, value: bool)
        ensures
            flag_c(final(self).f) == value,
            flag_z(final(self).f) == flag_z(old(self).f),
            flag_n(final(self).f) == flag_n(old(self).f),
            flag_h(final(self).f) == flag_h(old(self).f),
            final(self).f & 0x0F == old(self).f & 0x0F,
            *final(self) == (Cpu { f: final(self).f, ..*old(self) }),
    {
        let f0 = self.f;
        if value {
            self.f = f0 | 0x10;
        } else {
            self.f = f0 & 0xEF;
        }
        proof {
            assert((f0 | 0x10) & 0x80 == f0 & 0x80 && (f0 | 0x10) & 0x40 == f0 & 0x40
                && (f0 | 0x10) & 0x20 == f0 & 0x20 && (f0 | 0x10) & 0x10 != 0
                && (f0 | 0x10) & 0x0F == f0 & 0x0F && (f0 & 0xEF) & 0x80 == f0 & 0x80
                && (f0 & 0xEF) & 0x40 == f0 & 0x40 && (f0 & 0xEF) & 0x20 == f0 & 0x20
                && (f0 & 0xEF) & 0x10 == 0 && (f0 & 0xEF) & 0x0F == f0 & 0x0F) by (bit_vector);
        }
    }

    pub fn set_f_negative(&mut self, value: bool)
        ensures
            flag_n(final(self).f) == value,
            flag_z(final(self).f) == flag_z(old(self).f),
            flag_h(final(self).f) == flag_h(old(self).f),
            flag_c(final(self).f) == flag_c(old(self).f),
            final(self).f & 0x0F == old(self).f & 0x0F,
            *final(self) == (Cpu { f: final(self).f, ..*old(self) }),
    {
        let f0 = self.f;
        if value {
            self.f = f0 | 0x40;
        } else {
            self.f = f0 & 0xBF;
        }
        proof {
            assert((f0 | 0x40) & 0x80 == f0 & 0x80 && (f0 | 0x40) & 0x40 != 0
                && (f0 | 0x40) & 0x20 == f0 & 0x20 && (f0 | 0x40) & 0x10 == f0 & 0x10
                && (f0 | 0x40) & 0x0F == f0 & 0x0F && (f0 & 0xBF) & 0x80 == f0 & 0x80
                && (f0 & 0xBF) & 0x40 == 0 && (f0 & 0xBF) & 0x20 == f0 & 0x20
                && (f0 & 0xBF) & 0x10 == f0 & 0x10 && (f0 & 0xBF) & 0x0F == f0 & 0x0F)
                by (bit_vector);
        }
    }

    pub fn set_f_half_carry(&mut self, value: bool)
        ensures
            flag_h(final(self).f) == value,
            flag_z(final(self).f) == flag_z(old(self).f),
            flag_n(final(self).f) == flag_n(old(self).f),
            flag_c(final(self).f) == flag_c(old(self).f),
            final(self).f & 0x0F == old(self).f & 0x0F,
            *final(self) == (Cpu { f: final(self).f, ..*old(self) }),
    {
        let f0 = self.f;
        if value {
            self.f = f0 | 0x20;
        } else {
            self.f = f0 & 0xDF;
        }
        proof {
            assert((f0 | 0x20) & 0x80 == f0 & 0x80 && (f0 | 0x20) & 0x40 == f0 & 0x40
                && (f0 | 0x20) & 0x20 != 0 && (f0 | 0x20) & 0x10 == f0 & 0x10
                && (f0 | 0x20) & 0x0F == f0 & 0x0F && (f0 & 0xDF) & 0x80 == f0 & 0x80
                && (f0 & 0xDF) & 0x40 == f0 & 0x40 && (f0 & 0xDF) & 0x20 == 0
                && (f0 & 0xDF) & 0x10 == f0 & 0x10 && (f0 & 0xDF) & 0x0F == f0 & 0x0F)
                by (bit_vector);
        }
    }

    pub fn set_f_zero(&mut self, value: bool)
        ensures
            flag_z(final(self).f) == value,
            flag_n(final(self).f) == flag_n(old(self).f),
            flag_h(final(self).f) == flag_h(old(self).f),
            flag_c(final(self).f) == flag_c(old(self).f),
            final(self).f & 0x0F == old(self).f & 0x0F,
            *final(self) == (Cpu { f: final(self).f, ..*old(self) }),
    {
        let f0 = self.f;
        if value {
            self.f = f0 | 0x80;
        } else {
            self.f = f0 & 0x7F;
        }
        proof {
            assert((f0 | 0x80) & 0x80 != 0 && (f0 | 0x80) & 0x40 == f0 & 0x40
                && (f0 | 0x80) & 0x20 == f0 & 0x20 && (f0 | 0x80) & 0x10 == f0 & 0x10
                && (f0 | 0x80) & 0x0F == f0 & 0x0F && (f0 & 0x7F) & 0x80 == 0
                && (f0 & 0x7F) & 0x40 == f0 & 0x40 && (f0 & 0x7F) & 0x20 == f0 & 0x20
                && (f0 & 0x7F) & 0x10 == f0 & 0x10 && (f0 & 0x7F) & 0x0F == f0 & 0x0F)
                by (bit_vector);
        }
    }

    pub fn get_f_carry(&self) -> (r: bool)
        ensures
            r == flag_c(self.f),
    {
        self.f & 0x10 > 0
    }

    pub fn get_f_substract(&self) -> (r: bool)
        ensures
            r == flag_n(self.f),
    {
        self.f & 0x40 > 0
    }

    pub fn get_f_half_carry(&self) -> (r: bool)
        ensures
            r == flag_h(self.f),
    {
        self.f & 0x20 > 0
    }

    pub fn get_f_zero(&self) -> (r: bool)
        ensures
            r == flag_z(self.f),
    {
        self.f & 0x80 > 0
    }

    // 8-bit ALU helpers: each states its result and its whole flag effect.

    /// INC: Z and H from the sum, N cleared, C untouched.
    pub fn apply_inc8_with_flags(&mut self, arg: u8) -> (r: u8)
        ensures
            r == byte_wrap(arg + 1),
            flag_z(final(self).f) == (r == 0),
            flag_n(final(self).f) == false,
            flag_h(final(self).f) == ((arg & 0x0F) + 1 > 0x0F),
            flag_c(final(self).f) == flag_c(old(self).f),
            final(self).f & 0x0F == old(self).f & 0x0F,
            *final(self) == (Cpu { f: final(self).f, ..*old(self) }),
    {
        proof {
            lemma_mask_le(arg, 0x0F);
        }
        let value = arg.wrapping_add(1);
        self.set_f_zero(value == 0);
        self.set_f_half_carry((arg & 0x0F) + 1 > 0x0F);
        self.set_f_negative(false);
        value
    }

    /// DEC: Z and H from the difference, N set, C untouched.
    pub fn apply_dec8_with_flags(&mut self, arg: u8) -> (r: u8)
        ensures
            r == byte_wrap(arg - 1),
            flag_z(final(self).f) == (r == 0),
            flag_n(final(self).f) == true,
            flag_h(final(self).f) == ((arg & 0x0F) == 0),
            flag_c(final(self).f) == flag_c(old(self).f),
            final(self).f & 0x0F == old(self).f & 0x0F,
            *final(self) == (Cpu { f: final(self).f, ..*old(self) }),
    {
        let value = arg.wrapping_sub(1);
        self.set_f_zero(value == 0);
        self.set_f_half_carry((arg & 0x0F) == 0);
        self.set_f_negative(true);
        value
    }

    /// Left rotation through or around the carry; the carry flag always
    /// receives the bit shifted out of bit 7.
    pub fn apply_rotate_left_with_flags(&mut self, arg: u8, apply_with_carry: bool) -> (r: u8)
        ensures
            apply_with_carry ==> r == ((arg << 1) | (if flag_c(old(self).f) { 1u8 } else { 0u8 })),
            !apply_with_carry ==> r == rlc_byte(arg),
            flag_c(final(self).f) == (arg & 0x80 != 0),
            flag_z(final(self).f) == (r == 0),
            flag_n(final(self).f) == false,
            flag_h(final(self).f) == false,
            final(self).f & 0x0F == old(self).f & 0x0F,
            *final(self) == (Cpu { f: final(self).f, ..*old(self) }),
    {
        let bit_in: u8 = if apply_with_carry {
            if self.get_f_carry() { 1 } else { 0 }
        } else {
            arg >> 7
        };
        let result: u8 = (arg << 1) | bit_in;
        self.set_f_half_carry(false);
        self.set_f_negative(false);
        self.set_f_zero(result == 0);
        self.set_f_carry(arg & 0x80 != 0);
        proof {
            assert(arg >> 7 == (if arg & 0x80 != 0 { 1u8 } else { 0u8 })) by (bit_vector);
        }
        result
    }

    /// Right rotation through or around the carry; the carry flag always
    /// receives the bit shifted out of bit 0.
    pub fn apply_rotate_right_with_flags(&mut self, arg: u8, apply_with_carry: bool) -> (r: u8)
        ensures
            apply_with_carry ==> r == ((arg >> 1) | (if flag_c(old(self).f) { 0x80u8 } else {
                0u8 })),
            !apply_with_carry ==> r == ((arg >> 1) | (arg << 7)),
            flag_c(final(self).f) == (arg & 0x01 != 0),
            flag_z(final(self).f) == (r == 0),
            flag_n(final(self).f) == false,
            flag_h(final(self).f) == false,
            final(self).f & 0x0F == old(self).f & 0x0F,
            *final(self) == (Cpu { f: final(self).f, ..*old(self) }),
    {
        let bit_in: u8 = if apply_with_carry {
            if self.get_f_carry() { 0x80 } else { 0 }
        } else {
            arg << 7
        };
        let result: u8 = (arg >> 1) | bit_in;
        self.set_f_half_carry(false);
        self.set_f_negative(false);
        self.set_f_zero(result == 0);
        self.set_f_carry(arg & 0x01 != 0);
        result
    }

    /// ADD/ADC: the carry joins the sum only when asked for.
    pub fn apply_add8_with_flags(&mut self, a: u8, b: u8, apply_with_carry: bool) -> (r: u8)
        ensures
            ({
                let cin: int = if apply_with_carry && flag_c(old(self).f) { 1 } else { 0 };
                r == byte_wrap(a + b + cin)
                && flag_h(final(self).f) == ((a & 0x0F) + (b & 0x0F) + cin > 0x0F)
                && flag_c(final(self).f) == (a + b + cin > 0xFF)
            }),
            flag_z(final(self).f) == (r == 0),
            flag_n(final(self).f) == false,
            final(self).f & 0x0F == old(self).f & 0x0F,
            *final(self) == (Cpu { f: final(self).f, ..*old(self) }),
    {
        proof {
            lemma_mask_le(a, 0x0F);
            lemma_mask_le(b, 0x0F);
        }
        let carry: u8 = if apply_with_carry {
            if self.get_f_carry() { 1 } else { 0 }
        } else {
            0
        };
        let result = a.wrapping_add(b).wrapping_add(carry);
        self.set_f_zero(result == 0);
        self.set_f_half_carry((a & 0x0F) + (b & 0x0F) + carry > 0x0F);
        self.set_f_negative(false);
        self.set_f_carry((a as u16) + (b as u16) + (carry as u16) > 0xFF);
        result
    }

    /// SUB/SBC/CP: the carry joins the subtrahend only when asked for.
    pub fn apply_sub8_with_flags(&mut self, a: u8, b: u8, apply_with_carry: bool) -> (r: u8)
        ensures
            ({
                let cin: int = if apply_with_carry && flag_c(old(self).f) { 1 } else { 0 };
                r == byte_wrap(a - b - cin)
                && flag_h(final(self).f) == ((a & 0x0F) < (b & 0x0F) + cin)
                && flag_c(final(self).f) == (a < b + cin)
            }),
            flag_z(final(self).f) == (r == 0),
            flag_n(final(self).f) == true,
            final(self).f & 0x0F == old(self).f & 0x0F,
            *final(self) == (Cpu { f: final(self).f, ..*old(self) }),
    {
        proof {
            lemma_mask_le(a, 0x0F);
            lemma_mask_le(b, 0x0F);
        }
        let carry: u8 = if apply_with_carry {
            if self.get_f_carry() { 1 } else { 0 }
        } else {
            0
        };
        let result = a.wrapping_sub(b).wrapping_sub(carry);
        self.set_f_zero(result == 0);
        self.set_f_half_carry((a & 0x0F) < (b & 0x0F) + carry);
        self.set_f_negative(true);
        self.set_f_carry((a as u16) < (b as u16) + (carry as u16));
        result
    }

    /// ADD HL,rr: Z is untouched, H and C come from bit 11 and bit 15.
    pub fn apply_add16_with_flags(&mut self, a: u16, b: u16) -> (r: u16)
        ensures
            r == word_wrap(a + b),
            flag_h(final(self).f) == ((a & 0x07FF) + (b & 0x07FF) > 0x07FF),
            flag_c(final(self).f) == (a + b > 0xFFFF),
            flag_n(final(self).f) == false,
            flag_z(final(self).f) == flag_z(old(self).f),
            final(self).f & 0x0F == old(self).f & 0x0F,
            *final(self) == (Cpu { f: final(self).f, ..*old(self) }),
    {
        proof {
            lemma_mask16_le(a, 0x07FF);
            lemma_mask16_le(b, 0x07FF);
        }
        let result: u16 = a.wrapping_add(b);
        self.set_f_half_carry((a & 0x07FF) + (b & 0x07FF) > 0x07FF);
        self.set_f_negative(false);
        self.set_f_carry(a > 0xFFFF - b);
        result
    }

    /// AND: result flags with H set and C cleared.
    pub fn apply_and8_with_flags(&mut self, a: u8, b: u8) -> (r: u8)
        ensures
            r == (a & b),
            flag_z(final(self).f) == (r == 0),
            flag_n(final(self).f) == false,
            flag_h(final(self).f) == true,
            flag_c(final(self).f) == false,
            final(self).f & 0x0F == old(self).f & 0x0F,
            *final(self) == (Cpu { f: final(self).f, ..*old(self) }),
    {
        let result = a & b;
        self.set_f_zero(result == 0);
        self.set_f_half_carry(true);
        self.set_f_carry(false);
        self.set_f_negative(false);
        result
    }

    /// OR: result flags with N, H and C cleared.
    pub fn apply_or8_with_flags(&mut self, a: u8, b: u8) -> (r: u8)
        ensures
            r == (a | b),
            flag_z(final(self).f) == (r == 0),
            flag_n(final(self).f) == false,
            flag_h(final(self).f) == false,
            flag_c(final(self).f) == false,
            final(self).f & 0x0F == old(self).f & 0x0F,
            *final(self) == (Cpu { f: final(self).f, ..*old(self) }),
    {
        let result = a | b;
        self.set_f_zero(result == 0);
        self.set_f_half_carry(false);
        self.set_f_carry(false);
        self.set_f_negative(false);
        result
    }

    /// XOR: result flags with N, H and C cleared.
    pub fn apply_xor8_with_flags(&mut self, a: u8, b: u8) -> (r: u8)
        ensures
            r == (a ^ b),
            flag_z(final(self).f) == (r == 0),
            flag_n(final(self).f) == false,
            flag_h(final(self).f) == false,
            flag_c(final(self).f) == false,
            final(self).f & 0x0F == old(self).f & 0x0F,
            *final(self) == (Cpu { f: final(self).f, ..*old(self) }),
    {
        let result = a ^ b;
        self.set_f_zero(result == 0);
        self.set_f_half_carry(false);
        self.set_f_carry(false);
        self.set_f_negative(false);
        result
    }

    // Stack discipline: the stack grows down; PUSH decrements SP before the
    // store, POP reads and then increments.

    pub fn push_byte(&mut self, mmu: &mut Mmu, value: u8)
        requires
            old(mmu).wf(),
        ensures
            *final(self) == (Cpu { sp: word_wrap(old(self).sp - 1), ..*old(self) }),
            final(mmu)@ == old(mmu)@.write(word_wrap(old(self).sp - 1), value),
            final(mmu).wf(),
    {
        self.sp = self.sp.wrapping_sub(1);
        mmu.write_byte(self.sp, value);
    }

    /// Little-endian push: the high byte lands at SP+1, the low byte at SP.
    pub fn push_word(&mut self, mmu: &mut Mmu, value: u16)
        requires
            old(mmu).wf(),
        ensures
            *final(self) == (Cpu { sp: word_wrap(old(self).sp - 2), ..*old(self) }),
            final(mmu)@ == old(mmu)@.write(word_wrap(old(self).sp - 1), (value >> 8) as u8).write(
                word_wrap(old(self).sp - 2),
                (value & 0xFF) as u8,
            ),
            final(mmu).wf(),
    {
        self.push_byte(mmu, (value >> 8) as u8);
        self.push_byte(mmu, (value & 0xFF) as u8);
    }

    pub fn pop_byte(&mut self, mmu: &mut Mmu) -> (r: u8)
        requires
            old(mmu).wf(),
        ensures
            r == old(mmu)@.read(old(self).sp),
            *final(self) == (Cpu { sp: word_wrap(old(self).sp + 1), ..*old(self) }),
            final(mmu)@ == old(mmu)@,
            final(mmu).wf(),
    {
        let value = mmu.read_byte(self.sp);
        self.sp = self.sp.wrapping_add(1);
        value
    }

    /// Little-endian pop: the low byte comes from SP, the high from SP+1.
    pub fn pop_word(&mut self, mmu: &mut Mmu) -> (r: u16)
        requires
            old(mmu).wf(),
        ensures
            r == word16(
                old(mmu)@.read(word_wrap(old(self).sp + 1)),
                old(mmu)@.read(old(self).sp),
            ),
            *final(self) == (Cpu { sp: word_wrap(old(self).sp + 2), ..*old(self) }),
            final(mmu)@ == old(mmu)@,
            final(mmu).wf(),
    {
        let low = self.pop_byte(mmu);
        let high = self.pop_byte(mmu);
        proof {
            lemma_compose16(high, low);
        }
        ((high as u16) << 8) | low as u16
    }

    /// Relies on std's format macro: `PC: ` followed by the program counter
    /// as `0x` and four hex digits, then a comma and a space — twelve
    /// characters for a 16-bit counter; the register file is untouched.
    #[verifier::external_body]
    pub fn to_string(&mut self) -> (r: String)
        ensures
            r@.len() == 12,
            *final(self) == *old(self),
    {
        format!("PC: {:#06X}, ", self.pc)
    }

    /// Service one boundary: dispatch a pending enabled interrupt when IME
    /// allows it, idle while halted or after a fatal opcode, and otherwise
    /// fetch, decode and execute one instruction. Returns the elapsed
    /// T-cycles; the whole effect is `tick_post`.
    pub fn tick(&mut self, mmu: &mut Mmu) -> (c: u8)
        requires
            old(self).wf(),
            old(mmu).wf(),
        ensures
            final(self).wf(),
            final(mmu).wf(),
            4 <= c <= 24,
            tick_post(*old(self), old(mmu)@, *final(self), final(mmu)@, c),
    {
        if self.fatal {
            self.cycles = self.cycles.wrapping_add(4);
            return 4;
        }
        let iflag = mmu.read_byte(0xFF0F);
        let ie = mmu.read_byte(0xFFFF);
        let pend = iflag & ie & 0x1F;
        if self.halted && pend != 0 {
            self.halted = false;
        }
        if self.ime && pend != 0 {
            self.ime = false;
            let mask: u8 = if pend & 0x01 != 0 {
                0xFE
            } else if pend & 0x02 != 0 {
                0xFD
            } else if pend & 0x04 != 0 {
                0xFB
            } else if pend & 0x08 != 0 {
                0xF7
            } else {
                0xEF
            };
            let vector: u16 = if pend & 0x01 != 0 {
                0x40
            } else if pend & 0x02 != 0 {
                0x48
            } else if pend & 0x04 != 0 {
                0x50
            } else if pend & 0x08 != 0 {
                0x58
            } else {
                0x60
            };
            mmu.write_byte(0xFF0F, iflag & mask);
            let pc = self.pc;
            self.sp = self.sp.wrapping_sub(1);
            mmu.write_byte(self.sp, (pc >> 8) as u8);
            self.sp = self.sp.wrapping_sub(1);
            mmu.write_byte(self.sp, (pc & 0xFF) as u8);
            self.pc = vector;
            self.cycles = self.cycles.wrapping_add(20);
            return 20;
        }
        if self.halted {
            self.cycles = self.cycles.wrapping_add(4);
            return 4;
        }
        let ei_pending = self.interrupt_enable;
        let opcode = mmu.read_byte(self.pc);
        self.pc = self.pc.wrapping_add(1);
        let c = crate::ops::execute(self, mmu, opcode);
        if ei_pending && opcode != 0xF3 {
            self.ime = true;
            if opcode != 0xFB {
                self.interrupt_enable = false;
            }
        }
        self.cycles = self.cycles.wrapping_add(c as u64);
        c
    }
}

/// Whole effect of one CPU boundary on the register file `c0 -> c1` and
/// the bus `m0 -> m1`, with `k` the elapsed T-cycles:
/// - after a fatal (bus-locking) opcode only the clock moves;
/// - with IME set and an enabled interrupt pending, the lowest one is
///   dispatched: 20 cycles, IME cleared, the halt ended, PC at the handler,
///   the old PC pushed below SP, and that IF bit cleared;
/// - while halted with nothing pending, only the clock moves;
/// - otherwise the instruction at PC executes (a pending enabled interrupt
///   ends the halt first): the cost is the fetched opcode's table value,
///   with the taken-branch penalty and the CB page priced by its second
///   byte; HALT is the only opcode that leaves the CPU halted; DI clears
///   IME and RETI sets it; EI arms the one-instruction latch, and a latch
///   armed beforehand turns IME on as this instruction completes; and
///   LD HL,SP+e has its whole stated register effect.
pub open spec fn tick_post(c0: Cpu, m0: MmuView, c1: Cpu, m1: MmuView, k: u8) -> bool {
    let pend = m0.interrupt_flag & m0.interrupt_enable & 0x1F;
    c1.cycles == qword_wrap(c0.cycles + k) && if c0.fatal {
        k == 4 && c1 == (Cpu { cycles: c1.cycles, ..c0 }) && m1 == m0
    } else if c0.ime && pend != 0 {
        k == 20 && c1.ime == false && c1.halted == false && c1.pc == interrupt_vector(pend)
            && c1.sp == word_wrap(c0.sp - 2) && m1 == m0.write(
            0xFF0F,
            m0.interrupt_flag & clear_mask(pend),
        ).write(word_wrap(c0.sp - 1), (c0.pc >> 8) as u8).write(
            word_wrap(c0.sp - 2),
            (c0.pc & 0xFF) as u8,
        )
    } else if c0.halted && pend == 0 {
        k == 4 && c1 == (Cpu { cycles: c1.cycles, ..c0 }) && m1 == m0
    } else {
        let op = m0.read(c0.pc);
        let op2 = m0.read(word_wrap(c0.pc + 1));
        k == crate::ops::instr_cycles(op, op2, c0.f) && c1.halted == (op == 0x76) && c1.ime == (
        op != 0xF3 && (op == 0xD9 || c0.interrupt_enable || c0.ime)) && c1.interrupt_enable == (
        op == 0xFB) && (op == 0xF8 ==> ({
            let sum = word_wrap(c0.sp + ((op2 as i8) as u16));
            c1.h == (sum >> 8) as u8 && c1.l == (sum & 0xFF) as u8 && c1.sp == c0.sp && c1.pc
                == word_wrap(c0.pc + 2) && c1.a == c0.a && c1.b == c0.b && c1.c == c0.c && c1.d
                == c0.d && c1.e == c0.e && c1.fatal == c0.fatal && !flag_z(c1.f) && !flag_n(c1.f)
                && flag_h(c1.f) == ((c0.sp & 0x0F) + (op2 & 0x0F) > 0x0F) && flag_c(c1.f) == ((
            c0.sp & 0xFF) + op2 > 0xFF) && m1 == m0
        }))
    }
}

/// Mask that clears the lowest pending interrupt bit.
pub open spec fn clear_mask(pend: u8) -> u8 {
    if pend & 0x01 != 0 {
        0xFE
    } else if pend & 0x02 != 0 {
        0xFD
    } else if pend & 0x04 != 0 {
        0xFB
    } else if pend & 0x08 != 0 {
        0xF7
    } else {
        0xEF
    }
}

/// Handler address of the lowest pending interrupt: VBlank 0x40, LCD STAT
/// 0x48, timer 0x50, serial 0x58, joypad 0x60.
pub open spec fn interrupt_vector(pend: u8) -> u16 {
    if pend & 0x01 != 0 {
        0x40
    } else if pend & 0x02 != 0 {
        0x48
    } else if pend & 0x04 != 0 {
        0x50
    } else if pend & 0x08 != 0 {
        0x58
    } else {
        0x60
    }
}

} // verus!
