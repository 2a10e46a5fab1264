//! Decode and execution of the 256 primary and 256 CB-prefixed opcodes.
//!
//! `execute` receives the already fetched opcode with PC pointing at the
//! first operand byte, performs the effect against the register file and the
//! bus, and returns the instruction's T-cycle cost: the fixed table value,
//! four cycles more for a taken conditional branch, and 8 or 16 cycles on
//! the CB page for register and (HL) forms.

use vstd::prelude::*;
use crate::cpu::{flag_c, flag_z, lemma_mask16_le, lemma_mask_le, word16, word_wrap, Cpu};
use crate::mmu::Mmu;

verus! {

/// Branch condition of a conditional jump, call or return: NZ, Z, NC or C,
/// selected by bits 3 and 4 of the opcode.
pub open spec fn cond_holds(f: u8, op: u8) -> bool {
    if (op >> 3) & 0x03 == 0 {
        !flag_z(f)
    } else if (op >> 3) & 0x03 == 1 {
        flag_z(f)
    } else if (op >> 3) & 0x03 == 2 {
        !flag_c(f)
    } else {
        flag_c(f)
    }
}

/// T-cycle cost of a primary-page opcode, with the branch-taken penalty of
/// the conditional forms folded in.
pub open spec fn cycles_of(op: u8, f: u8) -> u8 {
    if op < 0x40 {
        if op & 0xC7 == 0x06 {
            if op == 0x36 { 12 } else { 8 }
        } else if op & 0xC7 == 0x04 {
            if op == 0x34 { 12 } else { 4 }
        } else if op & 0xC7 == 0x05 {
            if op == 0x35 { 12 } else { 4 }
        } else if op & 0xCF == 0x01 {
            12
        } else if op & 0xCF == 0x03 {
            8
        } else if op & 0xCF == 0x0B {
            8
        } else if op & 0xCF == 0x09 {
            8
        } else if op & 0xC7 == 0x02 {
            8
        } else if op == 0x08 {
            20
        } else if op == 0x18 {
            12
        } else if op & 0xE7 == 0x20 {
            if cond_holds(f, op) { 12 } else { 8 }
        } else {
            4
        }
    } else if op < 0x80 {
        if op == 0x76 {
            4
        } else if op & 0x07 == 6 || op & 0xF8 == 0x70 {
            8
        } else {
            4
        }
    } else if op < 0xC0 {
        if op & 0x07 == 6 { 8 } else { 4 }
    } else {
        if op & 0xE7 == 0xC0 {
            if cond_holds(f, op) { 12 } else { 8 }
        } else if op & 0xCF == 0xC1 {
            12
        } else if op & 0xE7 == 0xC2 {
            if cond_holds(f, op) { 16 } else { 12 }
        } else if op == 0xC3 {
            16
        } else if op & 0xE7 == 0xC4 {
            if cond_holds(f, op) { 16 } else { 12 }
        } else if op & 0xCF == 0xC5 {
            16
        } else if op & 0x07 == 6 {
            8
        } else if op & 0x07 == 7 {
            16
        } else if op == 0xC9 || op == 0xD9 {
            16
        } else if op == 0xCD {
            24
        } else if op == 0xE0 || op == 0xF0 {
            12
        } else if op == 0xE2 || op == 0xF2 {
            8
        } else if op == 0xEA || op == 0xFA {
            16
        } else if op == 0xE8 {
            16
        } else if op == 0xF8 {
            12
        } else if op == 0xF9 {
            8
        } else if op == 0xE9 {
            4
        } else {
            4
        }
    }
}

/// T-cycle cost of a CB-page opcode: 8 on a register, 16 on (HL).
pub open spec fn cb_cycles(op2: u8) -> u8 {
    if op2 & 0x07 == 6 { 16 } else { 8 }
}

/// T-cycle cost of a whole instruction: the CB prefix defers to the second
/// byte's table, everything else to the primary table.
pub open spec fn instr_cycles(op: u8, op2: u8, f: u8) -> u8 {
    if op == 0xCB { cb_cycles(op2) } else { cycles_of(op, f) }
}

/// Whole effect of LD HL,SP+e on the register file: with `e` the operand
/// byte at PC, HL receives SP plus the sign-extended `e`, Z and N are
/// cleared, H and C come from the unsigned low-byte addition, and nothing
/// else of the file moves but PC stepping past the operand.
pub open spec fn ld_hl_sp_post(c0: Cpu, m0: crate::mmu::MmuView, c1: Cpu) -> bool {
    let e = m0.read(c0.pc);
    let sum = word_wrap(c0.sp + ((e as i8) as u16));
    c1 == (Cpu {
        h: (sum >> 8) as u8,
        l: (sum & 0xFF) as u8,
        f: c1.f,
        pc: word_wrap(c0.pc + 1),
        ..c0
    }) && flag_z(c1.f) == false && crate::cpu::flag_n(c1.f) == false && crate::cpu::flag_h(c1.f)
        == ((c0.sp & 0x0F) + (e & 0x0F) > 0x0F) && flag_c(c1.f) == ((c0.sp & 0xFF) + e > 0xFF)
}

/// Fetch one operand byte and step past it.
fn fetch_byte(cpu: &mut Cpu, mmu: &Mmu) -> (r: u8)
    requires
        mmu.wf(),
    ensures
        r == mmu@.read(old(cpu).pc),
        *final(cpu) == (Cpu { pc: word_wrap(old(cpu).pc + 1), ..*old(cpu) }),
{
    let b = mmu.read_byte(cpu.pc);
    cpu.pc = cpu.pc.wrapping_add(1);
    b
}

/// Fetch a little-endian operand word and step past it.
fn fetch_word(cpu: &mut Cpu, mmu: &Mmu) -> (r: u16)
    requires
        mmu.wf(),
    ensures
        r == word16(
            mmu@.read(word_wrap(old(cpu).pc + 1)),
            mmu@.read(old(cpu).pc),
        ),
        *final(cpu) == (Cpu { pc: word_wrap(old(cpu).pc + 2), ..*old(cpu) }),
{
    let low = fetch_byte(cpu, mmu);
    let high = fetch_byte(cpu, mmu);
    proof {
        crate::cpu::lemma_compose16(high, low);
    }
    ((high as u16) << 8) | low as u16
}

/// Whether the opcode's branch condition holds right now.
fn cond_taken(cpu: &Cpu, op: u8) -> (r: bool)
    ensures
        r == cond_holds(cpu.f, op),
{
    if (op >> 3) & 0x03 == 0 {
        !cpu.get_f_zero()
    } else if (op >> 3) & 0x03 == 1 {
        cpu.get_f_zero()
    } else if (op >> 3) & 0x03 == 2 {
        !cpu.get_f_carry()
    } else {
        cpu.get_f_carry()
    }
}

/// Value of the 8-bit operand `idx` in B,C,D,E,H,L,(HL),A order.
fn reg_get(cpu: &Cpu, mmu: &Mmu, idx: u8) -> (r: u8)
    requires
        mmu.wf(),
{
    if idx == 0 {
        cpu.b
    } else if idx == 1 {
        cpu.c
    } else if idx == 2 {
        cpu.d
    } else if idx == 3 {
        cpu.e
    } else if idx == 4 {
        cpu.h
    } else if idx == 5 {
        cpu.l
    } else if idx == 6 {
        mmu.read_byte(cpu.get_hl())
    } else {
        cpu.a
    }
}

/// Store into the 8-bit operand `idx` in B,C,D,E,H,L,(HL),A order.
fn reg_set(cpu: &mut Cpu, mmu: &mut Mmu, idx: u8, v: u8)
    requires
        old(mmu).wf(),
    ensures
        final(mmu).wf(),
        final(cpu).f == old(cpu).f,
        final(cpu).cycles == old(cpu).cycles,
        final(cpu).halted == old(cpu).halted,
        final(cpu).ime == old(cpu).ime,
        final(cpu).interrupt_enable == old(cpu).interrupt_enable,
{
    if idx == 0 {
        cpu.b = v;
    } else if idx == 1 {
        cpu.c = v;
    } else if idx == 2 {
        cpu.d = v;
    } else if idx == 3 {
        cpu.e = v;
    } else if idx == 4 {
        cpu.h = v;
    } else if idx == 5 {
        cpu.l = v;
    } else if idx == 6 {
        let hl = cpu.get_hl();
        mmu.write_byte(hl, v);
    } else {
        cpu.a = v;
    }
}

/// One 8-bit accumulator operation in ADD,ADC,SUB,SBC,AND,XOR,OR,CP order.
fn alu8(cpu: &mut Cpu, y: u8, b: u8)
    ensures
        final(cpu).f & 0x0F == old(cpu).f & 0x0F,
        final(cpu).cycles == old(cpu).cycles,
        final(cpu).halted == old(cpu).halted,
        final(cpu).ime == old(cpu).ime,
        final(cpu).interrupt_enable == old(cpu).interrupt_enable,
{
    let a = cpu.a;
    if y == 0 {
        let r = cpu.apply_add8_with_flags(a, b, false);
        cpu.a = r;
    } else if y == 1 {
        let r = cpu.apply_add8_with_flags(a, b, true);
        cpu.a = r;
    } else if y == 2 {
        let r = cpu.apply_sub8_with_flags(a, b, false);
        cpu.a = r;
    } else if y == 3 {
        let r = cpu.apply_sub8_with_flags(a, b, true);
        cpu.a = r;
    } else if y == 4 {
        let r = cpu.apply_and8_with_flags(a, b);
        cpu.a = r;
    } else if y == 5 {
        let r = cpu.apply_xor8_with_flags(a, b);
        cpu.a = r;
    } else if y == 6 {
        let r = cpu.apply_or8_with_flags(a, b);
        cpu.a = r;
    } else {
        let _discarded = cpu.apply_sub8_with_flags(a, b, false);
    }
}

/// One CB-page rotation or shift in RLC,RRC,RL,RR,SLA,SRA,SWAP,SRL order.
fn rot_shift(cpu: &mut Cpu, y: u8, v: u8) -> (r: u8)
    ensures
        final(cpu).f & 0x0F == old(cpu).f & 0x0F,
        final(cpu).cycles == old(cpu).cycles,
        final(cpu).halted == old(cpu).halted,
        final(cpu).ime == old(cpu).ime,
        final(cpu).interrupt_enable == old(cpu).interrupt_enable,
{
    if y == 0 {
        cpu.apply_rotate_left_with_flags(v, false)
    } else if y == 1 {
        cpu.apply_rotate_right_with_flags(v, false)
    } else if y == 2 {
        cpu.apply_rotate_left_with_flags(v, true)
    } else if y == 3 {
        cpu.apply_rotate_right_with_flags(v, true)
    } else if y == 4 {
        let r = v << 1;
        cpu.set_f_zero(r == 0);
        cpu.set_f_negative(false);
        cpu.set_f_half_carry(false);
        cpu.set_f_carry(v & 0x80 != 0);
        r
    } else if y == 5 {
        let r = (v >> 1) | (v & 0x80);
        cpu.set_f_zero(r == 0);
        cpu.set_f_negative(false);
        cpu.set_f_half_carry(false);
        cpu.set_f_carry(v & 0x01 != 0);
        r
    } else if y == 6 {
        let r = (v >> 4) | (v << 4);
        cpu.set_f_zero(r == 0);
        cpu.set_f_negative(false);
        cpu.set_f_half_carry(false);
        cpu.set_f_carry(false);
        r
    } else {
        let r = v >> 1;
        cpu.set_f_zero(r == 0);
        cpu.set_f_negative(false);
        cpu.set_f_half_carry(false);
        cpu.set_f_carry(v & 0x01 != 0);
        r
    }
}

/// The irregular page 0x00..=0x3F.
fn exec_low(cpu: &mut Cpu, mmu: &mut Mmu, op: u8) -> (c: u8)
    requires
        old(cpu).wf(),
        old(mmu).wf(),
        op < 0x40,
    ensures
        final(cpu).wf(),
        final(mmu).wf(),
        final(cpu).cycles == old(cpu).cycles,
        final(cpu).halted == old(cpu).halted,
        final(cpu).ime == old(cpu).ime,
        final(cpu).interrupt_enable == old(cpu).interrupt_enable,
        c == cycles_of(op, old(cpu).f),
        4 <= c <= 24,
{
    if op & 0xC7 == 0x06 {
        // LD r,n / LD (HL),n
        let y = (op >> 3) & 0x07;
        let n = fetch_byte(cpu, mmu);
        reg_set(cpu, mmu, y, n);
        if op == 0x36 { 12 } else { 8 }
    } else if op & 0xC7 == 0x04 {
        // INC r / INC (HL)
        let y = (op >> 3) & 0x07;
        let v = reg_get(cpu, mmu, y);
        let r = cpu.apply_inc8_with_flags(v);
        reg_set(cpu, mmu, y, r);
        if op == 0x34 { 12 } else { 4 }
    } else if op & 0xC7 == 0x05 {
        // DEC r / DEC (HL)
        let y = (op >> 3) & 0x07;
        let v = reg_get(cpu, mmu, y);
        let r = cpu.apply_dec8_with_flags(v);
        reg_set(cpu, mmu, y, r);
        if op == 0x35 { 12 } else { 4 }
    } else if op & 0xCF == 0x01 {
        // LD rr,nn
        let nn = fetch_word(cpu, mmu);
        if op == 0x01 {
            cpu.set_bc(nn);
        } else if op == 0x11 {
            cpu.set_de(nn);
        } else if op == 0x21 {
            cpu.set_hl(nn);
        } else {
            cpu.sp = nn;
        }
        12
    } else if op & 0xCF == 0x03 {
        // INC rr
        if op == 0x03 {
            let v = cpu.get_bc();
            cpu.set_bc(v.wrapping_add(1));
        } else if op == 0x13 {
            let v = cpu.get_de();
            cpu.set_de(v.wrapping_add(1));
        } else if op == 0x23 {
            let v = cpu.get_hl();
            cpu.set_hl(v.wrapping_add(1));
        } else {
            cpu.sp = cpu.sp.wrapping_add(1);
        }
        8
    } else if op & 0xCF == 0x0B {
        // DEC rr
        if op == 0x0B {
            let v = cpu.get_bc();
            cpu.set_bc(v.wrapping_sub(1));
        } else if op == 0x1B {
            let v = cpu.get_de();
            cpu.set_de(v.wrapping_sub(1));
        } else if op == 0x2B {
            let v = cpu.get_hl();
            cpu.set_hl(v.wrapping_sub(1));
        } else {
            cpu.sp = cpu.sp.wrapping_sub(1);
        }
        8
    } else if op & 0xCF == 0x09 {
        // ADD HL,rr
        let rr = if op == 0x09 {
            cpu.get_bc()
        } else if op == 0x19 {
            cpu.get_de()
        } else if op == 0x29 {
            cpu.get_hl()
        } else {
            cpu.sp
        };
        let hl = cpu.get_hl();
        let r = cpu.apply_add16_with_flags(hl, rr);
        cpu.set_hl(r);
        8
    } else if op & 0xC7 == 0x02 {
        // Indirect accumulator loads and stores through BC, DE and HL+/-.
        if op == 0x02 {
            let bc = cpu.get_bc();
            mmu.write_byte(bc, cpu.a);
        } else if op == 0x12 {
            let de = cpu.get_de();
            mmu.write_byte(de, cpu.a);
        } else if op == 0x22 {
            let hl = cpu.get_hl();
            mmu.write_byte(hl, cpu.a);
            cpu.set_hl(hl.wrapping_add(1));
        } else if op == 0x32 {
            let hl = cpu.get_hl();
            mmu.write_byte(hl, cpu.a);
            cpu.set_hl(hl.wrapping_sub(1));
        } else if op == 0x0A {
            let bc = cpu.get_bc();
            cpu.a = mmu.read_byte(bc);
        } else if op == 0x1A {
            let de = cpu.get_de();
            cpu.a = mmu.read_byte(de);
        } else if op == 0x2A {
            let hl = cpu.get_hl();
            cpu.a = mmu.read_byte(hl);
            cpu.set_hl(hl.wrapping_add(1));
        } else {
            let hl = cpu.get_hl();
            cpu.a = mmu.read_byte(hl);
            cpu.set_hl(hl.wrapping_sub(1));
        }
        8
    } else if op == 0x08 {
        // LD (nn),SP
        let nn = fetch_word(cpu, mmu);
        mmu.write_byte(nn, (cpu.sp & 0xFF) as u8);
        mmu.write_byte(nn.wrapping_add(1), (cpu.sp >> 8) as u8);
        20
    } else if op == 0x18 {
        // JR e
        let e = fetch_byte(cpu, mmu);
        cpu.pc = cpu.pc.wrapping_add((e as i8) as u16);
        12
    } else if op & 0xE7 == 0x20 {
        // JR cc,e
        let e = fetch_byte(cpu, mmu);
        if cond_taken(cpu, op) {
            cpu.pc = cpu.pc.wrapping_add((e as i8) as u16);
            12
        } else {
            8
        }
    } else {
        if op == 0x10 {
            // STOP: the KEY1 switch is performed; the padding byte is skipped.
            let _pad = fetch_byte(cpu, mmu);
            mmu.toggle_speed();
        } else if op == 0x07 {
            let a = cpu.a;
            let r = cpu.apply_rotate_left_with_flags(a, false);
            cpu.a = r;
            cpu.set_f_zero(false);
        } else if op == 0x0F {
            let a = cpu.a;
            let r = cpu.apply_rotate_right_with_flags(a, false);
            cpu.a = r;
            cpu.set_f_zero(false);
        } else if op == 0x17 {
            let a = cpu.a;
            let r = cpu.apply_rotate_left_with_flags(a, true);
            cpu.a = r;
            cpu.set_f_zero(false);
        } else if op == 0x1F {
            let a = cpu.a;
            let r = cpu.apply_rotate_right_with_flags(a, true);
            cpu.a = r;
            cpu.set_f_zero(false);
        } else if op == 0x27 {
            // DAA: BCD adjustment driven by the prior N, H and C flags.
            proof {
                lemma_mask_le(cpu.a, 0x0F);
            }
            let mut adjust: u8 = 0;
            let mut carry_out: bool = false;
            if cpu.get_f_half_carry() || (!cpu.get_f_substract() && (cpu.a & 0x0F) > 9) {
                adjust = adjust | 0x06;
            }
            if cpu.get_f_carry() || (!cpu.get_f_substract() && cpu.a > 0x99) {
                adjust = adjust | 0x60;
                carry_out = true;
            }
            let r = if cpu.get_f_substract() {
                cpu.a.wrapping_sub(adjust)
            } else {
                cpu.a.wrapping_add(adjust)
            };
            cpu.a = r;
            cpu.set_f_zero(r == 0);
            cpu.set_f_half_carry(false);
            cpu.set_f_carry(carry_out);
        } else if op == 0x2F {
            cpu.a = !cpu.a;
            cpu.set_f_negative(true);
            cpu.set_f_half_carry(true);
        } else if op == 0x37 {
            cpu.set_f_carry(true);
            cpu.set_f_negative(false);
            cpu.set_f_half_carry(false);
        } else if op == 0x3F {
            let cf = cpu.get_f_carry();
            cpu.set_f_carry(!cf);
            cpu.set_f_negative(false);
            cpu.set_f_half_carry(false);
        }
        // NOP falls through with no effect.
        4
    }
}

/// The load page 0x40..=0x7F: LD r,r' and HALT.
fn exec_ld(cpu: &mut Cpu, mmu: &mut Mmu, op: u8) -> (c: u8)
    requires
        old(cpu).wf(),
        old(mmu).wf(),
        0x40 <= op < 0x80,
    ensures
        final(cpu).wf(),
        final(mmu).wf(),
        final(cpu).cycles == old(cpu).cycles,
        final(cpu).halted == (op == 0x76 || old(cpu).halted),
        final(cpu).ime == old(cpu).ime,
        final(cpu).interrupt_enable == old(cpu).interrupt_enable,
        c == cycles_of(op, old(cpu).f),
        4 <= c <= 24,
{
    if op == 0x76 {
        cpu.halted = true;
        4
    } else {
        let src = op & 0x07;
        let dst = (op >> 3) & 0x07;
        let v = reg_get(cpu, mmu, src);
        reg_set(cpu, mmu, dst, v);
        if op & 0x07 == 6 || op & 0xF8 == 0x70 { 8 } else { 4 }
    }
}

/// The accumulator arithmetic page 0x80..=0xBF.
fn exec_alu(cpu: &mut Cpu, mmu: &mut Mmu, op: u8) -> (c: u8)
    requires
        old(cpu).wf(),
        old(mmu).wf(),
        0x80 <= op < 0xC0,
    ensures
        final(cpu).wf(),
        final(mmu).wf(),
        final(cpu).cycles == old(cpu).cycles,
        final(cpu).halted == old(cpu).halted,
        final(cpu).ime == old(cpu).ime,
        final(cpu).interrupt_enable == old(cpu).interrupt_enable,
        c == cycles_of(op, old(cpu).f),
        4 <= c <= 24,
{
    let src = op & 0x07;
    let y = (op >> 3) & 0x07;
    let b = reg_get(cpu, mmu, src);
    alu8(cpu, y, b);
    if op & 0x07 == 6 { 8 } else { 4 }
}

/// The control-flow and misc page 0xC0..=0xFF (the CB prefix excluded).
fn exec_high(cpu: &mut Cpu, mmu: &mut Mmu, op: u8) -> (c: u8)
    requires
        old(cpu).wf(),
        old(mmu).wf(),
        0xC0 <= op,
        op != 0xCB,
    ensures
        final(cpu).wf(),
        final(mmu).wf(),
        final(cpu).cycles == old(cpu).cycles,
        final(cpu).halted == old(cpu).halted,
        final(cpu).ime == (if op == 0xF3 { false } else if op == 0xD9 { true } else {
            old(cpu).ime }),
        final(cpu).interrupt_enable == (if op == 0xFB { true } else if op == 0xF3 { false } else {
            old(cpu).interrupt_enable }),
        op == 0xF8 ==> ld_hl_sp_post(*old(cpu), old(mmu)@, *final(cpu)) && final(mmu)@ == old(
            mmu,
        )@,
        c == cycles_of(op, old(cpu).f),
        4 <= c <= 24,
{
    proof {
        lemma_mask_le(op >> 3, 0x07);
        lemma_mask16_le(cpu.sp, 0x00FF);
        lemma_mask16_le(cpu.sp, 0x000F);
        assert((op & 0xE7 == 0xC0 || op & 0xCF == 0xC1 || op & 0xE7 == 0xC2 || op & 0xE7 == 0xC4
            || op & 0xCF == 0xC5 || op & 0x07 == 6 || op & 0x07 == 7) ==> (op != 0xF3 && op
            != 0xD9 && op != 0xFB && op != 0xF8)) by (bit_vector);
    }
    if op & 0xE7 == 0xC0 {
        // RET cc
        if cond_taken(cpu, op) {
            let a = cpu.pop_word(mmu);
            cpu.pc = a;
            12
        } else {
            8
        }
    } else if op & 0xCF == 0xC1 {
        // POP rr
        let v = cpu.pop_word(mmu);
        if op == 0xC1 {
            cpu.set_bc(v);
        } else if op == 0xD1 {
            cpu.set_de(v);
        } else if op == 0xE1 {
            cpu.set_hl(v);
        } else {
            cpu.set_af(v);
        }
        12
    } else if op & 0xE7 == 0xC2 {
        // JP cc,nn
        let nn = fetch_word(cpu, mmu);
        if cond_taken(cpu, op) {
            cpu.pc = nn;
            16
        } else {
            12
        }
    } else if op == 0xC3 {
        let nn = fetch_word(cpu, mmu);
        cpu.pc = nn;
        16
    } else if op & 0xE7 == 0xC4 {
        // CALL cc,nn
        let nn = fetch_word(cpu, mmu);
        if cond_taken(cpu, op) {
            let pc = cpu.pc;
            cpu.push_word(mmu, pc);
            cpu.pc = nn;
            16
        } else {
            12
        }
    } else if op & 0xCF == 0xC5 {
        // PUSH rr
        let v = if op == 0xC5 {
            cpu.get_bc()
        } else if op == 0xD5 {
            cpu.get_de()
        } else if op == 0xE5 {
            cpu.get_hl()
        } else {
            cpu.get_af()
        };
        cpu.push_word(mmu, v);
        16
    } else if op & 0x07 == 6 {
        // Accumulator arithmetic with an immediate operand.
        let y = (op >> 3) & 0x07;
        let n = fetch_byte(cpu, mmu);
        alu8(cpu, y, n);
        8
    } else if op & 0x07 == 7 {
        // RST
        let pc = cpu.pc;
        cpu.push_word(mmu, pc);
        cpu.pc = (op & 0x38) as u16;
        16
    } else if op == 0xC9 || op == 0xD9 {
        let a = cpu.pop_word(mmu);
        cpu.pc = a;
        if op == 0xD9 {
            // RETI re-enables interrupts at once.
            cpu.ime = true;
        }
        16
    } else if op == 0xCD {
        let nn = fetch_word(cpu, mmu);
        let pc = cpu.pc;
        cpu.push_word(mmu, pc);
        cpu.pc = nn;
        24
    } else if op == 0xE0 || op == 0xF0 {
        let n = fetch_byte(cpu, mmu);
        if op == 0xE0 {
            mmu.write_byte(0xFF00 + n as u16, cpu.a);
        } else {
            cpu.a = mmu.read_byte(0xFF00 + n as u16);
        }
        12
    } else if op == 0xE2 || op == 0xF2 {
        if op == 0xE2 {
            mmu.write_byte(0xFF00 + cpu.c as u16, cpu.a);
        } else {
            cpu.a = mmu.read_byte(0xFF00 + cpu.c as u16);
        }
        8
    } else if op == 0xEA || op == 0xFA {
        let nn = fetch_word(cpu, mmu);
        if op == 0xEA {
            mmu.write_byte(nn, cpu.a);
        } else {
            cpu.a = mmu.read_byte(nn);
        }
        16
    } else if op == 0xE8 {
        // ADD SP,e: flags from the unsigned low-byte addition.
        let e = fetch_byte(cpu, mmu);
        proof {
            lemma_mask_le(e, 0x0F);
        }
        cpu.set_f_zero(false);
        cpu.set_f_negative(false);
        cpu.set_f_half_carry((cpu.sp & 0x000F) + (e & 0x0F) as u16 > 0x0F);
        cpu.set_f_carry((cpu.sp & 0x00FF) + e as u16 > 0xFF);
        cpu.sp = cpu.sp.wrapping_add((e as i8) as u16);
        16
    } else if op == 0xF8 {
        // LD HL,SP+e: flags from the unsigned low-byte addition.
        let e = fetch_byte(cpu, mmu);
        proof {
            lemma_mask_le(e, 0x0F);
        }
        cpu.set_f_zero(false);
        cpu.set_f_negative(false);
        cpu.set_f_half_carry((cpu.sp & 0x000F) + (e & 0x0F) as u16 > 0x0F);
        cpu.set_f_carry((cpu.sp & 0x00FF) + e as u16 > 0xFF);
        let r = cpu.sp.wrapping_add((e as i8) as u16);
        cpu.set_hl(r);
        12
    } else if op == 0xF9 {
        cpu.sp = cpu.get_hl();
        8
    } else if op == 0xE9 {
        cpu.pc = cpu.get_hl();
        4
    } else {
        if op == 0xF3 {
            cpu.ime = false;
            cpu.interrupt_enable = false;
        } else if op == 0xFB {
            cpu.interrupt_enable = true;
        } else if op != 0x00 {
            // The eleven unassigned opcodes lock the bus on hardware.
            cpu.fatal = true;
        }
        4
    }
}

/// The CB-prefixed page: rotations, shifts, SWAP, BIT, RES and SET.
fn exec_cb(cpu: &mut Cpu, mmu: &mut Mmu) -> (c: u8)
    requires
        old(cpu).wf(),
        old(mmu).wf(),
    ensures
        final(cpu).wf(),
        final(mmu).wf(),
        final(cpu).cycles == old(cpu).cycles,
        final(cpu).halted == old(cpu).halted,
        final(cpu).ime == old(cpu).ime,
        final(cpu).interrupt_enable == old(cpu).interrupt_enable,
        c == cb_cycles(old(mmu)@.read(old(cpu).pc)),
        4 <= c <= 24,
{
    let op2 = fetch_byte(cpu, mmu);
    let z = op2 & 0x07;
    let y = (op2 >> 3) & 0x07;
    proof {
        lemma_mask_le(op2 >> 3, 0x07);
    }
    if op2 < 0x40 {
        let v = reg_get(cpu, mmu, z);
        let r = rot_shift(cpu, y, v);
        reg_set(cpu, mmu, z, r);
    } else if op2 < 0x80 {
        // BIT y,r: Z from the complement of the tested bit, C untouched.
        let v = reg_get(cpu, mmu, z);
        cpu.set_f_zero(v & (1u8 << y) == 0);
        cpu.set_f_negative(false);
        cpu.set_f_half_carry(true);
    } else if op2 < 0xC0 {
        let v = reg_get(cpu, mmu, z);
        reg_set(cpu, mmu, z, v & !(1u8 << y));
    } else {
        let v = reg_get(cpu, mmu, z);
        reg_set(cpu, mmu, z, v | (1u8 << y));
    }
    if op2 & 0x07 == 6 { 16 } else { 8 }
}

/// Execute one already fetched opcode; PC points at its first operand byte.
/// Returns the instruction's T-cycle cost.
pub fn execute(cpu: &mut Cpu, mmu: &mut Mmu, opcode: u8) -> (c: u8)
    requires
        old(cpu).wf(),
        old(mmu).wf(),
    ensures
        final(cpu).wf(),
        final(mmu).wf(),
        final(cpu).cycles == old(cpu).cycles,
        final(cpu).halted == (opcode == 0x76 || old(cpu).halted),
        final(cpu).ime == (if opcode == 0xF3 { false } else if opcode == 0xD9 { true } else {
            old(cpu).ime }),
        final(cpu).interrupt_enable == (if opcode == 0xFB { true } else if opcode == 0xF3 {
            false } else { old(cpu).interrupt_enable }),
        opcode == 0xF8 ==> ld_hl_sp_post(*old(cpu), old(mmu)@, *final(cpu)) && final(mmu)@ == old(
            mmu,
        )@,
        c == instr_cycles(opcode, old(mmu)@.read(old(cpu).pc), old(cpu).f),
        4 <= c <= 24,
{
    if opcode == 0xCB {
        exec_cb(cpu, mmu)
    } else if opcode < 0x40 {
        exec_low(cpu, mmu, opcode)
    } else if opcode < 0x80 {
        exec_ld(cpu, mmu, opcode)
    } else if opcode < 0xC0 {
        exec_alu(cpu, mmu, opcode)
    } else {
        exec_high(cpu, mmu, opcode)
    }
}

} // verus!
