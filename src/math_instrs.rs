use vstd::prelude::*;

use crate::alu::{
    add_carry, add_half, add_result, alu_apply, alu_spec, daa_apply, daa_spec, dec_spec, inc_spec, shift,
    shift_spec, sub_half, sub_result, add8, sub8,
};
use crate::gameboy::Gameboy;
use crate::instr_common::{
    cost, high_idx, low_idx, moved, operand_spec, ready, resolve_read_reg_high,
    resolve_read_reg_low, resolve_write_reg_high, set_reg, step_ok, stored,
};
use crate::registers::{high_byte, low_byte, Registers};

verus! {



/// INC of the register, or the byte at HL, that bits 3-5 of the opcode name.
pub fn inc_reg(gb: &mut Gameboy, opcode: u8)
    requires
        ready(old(gb)),
    ensures
        step_ok(old(gb), final(gb)),
        ({
            let v = operand_spec(old(gb), high_idx(opcode));
            let r = inc_spec(old(gb).reg, v);
            let res = add_result(v, 1, false);
            &&& high_idx(opcode) != 6 ==> moved(old(gb), final(gb), set_reg(r, high_idx(opcode), res), old(gb).pc, old(gb).sp, 0)
            &&& high_idx(opcode) == 6 ==> stored(old(gb), final(gb), r, old(gb).pc, old(gb).sp, old(gb).reg.hl(), res, 8)
        }),
{
    let v = resolve_read_reg_high(gb, opcode);
    let (res, h, _c) = add8(v, 1, false);
    gb.reg.flag_z = res == 0;
    gb.reg.flag_n = false;
    gb.reg.flag_h = h;
    resolve_write_reg_high(gb, opcode, res);
}

/// DEC of the register, or the byte at HL, that bits 3-5 of the opcode name.
pub fn dec_reg(gb: &mut Gameboy, opcode: u8)
    requires
        ready(old(gb)),
    ensures
        step_ok(old(gb), final(gb)),
        ({
            let v = operand_spec(old(gb), high_idx(opcode));
            let r = dec_spec(old(gb).reg, v);
            let res = sub_result(v, 1, false);
            &&& high_idx(opcode) != 6 ==> moved(old(gb), final(gb), set_reg(r, high_idx(opcode), res), old(gb).pc, old(gb).sp, 0)
            &&& high_idx(opcode) == 6 ==> stored(old(gb), final(gb), r, old(gb).pc, old(gb).sp, old(gb).reg.hl(), res, 8)
        }),
{
    let v = resolve_read_reg_high(gb, opcode);
    let (res, h, _c) = sub8(v, 1, false);
    gb.reg.flag_z = res == 0;
    gb.reg.flag_n = true;
    gb.reg.flag_h = h;
    resolve_write_reg_high(gb, opcode, res);
}

/// The registers after `ADD HL, v`: Z is kept, H is the carry out of bit 11, C out of bit 15.
pub open spec fn add16_spec(r: Registers, v: u16) -> Registers {
    let sum = ((r.hl() as int + v as int) % 65536) as u16;
    Registers {
        h: high_byte(sum),
        l: low_byte(sum),
        flag_n: false,
        flag_h: r.hl() % 4096 + v % 4096 >= 4096,
        flag_c: r.hl() + v >= 65536,
        ..r
    }
}

/// ADD HL with a 16-bit value.
pub fn add_hl(gb: &mut Gameboy, value: u16)
    requires
        ready(old(gb)),
    ensures
        step_ok(old(gb), final(gb)),
        moved(old(gb), final(gb), add16_spec(old(gb).reg, value), old(gb).pc, old(gb).sp, 4),
{
    let hl = gb.reg.get_hl();
    let sum: u32 = hl as u32 + value as u32;
    let half = (hl % 4096) as u32 + (value % 4096) as u32 >= 4096;
    gb.reg.set_hl((sum % 65536) as u16);
    gb.reg.flag_n = false;
    gb.reg.flag_h = half;
    gb.reg.flag_c = sum >= 65536;
    gb.cycles_pending = gb.cycles_pending + 4;
}

/// CPL: A is complemented; N and H are set.
pub fn cpl(gb: &mut Gameboy)
    requires
        ready(old(gb)),
    ensures
        step_ok(old(gb), final(gb)),
        moved(old(gb), final(gb), Registers { a: !old(gb).reg.a, flag_n: true, flag_h: true, ..old(gb).reg }, old(gb).pc, old(gb).sp, 0),
{
    gb.reg = Registers { a: !gb.reg.a, flag_n: true, flag_h: true, ..gb.reg };
}

/// DAA: decimal adjust of A.
pub fn daa(gb: &mut Gameboy)
    requires
        ready(old(gb)),
    ensures
        step_ok(old(gb), final(gb)),
        moved(old(gb), final(gb), daa_spec(old(gb).reg), old(gb).pc, old(gb).sp, 0),
{
    daa_apply(&mut gb.reg);
}

/// SP plus the signed byte `e`.
pub open spec fn sp_plus(sp: u16, e: u8) -> u16 {
    sp.wrapping_add_signed(e as i8 as i16)
}

/// The flags of `SP + e`: Z and N clear, H and C from the low byte's unsigned addition.
pub open spec fn sp_plus_flags(r: Registers, sp: u16, e: u8) -> Registers {
    Registers {
        flag_z: false,
        flag_n: false,
        flag_h: add_half(low_byte(sp), e, false),
        flag_c: add_carry(low_byte(sp), e, false),
        ..r
    }
}

fn sp_offset(gb: &mut Gameboy) -> (r: (u16, Registers))
    requires
        ready(old(gb)),
    ensures
        ({
            let e = old(gb).read_spec(old(gb).pc);
            &&& r.0 == sp_plus(old(gb).sp, e)
            &&& r.1 == sp_plus_flags(old(gb).reg, old(gb).sp, e)
        }),
        moved(old(gb), final(gb), old(gb).reg, old(gb).pc.wrapping_add(1), old(gb).sp, 4),
{
    let e = gb.read_byte_inc_pc();
    let lo = (gb.sp % 256) as u8;
    let (_v, h, c) = add8(lo, e, false);
    let sum = gb.sp.wrapping_add_signed(e as i8 as i16);
    (sum, Registers { flag_z: false, flag_n: false, flag_h: h, flag_c: c, ..gb.reg })
}

/// ADD SP, e: SP plus the signed byte after the opcode.
pub fn add_sp_i8(gb: &mut Gameboy)
    requires
        ready(old(gb)),
    ensures
        step_ok(old(gb), final(gb)),
        ({
            let e = old(gb).read_spec(old(gb).pc);
            moved(
                old(gb),
                final(gb),
                sp_plus_flags(old(gb).reg, old(gb).sp, e),
                old(gb).pc.wrapping_add(1),
                sp_plus(old(gb).sp, e),
                12,
            )
        }),
{
    let (sum, r) = sp_offset(gb);
    gb.reg = r;
    gb.sp = sum;
    gb.cycles_pending = gb.cycles_pending + 8;
}

/// LD HL, SP + e.
pub fn ld_hl_sp_i8(gb: &mut Gameboy)
    requires
        ready(old(gb)),
    ensures
        step_ok(old(gb), final(gb)),
        ({
            let e = old(gb).read_spec(old(gb).pc);
            let v = sp_plus(old(gb).sp, e);
            moved(
                old(gb),
                final(gb),
                Registers { h: high_byte(v), l: low_byte(v), ..sp_plus_flags(old(gb).reg, old(gb).sp, e) },
                old(gb).pc.wrapping_add(1),
                old(gb).sp,
                4,
            )
        }),
{
    let (sum, r) = sp_offset(gb);
    gb.reg = r;
    gb.reg.set_hl(sum);
}

/// ADD A with a register or the byte at HL (bits 0-2 of the opcode).
pub fn add_a_reg(gb: &mut Gameboy, opcode: u8)
    requires
        ready(old(gb)),
    ensures
        step_ok(old(gb), final(gb)),
        moved(
            old(gb),
            final(gb),
            alu_spec(0, old(gb).reg, operand_spec(old(gb), low_idx(opcode))),
            old(gb).pc,
            old(gb).sp,
            cost(low_idx(opcode)),
        ),
{
    let x = resolve_read_reg_low(gb, opcode);
    alu_apply(0, &mut gb.reg, x);
}

/// ADD A with the byte after the opcode.
pub fn add_a_u8(gb: &mut Gameboy)
    requires
        ready(old(gb)),
    ensures
        step_ok(old(gb), final(gb)),
        moved(
            old(gb),
            final(gb),
            alu_spec(0, old(gb).reg, old(gb).read_spec(old(gb).pc)),
            old(gb).pc.wrapping_add(1),
            old(gb).sp,
            4,
        ),
{
    let x = gb.read_byte_inc_pc();
    alu_apply(0, &mut gb.reg, x);
}

/// ADC A with a register or the byte at HL (bits 0-2 of the opcode).
pub fn adc_a_reg(gb: &mut Gameboy, opcode: u8)
    requires
        ready(old(gb)),
    ensures
        step_ok(old(gb), final(gb)),
        moved(
            old(gb),
            final(gb),
            alu_spec(1, old(gb).reg, operand_spec(old(gb), low_idx(opcode))),
            old(gb).pc,
            old(gb).sp,
            cost(low_idx(opcode)),
        ),
{
    let x = resolve_read_reg_low(gb, opcode);
    alu_apply(1, &mut gb.reg, x);
}

/// ADC A with the byte after the opcode.
pub fn adc_a_u8(gb: &mut Gameboy)
    requires
        ready(old(gb)),
    ensures
        step_ok(old(gb), final(gb)),
        moved(
            old(gb),
            final(gb),
            alu_spec(1, old(gb).reg, old(gb).read_spec(old(gb).pc)),
            old(gb).pc.wrapping_add(1),
            old(gb).sp,
            4,
        ),
{
    let x = gb.read_byte_inc_pc();
    alu_apply(1, &mut gb.reg, x);
}

/// SUB A with a register or the byte at HL (bits 0-2 of the opcode).
pub fn sub_a_reg(gb: &mut Gameboy, opcode: u8)
    requires
        ready(old(gb)),
    ensures
        step_ok(old(gb), final(gb)),
        moved(
            old(gb),
            final(gb),
            alu_spec(2, old(gb).reg, operand_spec(old(gb), low_idx(opcode))),
            old(gb).pc,
            old(gb).sp,
            cost(low_idx(opcode)),
        ),
{
    let x = resolve_read_reg_low(gb, opcode);
    alu_apply(2, &mut gb.reg, x);
}

/// SUB A with the byte after the opcode.
pub fn sub_a_u8(gb: &mut Gameboy)
    requires
        ready(old(gb)),
    ensures
        step_ok(old(gb), final(gb)),
        moved(
            old(gb),
            final(gb),
            alu_spec(2, old(gb).reg, old(gb).read_spec(old(gb).pc)),
            old(gb).pc.wrapping_add(1),
            old(gb).sp,
            4,
        ),
{
    let x = gb.read_byte_inc_pc();
    alu_apply(2, &mut gb.reg, x);
}

/// SBC A with a register or the byte at HL (bits 0-2 of the opcode).
pub fn sbc_a_reg(gb: &mut Gameboy, opcode: u8)
    requires
        ready(old(gb)),
    ensures
        step_ok(old(gb), final(gb)),
        moved(
            old(gb),
            final(gb),
            alu_spec(3, old(gb).reg, operand_spec(old(gb), low_idx(opcode))),
            old(gb).pc,
            old(gb).sp,
            cost(low_idx(opcode)),
        ),
{
    let x = resolve_read_reg_low(gb, opcode);
    alu_apply(3, &mut gb.reg, x);
}

/// SBC A with the byte after the opcode.
pub fn sbc_a_u8(gb: &mut Gameboy)
    requires
        ready(old(gb)),
    ensures
        step_ok(old(gb), final(gb)),
        moved(
            old(gb),
            final(gb),
            alu_spec(3, old(gb).reg, old(gb).read_spec(old(gb).pc)),
            old(gb).pc.wrapping_add(1),
            old(gb).sp,
            4,
        ),
{
    let x = gb.read_byte_inc_pc();
    alu_apply(3, &mut gb.reg, x);
}

/// AND A with a register or the byte at HL (bits 0-2 of the opcode).
pub fn and_a_reg(gb: &mut Gameboy, opcode: u8)
    requires
        ready(old(gb)),
    ensures
        step_ok(old(gb), final(gb)),
        moved(
            old(gb),
            final(gb),
            alu_spec(4, old(gb).reg, operand_spec(old(gb), low_idx(opcode))),
            old(gb).pc,
            old(gb).sp,
            cost(low_idx(opcode)),
        ),
{
    let x = resolve_read_reg_low(gb, opcode);
    alu_apply(4, &mut gb.reg, x);
}

/// AND A with the byte after the opcode.
pub fn and_a_u8(gb: &mut Gameboy)
    requires
        ready(old(gb)),
    ensures
        step_ok(old(gb), final(gb)),
        moved(
            old(gb),
            final(gb),
            alu_spec(4, old(gb).reg, old(gb).read_spec(old(gb).pc)),
            old(gb).pc.wrapping_add(1),
            old(gb).sp,
            4,
        ),
{
    let x = gb.read_byte_inc_pc();
    alu_apply(4, &mut gb.reg, x);
}

/// XOR A with a register or the byte at HL (bits 0-2 of the opcode).
pub fn xor_a_reg(gb: &mut Gameboy, opcode: u8)
    requires
        ready(old(gb)),
    ensures
        step_ok(old(gb), final(gb)),
        moved(
            old(gb),
            final(gb),
            alu_spec(5, old(gb).reg, operand_spec(old(gb), low_idx(opcode))),
            old(gb).pc,
            old(gb).sp,
            cost(low_idx(opcode)),
        ),
{
    let x = resolve_read_reg_low(gb, opcode);
    alu_apply(5, &mut gb.reg, x);
}

/// XOR A with the byte after the opcode.
pub fn xor_a_u8(gb: &mut Gameboy)
    requires
        ready(old(gb)),
    ensures
        step_ok(old(gb), final(gb)),
        moved(
            old(gb),
            final(gb),
            alu_spec(5, old(gb).reg, old(gb).read_spec(old(gb).pc)),
            old(gb).pc.wrapping_add(1),
            old(gb).sp,
            4,
        ),
{
    let x = gb.read_byte_inc_pc();
    alu_apply(5, &mut gb.reg, x);
}

/// OR A with a register or the byte at HL (bits 0-2 of the opcode).
pub fn or_a_reg(gb: &mut Gameboy, opcode: u8)
    requires
        ready(old(gb)),
    ensures
        step_ok(old(gb), final(gb)),
        moved(
            old(gb),
            final(gb),
            alu_spec(6, old(gb).reg, operand_spec(old(gb), low_idx(opcode))),
            old(gb).pc,
            old(gb).sp,
            cost(low_idx(opcode)),
        ),
{
    let x = resolve_read_reg_low(gb, opcode);
    alu_apply(6, &mut gb.reg, x);
}

/// OR A with the byte after the opcode.
pub fn or_a_u8(gb: &mut Gameboy)
    requires
        ready(old(gb)),
    ensures
        step_ok(old(gb), final(gb)),
        moved(
            old(gb),
            final(gb),
            alu_spec(6, old(gb).reg, old(gb).read_spec(old(gb).pc)),
            old(gb).pc.wrapping_add(1),
            old(gb).sp,
            4,
        ),
{
    let x = gb.read_byte_inc_pc();
    alu_apply(6, &mut gb.reg, x);
}

/// CP A with a register or the byte at HL (bits 0-2 of the opcode).
pub fn cp_a_reg(gb: &mut Gameboy, opcode: u8)
    requires
        ready(old(gb)),
    ensures
        step_ok(old(gb), final(gb)),
        moved(
            old(gb),
            final(gb),
            alu_spec(7, old(gb).reg, operand_spec(old(gb), low_idx(opcode))),
            old(gb).pc,
            old(gb).sp,
            cost(low_idx(opcode)),
        ),
{
    let x = resolve_read_reg_low(gb, opcode);
    alu_apply(7, &mut gb.reg, x);
}

/// CP A with the byte after the opcode.
pub fn cp_a_u8(gb: &mut Gameboy)
    requires
        ready(old(gb)),
    ensures
        step_ok(old(gb), final(gb)),
        moved(
            old(gb),
            final(gb),
            alu_spec(7, old(gb).reg, old(gb).read_spec(old(gb).pc)),
            old(gb).pc.wrapping_add(1),
            old(gb).sp,
            4,
        ),
{
    let x = gb.read_byte_inc_pc();
    alu_apply(7, &mut gb.reg, x);
}

/// INC BC; flags are kept.
pub fn inc_bc(gb: &mut Gameboy)
    requires
        ready(old(gb)),
    ensures
        step_ok(old(gb), final(gb)),
        ({
            let v = old(gb).reg.bc().wrapping_add(1);
            moved(old(gb), final(gb), Registers { b: high_byte(v), c: low_byte(v), ..old(gb).reg }, old(gb).pc, old(gb).sp, 4)
        }),
{
    let v = gb.reg.get_bc();
    gb.reg.set_bc(v.wrapping_add(1));
    gb.cycles_pending = gb.cycles_pending + 4;
}

/// DEC BC; flags are kept.
pub fn dec_bc(gb: &mut Gameboy)
    requires
        ready(old(gb)),
    ensures
        step_ok(old(gb), final(gb)),
        ({
            let v = old(gb).reg.bc().wrapping_sub(1);
            moved(old(gb), final(gb), Registers { b: high_byte(v), c: low_byte(v), ..old(gb).reg }, old(gb).pc, old(gb).sp, 4)
        }),
{
    let v = gb.reg.get_bc();
    gb.reg.set_bc(v.wrapping_sub(1));
    gb.cycles_pending = gb.cycles_pending + 4;
}

/// ADD HL, BC.
pub fn add_hl_bc(gb: &mut Gameboy)
    requires
        ready(old(gb)),
    ensures
        step_ok(old(gb), final(gb)),
        moved(old(gb), final(gb), add16_spec(old(gb).reg, old(gb).reg.bc()), old(gb).pc, old(gb).sp, 4),
{
    let v = gb.reg.get_bc();
    add_hl(gb, v);
}

/// INC DE; flags are kept.
pub fn inc_de(gb: &mut Gameboy)
    requires
        ready(old(gb)),
    ensures
        step_ok(old(gb), final(gb)),
        ({
            let v = old(gb).reg.de().wrapping_add(1);
            moved(old(gb), final(gb), Registers { d: high_byte(v), e: low_byte(v), ..old(gb).reg }, old(gb).pc, old(gb).sp, 4)
        }),
{
    let v = gb.reg.get_de();
    gb.reg.set_de(v.wrapping_add(1));
    gb.cycles_pending = gb.cycles_pending + 4;
}

/// DEC DE; flags are kept.
pub fn dec_de(gb: &mut Gameboy)
    requires
        ready(old(gb)),
    ensures
        step_ok(old(gb), final(gb)),
        ({
            let v = old(gb).reg.de().wrapping_sub(1);
            moved(old(gb), final(gb), Registers { d: high_byte(v), e: low_byte(v), ..old(gb).reg }, old(gb).pc, old(gb).sp, 4)
        }),
{
    let v = gb.reg.get_de();
    gb.reg.set_de(v.wrapping_sub(1));
    gb.cycles_pending = gb.cycles_pending + 4;
}

/// ADD HL, DE.
pub fn add_hl_de(gb: &mut Gameboy)
    requires
        ready(old(gb)),
    ensures
        step_ok(old(gb), final(gb)),
        moved(old(gb), final(gb), add16_spec(old(gb).reg, old(gb).reg.de()), old(gb).pc, old(gb).sp, 4),
{
    let v = gb.reg.get_de();
    add_hl(gb, v);
}

/// INC HL; flags are kept.
pub fn inc_hl(gb: &mut Gameboy)
    requires
        ready(old(gb)),
    ensures
        step_ok(old(gb), final(gb)),
        ({
            let v = old(gb).reg.hl().wrapping_add(1);
            moved(old(gb), final(gb), Registers { h: high_byte(v), l: low_byte(v), ..old(gb).reg }, old(gb).pc, old(gb).sp, 4)
        }),
{
    let v = gb.reg.get_hl();
    gb.reg.set_hl(v.wrapping_add(1));
    gb.cycles_pending = gb.cycles_pending + 4;
}

/// DEC HL; flags are kept.
pub fn dec_hl(gb: &mut Gameboy)
    requires
        ready(old(gb)),
    ensures
        step_ok(old(gb), final(gb)),
        ({
            let v = old(gb).reg.hl().wrapping_sub(1);
            moved(old(gb), final(gb), Registers { h: high_byte(v), l: low_byte(v), ..old(gb).reg }, old(gb).pc, old(gb).sp, 4)
        }),
{
    let v = gb.reg.get_hl();
    gb.reg.set_hl(v.wrapping_sub(1));
    gb.cycles_pending = gb.cycles_pending + 4;
}

/// ADD HL, HL.
pub fn add_hl_hl(gb: &mut Gameboy)
    requires
        ready(old(gb)),
    ensures
        step_ok(old(gb), final(gb)),
        moved(old(gb), final(gb), add16_spec(old(gb).reg, old(gb).reg.hl()), old(gb).pc, old(gb).sp, 4),
{
    let v = gb.reg.get_hl();
    add_hl(gb, v);
}

/// INC SP; flags are kept.
pub fn inc_sp(gb: &mut Gameboy)
    requires
        ready(old(gb)),
    ensures
        step_ok(old(gb), final(gb)),
        moved(old(gb), final(gb), old(gb).reg, old(gb).pc, old(gb).sp.wrapping_add(1), 4),
{
    gb.sp = gb.sp.wrapping_add(1);
    gb.cycles_pending = gb.cycles_pending + 4;
}

/// DEC SP; flags are kept.
pub fn dec_sp(gb: &mut Gameboy)
    requires
        ready(old(gb)),
    ensures
        step_ok(old(gb), final(gb)),
        moved(old(gb), final(gb), old(gb).reg, old(gb).pc, old(gb).sp.wrapping_sub(1), 4),
{
    gb.sp = gb.sp.wrapping_sub(1);
    gb.cycles_pending = gb.cycles_pending + 4;
}

/// ADD HL, SP.
pub fn add_hl_sp(gb: &mut Gameboy)
    requires
        ready(old(gb)),
    ensures
        step_ok(old(gb), final(gb)),
        moved(old(gb), final(gb), add16_spec(old(gb).reg, old(gb).sp), old(gb).pc, old(gb).sp, 4),
{
    let v = gb.sp;
    add_hl(gb, v);
}

/// RLCA: A rotated left, bit 7 into C and bit 0. Z, N and H are cleared.
pub fn rlca(gb: &mut Gameboy)
    requires
        ready(old(gb)),
    ensures
        step_ok(old(gb), final(gb)),
        ({
            let s = shift_spec(0, old(gb).reg.a, old(gb).reg.flag_c);
            moved(
                old(gb),
                final(gb),
                Registers { a: s.0, flag_z: false, flag_n: false, flag_h: false, flag_c: s.1, ..old(gb).reg },
                old(gb).pc,
                old(gb).sp,
                0,
            )
        }),
{
    let (v, c) = shift(0, gb.reg.a, gb.reg.flag_c);
    gb.reg = Registers { a: v, flag_z: false, flag_n: false, flag_h: false, flag_c: c, ..gb.reg };
}

/// RRCA: A rotated right, bit 0 into C and bit 7. Z, N and H are cleared.
pub fn rrca(gb: &mut Gameboy)
    requires
        ready(old(gb)),
    ensures
        step_ok(old(gb), final(gb)),
        ({
            let s = shift_spec(1, old(gb).reg.a, old(gb).reg.flag_c);
            moved(
                old(gb),
                final(gb),
                Registers { a: s.0, flag_z: false, flag_n: false, flag_h: false, flag_c: s.1, ..old(gb).reg },
                old(gb).pc,
                old(gb).sp,
                0,
            )
        }),
{
    let (v, c) = shift(1, gb.reg.a, gb.reg.flag_c);
    gb.reg = Registers { a: v, flag_z: false, flag_n: false, flag_h: false, flag_c: c, ..gb.reg };
}

/// RLA: A rotated left through C. Z, N and H are cleared.
pub fn rla(gb: &mut Gameboy)
    requires
        ready(old(gb)),
    ensures
        step_ok(old(gb), final(gb)),
        ({
            let s = shift_spec(2, old(gb).reg.a, old(gb).reg.flag_c);
            moved(
                old(gb),
                final(gb),
                Registers { a: s.0, flag_z: false, flag_n: false, flag_h: false, flag_c: s.1, ..old(gb).reg },
                old(gb).pc,
                old(gb).sp,
                0,
            )
        }),
{
    let (v, c) = shift(2, gb.reg.a, gb.reg.flag_c);
    gb.reg = Registers { a: v, flag_z: false, flag_n: false, flag_h: false, flag_c: c, ..gb.reg };
}

/// RRA: A rotated right through C. Z, N and H are cleared.
pub fn rra(gb: &mut Gameboy)
    requires
        ready(old(gb)),
    ensures
        step_ok(old(gb), final(gb)),
        ({
            let s = shift_spec(3, old(gb).reg.a, old(gb).reg.flag_c);
            moved(
                old(gb),
                final(gb),
                Registers { a: s.0, flag_z: false, flag_n: false, flag_h: false, flag_c: s.1, ..old(gb).reg },
                old(gb).pc,
                old(gb).sp,
                0,
            )
        }),
{
    let (v, c) = shift(3, gb.reg.a, gb.reg.flag_c);
    gb.reg = Registers { a: v, flag_z: false, flag_n: false, flag_h: false, flag_c: c, ..gb.reg };
}

} // verus!
