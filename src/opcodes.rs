use vstd::prelude::*;

use crate::alu::{add_result, alu_spec, daa_spec, dec_spec, inc_spec, shift_spec, sub_result};
use crate::gameboy::{wrote_short, Gameboy, OtherState};
use crate::instr_common::{cost, high_idx, low_idx, moved, operand_spec, ready, set_reg, stored};
use crate::jump_instrs::rel_target;
use crate::load_instrs::{hl_step, imm16, top16, with_af};
use crate::math_instrs::{add16_spec, sp_plus, sp_plus_flags};
use crate::prefix_cb::cb_effect;
use crate::registers::{high_byte, low_byte, Registers};
use crate::jump_instrs::{
    call_c_u16, call_nc_u16, call_nz_u16, call_u16, call_z_u16, jp_c_u16,
    jp_hl, jp_nc_u16, jp_nz_u16, jp_u16, jp_z_u16, jr_c_i8, jr_i8, jr_nc_i8, jr_nz_i8, jr_z_i8,
    ret, ret_c, ret_nc, ret_nz, ret_z, reti, rst_n,
};
use crate::misc_instrs::{ccf, di, ei, halt, scf};
use crate::load_instrs::{
    ld_a_addr_bc, ld_a_addr_de, ld_a_addr_dec_hl, ld_a_addr_inc_hl, ld_a_addr_u16, ld_a_ff00_c,
    ld_a_ff00_u8, ld_addr_bc_a, ld_addr_de_a, ld_addr_dec_hl_a, ld_addr_inc_hl_a, ld_addr_u16_a,
    ld_addr_u16_sp, ld_bc_u16, ld_de_u16, ld_ff00_c_a, ld_ff00_u8_a, ld_hl_u16, ld_reg_reg,
    ld_reg_u8, ld_sp_hl, ld_sp_u16, pop_af, pop_bc, pop_de, pop_hl, push_af, push_bc, push_de,
    push_hl,
};
use crate::math_instrs::{
    adc_a_reg, adc_a_u8, add_a_reg, add_a_u8, add_hl_bc, add_hl_de, add_hl_hl, add_hl_sp,
    add_sp_i8, and_a_reg, and_a_u8, cp_a_reg, cp_a_u8, cpl, daa, dec_bc, dec_de, dec_hl, dec_reg,
    dec_sp, inc_bc, inc_de, inc_hl, inc_reg, inc_sp, ld_hl_sp_i8, or_a_reg, or_a_u8, rla, rlca,
    rra, rrca, sbc_a_reg, sbc_a_u8, sub_a_reg, sub_a_u8, xor_a_reg, xor_a_u8,
};
use crate::prefix_cb::prefix_cb;

verus! {

/// The base opcodes that the hardware leaves undefined.
pub open spec fn undefined_opcode(op: u8) -> bool {
    op == 0xd3 || op == 0xdb || op == 0xdd || op == 0xe3 || op == 0xe4 || op == 0xeb || op == 0xec
        || op == 0xed || op == 0xf4 || op == 0xfc || op == 0xfd
}

/// What every opcode leaves: a well-formed machine, at most 32 more cycles, IME changed
/// only by DI and RETI, the pending enable set only by EI, HALT set only by HALT, and the
/// PPU where it was.
pub open spec fn dispatched(o: &Gameboy, n: &Gameboy, op: u8) -> bool {
    &&& n.wf()
    &&& o.cycles_pending <= n.cycles_pending <= o.cycles_pending + 32
    &&& n.books_same(o)
    &&& n.ime == if op == 0xf3 {
        false
    } else if op == 0xd9 {
        true
    } else {
        o.ime
    }
    &&& n.other_state.ime_next_cycle == (op == 0xfb || o.other_state.ime_next_cycle)
    &&& n.other_state.halted == (op == 0x76 || o.other_state.halted)
    &&& n.ppu.same_timing(&o.ppu)
}

/// The exact effect of each opcode of 0x00-0x3F, as its handler states it.
pub open spec fn effect_block0(o: &Gameboy, n: &Gameboy, op: u8) -> bool {
    if op == 0x00 {
        moved(o, n, o.reg, o.pc, o.sp, 0)
    } else if op == 0x01 {
        (({ let v = imm16(o); moved(o, n, Registers { b: high_byte(v), c: low_byte(v), ..o.reg }, o.pc.wrapping_add(2), o.sp, 8) }))
    } else if op == 0x02 {
        (stored(o, n, o.reg, o.pc, o.sp, o.reg.bc(), o.reg.a, 4))
    } else if op == 0x03 {
        (({ let v = o.reg.bc().wrapping_add(1); moved(o, n, Registers { b: high_byte(v), c: low_byte(v), ..o.reg }, o.pc, o.sp, 4) }))
    } else if op == 0x04 {
        (({ let v = operand_spec(o, high_idx(op)); let r = inc_spec(o.reg, v); let res = add_result(v, 1, false);
            &&& high_idx(op) != 6 ==> moved(o, n, set_reg(r, high_idx(op), res), o.pc, o.sp, 0)
            &&& high_idx(op) == 6 ==> stored(o, n, r, o.pc, o.sp, o.reg.hl(), res, 8) }))
    } else if op == 0x05 {
        (({ let v = operand_spec(o, high_idx(op)); let r = dec_spec(o.reg, v); let res = sub_result(v, 1, false);
            &&& high_idx(op) != 6 ==> moved(o, n, set_reg(r, high_idx(op), res), o.pc, o.sp, 0)
            &&& high_idx(op) == 6 ==> stored(o, n, r, o.pc, o.sp, o.reg.hl(), res, 8) }))
    } else if op == 0x06 {
        (({ let v = o.read_spec(o.pc); let pc = o.pc.wrapping_add(1);
            &&& high_idx(op) != 6 ==> moved(o, n, set_reg(o.reg, high_idx(op), v), pc, o.sp, 4)
            &&& high_idx(op) == 6 ==> stored(o, n, o.reg, pc, o.sp, o.reg.hl(), v, 8) }))
    } else if op == 0x07 {
        (({ let s = shift_spec(0, o.reg.a, o.reg.flag_c); moved( o, n, Registers { a: s.0, flag_z: false, flag_n: false, flag_h: false, flag_c: s.1, ..o.reg }, o.pc, o.sp, 0, ) }))
    } else if op == 0x08 {
        (n.reg == o.reg)
            && (n.pc == o.pc.wrapping_add(2))
            && (n.sp == o.sp)
            && (n.ime == o.ime)
            && (n.cycles_pending == o.cycles_pending + 16)
            && (wrote_short(Gameboy { pc: o.pc.wrapping_add(2), ..*o }, *n, imm16(o), o.sp))
    } else if op == 0x09 {
        (moved(o, n, add16_spec(o.reg, o.reg.bc()), o.pc, o.sp, 4))
    } else if op == 0x0a {
        (moved(o, n, Registers { a: o.read_spec(o.reg.bc()), ..o.reg }, o.pc, o.sp, 4))
    } else if op == 0x0b {
        (({ let v = o.reg.bc().wrapping_sub(1); moved(o, n, Registers { b: high_byte(v), c: low_byte(v), ..o.reg }, o.pc, o.sp, 4) }))
    } else if op == 0x0c {
        (({ let v = operand_spec(o, high_idx(op)); let r = inc_spec(o.reg, v); let res = add_result(v, 1, false);
            &&& high_idx(op) != 6 ==> moved(o, n, set_reg(r, high_idx(op), res), o.pc, o.sp, 0)
            &&& high_idx(op) == 6 ==> stored(o, n, r, o.pc, o.sp, o.reg.hl(), res, 8) }))
    } else if op == 0x0d {
        (({ let v = operand_spec(o, high_idx(op)); let r = dec_spec(o.reg, v); let res = sub_result(v, 1, false);
            &&& high_idx(op) != 6 ==> moved(o, n, set_reg(r, high_idx(op), res), o.pc, o.sp, 0)
            &&& high_idx(op) == 6 ==> stored(o, n, r, o.pc, o.sp, o.reg.hl(), res, 8) }))
    } else if op == 0x0e {
        (({ let v = o.read_spec(o.pc); let pc = o.pc.wrapping_add(1);
            &&& high_idx(op) != 6 ==> moved(o, n, set_reg(o.reg, high_idx(op), v), pc, o.sp, 4)
            &&& high_idx(op) == 6 ==> stored(o, n, o.reg, pc, o.sp, o.reg.hl(), v, 8) }))
    } else if op == 0x0f {
        (({ let s = shift_spec(1, o.reg.a, o.reg.flag_c); moved( o, n, Registers { a: s.0, flag_z: false, flag_n: false, flag_h: false, flag_c: s.1, ..o.reg }, o.pc, o.sp, 0, ) }))
    } else if op == 0x10 {
        moved(o, n, o.reg, o.pc.wrapping_add(1), o.sp, 4)
    } else if op == 0x11 {
        (({ let v = imm16(o); moved(o, n, Registers { d: high_byte(v), e: low_byte(v), ..o.reg }, o.pc.wrapping_add(2), o.sp, 8) }))
    } else if op == 0x12 {
        (stored(o, n, o.reg, o.pc, o.sp, o.reg.de(), o.reg.a, 4))
    } else if op == 0x13 {
        (({ let v = o.reg.de().wrapping_add(1); moved(o, n, Registers { d: high_byte(v), e: low_byte(v), ..o.reg }, o.pc, o.sp, 4) }))
    } else if op == 0x14 {
        (({ let v = operand_spec(o, high_idx(op)); let r = inc_spec(o.reg, v); let res = add_result(v, 1, false);
            &&& high_idx(op) != 6 ==> moved(o, n, set_reg(r, high_idx(op), res), o.pc, o.sp, 0)
            &&& high_idx(op) == 6 ==> stored(o, n, r, o.pc, o.sp, o.reg.hl(), res, 8) }))
    } else if op == 0x15 {
        (({ let v = operand_spec(o, high_idx(op)); let r = dec_spec(o.reg, v); let res = sub_result(v, 1, false);
            &&& high_idx(op) != 6 ==> moved(o, n, set_reg(r, high_idx(op), res), o.pc, o.sp, 0)
            &&& high_idx(op) == 6 ==> stored(o, n, r, o.pc, o.sp, o.reg.hl(), res, 8) }))
    } else if op == 0x16 {
        (({ let v = o.read_spec(o.pc); let pc = o.pc.wrapping_add(1);
            &&& high_idx(op) != 6 ==> moved(o, n, set_reg(o.reg, high_idx(op), v), pc, o.sp, 4)
            &&& high_idx(op) == 6 ==> stored(o, n, o.reg, pc, o.sp, o.reg.hl(), v, 8) }))
    } else if op == 0x17 {
        (({ let s = shift_spec(2, o.reg.a, o.reg.flag_c); moved( o, n, Registers { a: s.0, flag_z: false, flag_n: false, flag_h: false, flag_c: s.1, ..o.reg }, o.pc, o.sp, 0, ) }))
    } else if op == 0x18 {
        (({ let next = o.pc.wrapping_add(1); let e = o.read_spec(o.pc); moved( o, n, o.reg, if true { rel_target(next, e) } else { next }, o.sp, if true { 8 } else { 4 }, ) }))
    } else if op == 0x19 {
        (moved(o, n, add16_spec(o.reg, o.reg.de()), o.pc, o.sp, 4))
    } else if op == 0x1a {
        (moved(o, n, Registers { a: o.read_spec(o.reg.de()), ..o.reg }, o.pc, o.sp, 4))
    } else if op == 0x1b {
        (({ let v = o.reg.de().wrapping_sub(1); moved(o, n, Registers { d: high_byte(v), e: low_byte(v), ..o.reg }, o.pc, o.sp, 4) }))
    } else if op == 0x1c {
        (({ let v = operand_spec(o, high_idx(op)); let r = inc_spec(o.reg, v); let res = add_result(v, 1, false);
            &&& high_idx(op) != 6 ==> moved(o, n, set_reg(r, high_idx(op), res), o.pc, o.sp, 0)
            &&& high_idx(op) == 6 ==> stored(o, n, r, o.pc, o.sp, o.reg.hl(), res, 8) }))
    } else if op == 0x1d {
        (({ let v = operand_spec(o, high_idx(op)); let r = dec_spec(o.reg, v); let res = sub_result(v, 1, false);
            &&& high_idx(op) != 6 ==> moved(o, n, set_reg(r, high_idx(op), res), o.pc, o.sp, 0)
            &&& high_idx(op) == 6 ==> stored(o, n, r, o.pc, o.sp, o.reg.hl(), res, 8) }))
    } else if op == 0x1e {
        (({ let v = o.read_spec(o.pc); let pc = o.pc.wrapping_add(1);
            &&& high_idx(op) != 6 ==> moved(o, n, set_reg(o.reg, high_idx(op), v), pc, o.sp, 4)
            &&& high_idx(op) == 6 ==> stored(o, n, o.reg, pc, o.sp, o.reg.hl(), v, 8) }))
    } else if op == 0x1f {
        (({ let s = shift_spec(3, o.reg.a, o.reg.flag_c); moved( o, n, Registers { a: s.0, flag_z: false, flag_n: false, flag_h: false, flag_c: s.1, ..o.reg }, o.pc, o.sp, 0, ) }))
    } else if op == 0x20 {
        (({ let next = o.pc.wrapping_add(1); let e = o.read_spec(o.pc); moved( o, n, o.reg, if !o.reg.flag_z { rel_target(next, e) } else { next }, o.sp, if !o.reg.flag_z { 8 } else { 4 }, ) }))
    } else if op == 0x21 {
        (({ let v = imm16(o); moved(o, n, Registers { h: high_byte(v), l: low_byte(v), ..o.reg }, o.pc.wrapping_add(2), o.sp, 8) }))
    } else if op == 0x22 {
        (stored(o, n, hl_step(o.reg, true), o.pc, o.sp, o.reg.hl(), o.reg.a, 4))
    } else if op == 0x23 {
        (({ let v = o.reg.hl().wrapping_add(1); moved(o, n, Registers { h: high_byte(v), l: low_byte(v), ..o.reg }, o.pc, o.sp, 4) }))
    } else if op == 0x24 {
        (({ let v = operand_spec(o, high_idx(op)); let r = inc_spec(o.reg, v); let res = add_result(v, 1, false);
            &&& high_idx(op) != 6 ==> moved(o, n, set_reg(r, high_idx(op), res), o.pc, o.sp, 0)
            &&& high_idx(op) == 6 ==> stored(o, n, r, o.pc, o.sp, o.reg.hl(), res, 8) }))
    } else if op == 0x25 {
        (({ let v = operand_spec(o, high_idx(op)); let r = dec_spec(o.reg, v); let res = sub_result(v, 1, false);
            &&& high_idx(op) != 6 ==> moved(o, n, set_reg(r, high_idx(op), res), o.pc, o.sp, 0)
            &&& high_idx(op) == 6 ==> stored(o, n, r, o.pc, o.sp, o.reg.hl(), res, 8) }))
    } else if op == 0x26 {
        (({ let v = o.read_spec(o.pc); let pc = o.pc.wrapping_add(1);
            &&& high_idx(op) != 6 ==> moved(o, n, set_reg(o.reg, high_idx(op), v), pc, o.sp, 4)
            &&& high_idx(op) == 6 ==> stored(o, n, o.reg, pc, o.sp, o.reg.hl(), v, 8) }))
    } else if op == 0x27 {
        (moved(o, n, daa_spec(o.reg), o.pc, o.sp, 0))
    } else if op == 0x28 {
        (({ let next = o.pc.wrapping_add(1); let e = o.read_spec(o.pc); moved( o, n, o.reg, if o.reg.flag_z { rel_target(next, e) } else { next }, o.sp, if o.reg.flag_z { 8 } else { 4 }, ) }))
    } else if op == 0x29 {
        (moved(o, n, add16_spec(o.reg, o.reg.hl()), o.pc, o.sp, 4))
    } else if op == 0x2a {
        (moved(o, n, Registers { a: o.read_spec(o.reg.hl()), ..hl_step(o.reg, true) }, o.pc, o.sp, 4))
    } else if op == 0x2b {
        (({ let v = o.reg.hl().wrapping_sub(1); moved(o, n, Registers { h: high_byte(v), l: low_byte(v), ..o.reg }, o.pc, o.sp, 4) }))
    } else if op == 0x2c {
        (({ let v = operand_spec(o, high_idx(op)); let r = inc_spec(o.reg, v); let res = add_result(v, 1, false);
            &&& high_idx(op) != 6 ==> moved(o, n, set_reg(r, high_idx(op), res), o.pc, o.sp, 0)
            &&& high_idx(op) == 6 ==> stored(o, n, r, o.pc, o.sp, o.reg.hl(), res, 8) }))
    } else if op == 0x2d {
        (({ let v = operand_spec(o, high_idx(op)); let r = dec_spec(o.reg, v); let res = sub_result(v, 1, false);
            &&& high_idx(op) != 6 ==> moved(o, n, set_reg(r, high_idx(op), res), o.pc, o.sp, 0)
            &&& high_idx(op) == 6 ==> stored(o, n, r, o.pc, o.sp, o.reg.hl(), res, 8) }))
    } else if op == 0x2e {
        (({ let v = o.read_spec(o.pc); let pc = o.pc.wrapping_add(1);
            &&& high_idx(op) != 6 ==> moved(o, n, set_reg(o.reg, high_idx(op), v), pc, o.sp, 4)
            &&& high_idx(op) == 6 ==> stored(o, n, o.reg, pc, o.sp, o.reg.hl(), v, 8) }))
    } else if op == 0x2f {
        (moved(o, n, Registers { a: !o.reg.a, flag_n: true, flag_h: true, ..o.reg }, o.pc, o.sp, 0))
    } else if op == 0x30 {
        (({ let next = o.pc.wrapping_add(1); let e = o.read_spec(o.pc); moved( o, n, o.reg, if !o.reg.flag_c { rel_target(next, e) } else { next }, o.sp, if !o.reg.flag_c { 8 } else { 4 }, ) }))
    } else if op == 0x31 {
        (moved(o, n, o.reg, o.pc.wrapping_add(2), imm16(o), 8))
    } else if op == 0x32 {
        (stored(o, n, hl_step(o.reg, false), o.pc, o.sp, o.reg.hl(), o.reg.a, 4))
    } else if op == 0x33 {
        (moved(o, n, o.reg, o.pc, o.sp.wrapping_add(1), 4))
    } else if op == 0x34 {
        (({ let v = operand_spec(o, high_idx(op)); let r = inc_spec(o.reg, v); let res = add_result(v, 1, false);
            &&& high_idx(op) != 6 ==> moved(o, n, set_reg(r, high_idx(op), res), o.pc, o.sp, 0)
            &&& high_idx(op) == 6 ==> stored(o, n, r, o.pc, o.sp, o.reg.hl(), res, 8) }))
    } else if op == 0x35 {
        (({ let v = operand_spec(o, high_idx(op)); let r = dec_spec(o.reg, v); let res = sub_result(v, 1, false);
            &&& high_idx(op) != 6 ==> moved(o, n, set_reg(r, high_idx(op), res), o.pc, o.sp, 0)
            &&& high_idx(op) == 6 ==> stored(o, n, r, o.pc, o.sp, o.reg.hl(), res, 8) }))
    } else if op == 0x36 {
        (({ let v = o.read_spec(o.pc); let pc = o.pc.wrapping_add(1);
            &&& high_idx(op) != 6 ==> moved(o, n, set_reg(o.reg, high_idx(op), v), pc, o.sp, 4)
            &&& high_idx(op) == 6 ==> stored(o, n, o.reg, pc, o.sp, o.reg.hl(), v, 8) }))
    } else if op == 0x37 {
        (moved(o, n, Registers { flag_n: false, flag_h: false, flag_c: true, ..o.reg }, o.pc, o.sp, 0))
    } else if op == 0x38 {
        (({ let next = o.pc.wrapping_add(1); let e = o.read_spec(o.pc); moved( o, n, o.reg, if o.reg.flag_c { rel_target(next, e) } else { next }, o.sp, if o.reg.flag_c { 8 } else { 4 }, ) }))
    } else if op == 0x39 {
        (moved(o, n, add16_spec(o.reg, o.sp), o.pc, o.sp, 4))
    } else if op == 0x3a {
        (moved(o, n, Registers { a: o.read_spec(o.reg.hl()), ..hl_step(o.reg, false) }, o.pc, o.sp, 4))
    } else if op == 0x3b {
        (moved(o, n, o.reg, o.pc, o.sp.wrapping_sub(1), 4))
    } else if op == 0x3c {
        (({ let v = operand_spec(o, high_idx(op)); let r = inc_spec(o.reg, v); let res = add_result(v, 1, false);
            &&& high_idx(op) != 6 ==> moved(o, n, set_reg(r, high_idx(op), res), o.pc, o.sp, 0)
            &&& high_idx(op) == 6 ==> stored(o, n, r, o.pc, o.sp, o.reg.hl(), res, 8) }))
    } else if op == 0x3d {
        (({ let v = operand_spec(o, high_idx(op)); let r = dec_spec(o.reg, v); let res = sub_result(v, 1, false);
            &&& high_idx(op) != 6 ==> moved(o, n, set_reg(r, high_idx(op), res), o.pc, o.sp, 0)
            &&& high_idx(op) == 6 ==> stored(o, n, r, o.pc, o.sp, o.reg.hl(), res, 8) }))
    } else if op == 0x3e {
        (({ let v = o.read_spec(o.pc); let pc = o.pc.wrapping_add(1);
            &&& high_idx(op) != 6 ==> moved(o, n, set_reg(o.reg, high_idx(op), v), pc, o.sp, 4)
            &&& high_idx(op) == 6 ==> stored(o, n, o.reg, pc, o.sp, o.reg.hl(), v, 8) }))
    } else {
        (moved(o, n, Registers { flag_n: false, flag_h: false, flag_c: !o.reg.flag_c, ..o.reg }, o.pc, o.sp, 0))
    }
}

/// The exact effect of each opcode of 0x40-0x7F, as its handler states it.
pub open spec fn effect_block1(o: &Gameboy, n: &Gameboy, op: u8) -> bool {
    if op == 0x40 {
        (({ let v = operand_spec(o, low_idx(op));
            &&& high_idx(op) != 6 ==> moved(o, n, set_reg(o.reg, high_idx(op), v), o.pc, o.sp, cost(low_idx(op)))
            &&& high_idx(op) == 6 ==> stored(o, n, o.reg, o.pc, o.sp, o.reg.hl(), v, 4 + cost(low_idx(op))) }))
    } else if op == 0x41 {
        (({ let v = operand_spec(o, low_idx(op));
            &&& high_idx(op) != 6 ==> moved(o, n, set_reg(o.reg, high_idx(op), v), o.pc, o.sp, cost(low_idx(op)))
            &&& high_idx(op) == 6 ==> stored(o, n, o.reg, o.pc, o.sp, o.reg.hl(), v, 4 + cost(low_idx(op))) }))
    } else if op == 0x42 {
        (({ let v = operand_spec(o, low_idx(op));
            &&& high_idx(op) != 6 ==> moved(o, n, set_reg(o.reg, high_idx(op), v), o.pc, o.sp, cost(low_idx(op)))
            &&& high_idx(op) == 6 ==> stored(o, n, o.reg, o.pc, o.sp, o.reg.hl(), v, 4 + cost(low_idx(op))) }))
    } else if op == 0x43 {
        (({ let v = operand_spec(o, low_idx(op));
            &&& high_idx(op) != 6 ==> moved(o, n, set_reg(o.reg, high_idx(op), v), o.pc, o.sp, cost(low_idx(op)))
            &&& high_idx(op) == 6 ==> stored(o, n, o.reg, o.pc, o.sp, o.reg.hl(), v, 4 + cost(low_idx(op))) }))
    } else if op == 0x44 {
        (({ let v = operand_spec(o, low_idx(op));
            &&& high_idx(op) != 6 ==> moved(o, n, set_reg(o.reg, high_idx(op), v), o.pc, o.sp, cost(low_idx(op)))
            &&& high_idx(op) == 6 ==> stored(o, n, o.reg, o.pc, o.sp, o.reg.hl(), v, 4 + cost(low_idx(op))) }))
    } else if op == 0x45 {
        (({ let v = operand_spec(o, low_idx(op));
            &&& high_idx(op) != 6 ==> moved(o, n, set_reg(o.reg, high_idx(op), v), o.pc, o.sp, cost(low_idx(op)))
            &&& high_idx(op) == 6 ==> stored(o, n, o.reg, o.pc, o.sp, o.reg.hl(), v, 4 + cost(low_idx(op))) }))
    } else if op == 0x46 {
        (({ let v = operand_spec(o, low_idx(op));
            &&& high_idx(op) != 6 ==> moved(o, n, set_reg(o.reg, high_idx(op), v), o.pc, o.sp, cost(low_idx(op)))
            &&& high_idx(op) == 6 ==> stored(o, n, o.reg, o.pc, o.sp, o.reg.hl(), v, 4 + cost(low_idx(op))) }))
    } else if op == 0x47 {
        (({ let v = operand_spec(o, low_idx(op));
            &&& high_idx(op) != 6 ==> moved(o, n, set_reg(o.reg, high_idx(op), v), o.pc, o.sp, cost(low_idx(op)))
            &&& high_idx(op) == 6 ==> stored(o, n, o.reg, o.pc, o.sp, o.reg.hl(), v, 4 + cost(low_idx(op))) }))
    } else if op == 0x48 {
        (({ let v = operand_spec(o, low_idx(op));
            &&& high_idx(op) != 6 ==> moved(o, n, set_reg(o.reg, high_idx(op), v), o.pc, o.sp, cost(low_idx(op)))
            &&& high_idx(op) == 6 ==> stored(o, n, o.reg, o.pc, o.sp, o.reg.hl(), v, 4 + cost(low_idx(op))) }))
    } else if op == 0x49 {
        (({ let v = operand_spec(o, low_idx(op));
            &&& high_idx(op) != 6 ==> moved(o, n, set_reg(o.reg, high_idx(op), v), o.pc, o.sp, cost(low_idx(op)))
            &&& high_idx(op) == 6 ==> stored(o, n, o.reg, o.pc, o.sp, o.reg.hl(), v, 4 + cost(low_idx(op))) }))
    } else if op == 0x4a {
        (({ let v = operand_spec(o, low_idx(op));
            &&& high_idx(op) != 6 ==> moved(o, n, set_reg(o.reg, high_idx(op), v), o.pc, o.sp, cost(low_idx(op)))
            &&& high_idx(op) == 6 ==> stored(o, n, o.reg, o.pc, o.sp, o.reg.hl(), v, 4 + cost(low_idx(op))) }))
    } else if op == 0x4b {
        (({ let v = operand_spec(o, low_idx(op));
            &&& high_idx(op) != 6 ==> moved(o, n, set_reg(o.reg, high_idx(op), v), o.pc, o.sp, cost(low_idx(op)))
            &&& high_idx(op) == 6 ==> stored(o, n, o.reg, o.pc, o.sp, o.reg.hl(), v, 4 + cost(low_idx(op))) }))
    } else if op == 0x4c {
        (({ let v = operand_spec(o, low_idx(op));
            &&& high_idx(op) != 6 ==> moved(o, n, set_reg(o.reg, high_idx(op), v), o.pc, o.sp, cost(low_idx(op)))
            &&& high_idx(op) == 6 ==> stored(o, n, o.reg, o.pc, o.sp, o.reg.hl(), v, 4 + cost(low_idx(op))) }))
    } else if op == 0x4d {
        (({ let v = operand_spec(o, low_idx(op));
            &&& high_idx(op) != 6 ==> moved(o, n, set_reg(o.reg, high_idx(op), v), o.pc, o.sp, cost(low_idx(op)))
            &&& high_idx(op) == 6 ==> stored(o, n, o.reg, o.pc, o.sp, o.reg.hl(), v, 4 + cost(low_idx(op))) }))
    } else if op == 0x4e {
        (({ let v = operand_spec(o, low_idx(op));
            &&& high_idx(op) != 6 ==> moved(o, n, set_reg(o.reg, high_idx(op), v), o.pc, o.sp, cost(low_idx(op)))
            &&& high_idx(op) == 6 ==> stored(o, n, o.reg, o.pc, o.sp, o.reg.hl(), v, 4 + cost(low_idx(op))) }))
    } else if op == 0x4f {
        (({ let v = operand_spec(o, low_idx(op));
            &&& high_idx(op) != 6 ==> moved(o, n, set_reg(o.reg, high_idx(op), v), o.pc, o.sp, cost(low_idx(op)))
            &&& high_idx(op) == 6 ==> stored(o, n, o.reg, o.pc, o.sp, o.reg.hl(), v, 4 + cost(low_idx(op))) }))
    } else if op == 0x50 {
        (({ let v = operand_spec(o, low_idx(op));
            &&& high_idx(op) != 6 ==> moved(o, n, set_reg(o.reg, high_idx(op), v), o.pc, o.sp, cost(low_idx(op)))
            &&& high_idx(op) == 6 ==> stored(o, n, o.reg, o.pc, o.sp, o.reg.hl(), v, 4 + cost(low_idx(op))) }))
    } else if op == 0x51 {
        (({ let v = operand_spec(o, low_idx(op));
            &&& high_idx(op) != 6 ==> moved(o, n, set_reg(o.reg, high_idx(op), v), o.pc, o.sp, cost(low_idx(op)))
            &&& high_idx(op) == 6 ==> stored(o, n, o.reg, o.pc, o.sp, o.reg.hl(), v, 4 + cost(low_idx(op))) }))
    } else if op == 0x52 {
        (({ let v = operand_spec(o, low_idx(op));
            &&& high_idx(op) != 6 ==> moved(o, n, set_reg(o.reg, high_idx(op), v), o.pc, o.sp, cost(low_idx(op)))
            &&& high_idx(op) == 6 ==> stored(o, n, o.reg, o.pc, o.sp, o.reg.hl(), v, 4 + cost(low_idx(op))) }))
    } else if op == 0x53 {
        (({ let v = operand_spec(o, low_idx(op));
            &&& high_idx(op) != 6 ==> moved(o, n, set_reg(o.reg, high_idx(op), v), o.pc, o.sp, cost(low_idx(op)))
            &&& high_idx(op) == 6 ==> stored(o, n, o.reg, o.pc, o.sp, o.reg.hl(), v, 4 + cost(low_idx(op))) }))
    } else if op == 0x54 {
        (({ let v = operand_spec(o, low_idx(op));
            &&& high_idx(op) != 6 ==> moved(o, n, set_reg(o.reg, high_idx(op), v), o.pc, o.sp, cost(low_idx(op)))
            &&& high_idx(op) == 6 ==> stored(o, n, o.reg, o.pc, o.sp, o.reg.hl(), v, 4 + cost(low_idx(op))) }))
    } else if op == 0x55 {
        (({ let v = operand_spec(o, low_idx(op));
            &&& high_idx(op) != 6 ==> moved(o, n, set_reg(o.reg, high_idx(op), v), o.pc, o.sp, cost(low_idx(op)))
            &&& high_idx(op) == 6 ==> stored(o, n, o.reg, o.pc, o.sp, o.reg.hl(), v, 4 + cost(low_idx(op))) }))
    } else if op == 0x56 {
        (({ let v = operand_spec(o, low_idx(op));
            &&& high_idx(op) != 6 ==> moved(o, n, set_reg(o.reg, high_idx(op), v), o.pc, o.sp, cost(low_idx(op)))
            &&& high_idx(op) == 6 ==> stored(o, n, o.reg, o.pc, o.sp, o.reg.hl(), v, 4 + cost(low_idx(op))) }))
    } else if op == 0x57 {
        (({ let v = operand_spec(o, low_idx(op));
            &&& high_idx(op) != 6 ==> moved(o, n, set_reg(o.reg, high_idx(op), v), o.pc, o.sp, cost(low_idx(op)))
            &&& high_idx(op) == 6 ==> stored(o, n, o.reg, o.pc, o.sp, o.reg.hl(), v, 4 + cost(low_idx(op))) }))
    } else if op == 0x58 {
        (({ let v = operand_spec(o, low_idx(op));
            &&& high_idx(op) != 6 ==> moved(o, n, set_reg(o.reg, high_idx(op), v), o.pc, o.sp, cost(low_idx(op)))
            &&& high_idx(op) == 6 ==> stored(o, n, o.reg, o.pc, o.sp, o.reg.hl(), v, 4 + cost(low_idx(op))) }))
    } else if op == 0x59 {
        (({ let v = operand_spec(o, low_idx(op));
            &&& high_idx(op) != 6 ==> moved(o, n, set_reg(o.reg, high_idx(op), v), o.pc, o.sp, cost(low_idx(op)))
            &&& high_idx(op) == 6 ==> stored(o, n, o.reg, o.pc, o.sp, o.reg.hl(), v, 4 + cost(low_idx(op))) }))
    } else if op == 0x5a {
        (({ let v = operand_spec(o, low_idx(op));
            &&& high_idx(op) != 6 ==> moved(o, n, set_reg(o.reg, high_idx(op), v), o.pc, o.sp, cost(low_idx(op)))
            &&& high_idx(op) == 6 ==> stored(o, n, o.reg, o.pc, o.sp, o.reg.hl(), v, 4 + cost(low_idx(op))) }))
    } else if op == 0x5b {
        (({ let v = operand_spec(o, low_idx(op));
            &&& high_idx(op) != 6 ==> moved(o, n, set_reg(o.reg, high_idx(op), v), o.pc, o.sp, cost(low_idx(op)))
            &&& high_idx(op) == 6 ==> stored(o, n, o.reg, o.pc, o.sp, o.reg.hl(), v, 4 + cost(low_idx(op))) }))
    } else if op == 0x5c {
        (({ let v = operand_spec(o, low_idx(op));
            &&& high_idx(op) != 6 ==> moved(o, n, set_reg(o.reg, high_idx(op), v), o.pc, o.sp, cost(low_idx(op)))
            &&& high_idx(op) == 6 ==> stored(o, n, o.reg, o.pc, o.sp, o.reg.hl(), v, 4 + cost(low_idx(op))) }))
    } else if op == 0x5d {
        (({ let v = operand_spec(o, low_idx(op));
            &&& high_idx(op) != 6 ==> moved(o, n, set_reg(o.reg, high_idx(op), v), o.pc, o.sp, cost(low_idx(op)))
            &&& high_idx(op) == 6 ==> stored(o, n, o.reg, o.pc, o.sp, o.reg.hl(), v, 4 + cost(low_idx(op))) }))
    } else if op == 0x5e {
        (({ let v = operand_spec(o, low_idx(op));
            &&& high_idx(op) != 6 ==> moved(o, n, set_reg(o.reg, high_idx(op), v), o.pc, o.sp, cost(low_idx(op)))
            &&& high_idx(op) == 6 ==> stored(o, n, o.reg, o.pc, o.sp, o.reg.hl(), v, 4 + cost(low_idx(op))) }))
    } else if op == 0x5f {
        (({ let v = operand_spec(o, low_idx(op));
            &&& high_idx(op) != 6 ==> moved(o, n, set_reg(o.reg, high_idx(op), v), o.pc, o.sp, cost(low_idx(op)))
            &&& high_idx(op) == 6 ==> stored(o, n, o.reg, o.pc, o.sp, o.reg.hl(), v, 4 + cost(low_idx(op))) }))
    } else if op == 0x60 {
        (({ let v = operand_spec(o, low_idx(op));
            &&& high_idx(op) != 6 ==> moved(o, n, set_reg(o.reg, high_idx(op), v), o.pc, o.sp, cost(low_idx(op)))
            &&& high_idx(op) == 6 ==> stored(o, n, o.reg, o.pc, o.sp, o.reg.hl(), v, 4 + cost(low_idx(op))) }))
    } else if op == 0x61 {
        (({ let v = operand_spec(o, low_idx(op));
            &&& high_idx(op) != 6 ==> moved(o, n, set_reg(o.reg, high_idx(op), v), o.pc, o.sp, cost(low_idx(op)))
            &&& high_idx(op) == 6 ==> stored(o, n, o.reg, o.pc, o.sp, o.reg.hl(), v, 4 + cost(low_idx(op))) }))
    } else if op == 0x62 {
        (({ let v = operand_spec(o, low_idx(op));
            &&& high_idx(op) != 6 ==> moved(o, n, set_reg(o.reg, high_idx(op), v), o.pc, o.sp, cost(low_idx(op)))
            &&& high_idx(op) == 6 ==> stored(o, n, o.reg, o.pc, o.sp, o.reg.hl(), v, 4 + cost(low_idx(op))) }))
    } else if op == 0x63 {
        (({ let v = operand_spec(o, low_idx(op));
            &&& high_idx(op) != 6 ==> moved(o, n, set_reg(o.reg, high_idx(op), v), o.pc, o.sp, cost(low_idx(op)))
            &&& high_idx(op) == 6 ==> stored(o, n, o.reg, o.pc, o.sp, o.reg.hl(), v, 4 + cost(low_idx(op))) }))
    } else if op == 0x64 {
        (({ let v = operand_spec(o, low_idx(op));
            &&& high_idx(op) != 6 ==> moved(o, n, set_reg(o.reg, high_idx(op), v), o.pc, o.sp, cost(low_idx(op)))
            &&& high_idx(op) == 6 ==> stored(o, n, o.reg, o.pc, o.sp, o.reg.hl(), v, 4 + cost(low_idx(op))) }))
    } else if op == 0x65 {
        (({ let v = operand_spec(o, low_idx(op));
            &&& high_idx(op) != 6 ==> moved(o, n, set_reg(o.reg, high_idx(op), v), o.pc, o.sp, cost(low_idx(op)))
            &&& high_idx(op) == 6 ==> stored(o, n, o.reg, o.pc, o.sp, o.reg.hl(), v, 4 + cost(low_idx(op))) }))
    } else if op == 0x66 {
        (({ let v = operand_spec(o, low_idx(op));
            &&& high_idx(op) != 6 ==> moved(o, n, set_reg(o.reg, high_idx(op), v), o.pc, o.sp, cost(low_idx(op)))
            &&& high_idx(op) == 6 ==> stored(o, n, o.reg, o.pc, o.sp, o.reg.hl(), v, 4 + cost(low_idx(op))) }))
    } else if op == 0x67 {
        (({ let v = operand_spec(o, low_idx(op));
            &&& high_idx(op) != 6 ==> moved(o, n, set_reg(o.reg, high_idx(op), v), o.pc, o.sp, cost(low_idx(op)))
            &&& high_idx(op) == 6 ==> stored(o, n, o.reg, o.pc, o.sp, o.reg.hl(), v, 4 + cost(low_idx(op))) }))
    } else if op == 0x68 {
        (({ let v = operand_spec(o, low_idx(op));
            &&& high_idx(op) != 6 ==> moved(o, n, set_reg(o.reg, high_idx(op), v), o.pc, o.sp, cost(low_idx(op)))
            &&& high_idx(op) == 6 ==> stored(o, n, o.reg, o.pc, o.sp, o.reg.hl(), v, 4 + cost(low_idx(op))) }))
    } else if op == 0x69 {
        (({ let v = operand_spec(o, low_idx(op));
            &&& high_idx(op) != 6 ==> moved(o, n, set_reg(o.reg, high_idx(op), v), o.pc, o.sp, cost(low_idx(op)))
            &&& high_idx(op) == 6 ==> stored(o, n, o.reg, o.pc, o.sp, o.reg.hl(), v, 4 + cost(low_idx(op))) }))
    } else if op == 0x6a {
        (({ let v = operand_spec(o, low_idx(op));
            &&& high_idx(op) != 6 ==> moved(o, n, set_reg(o.reg, high_idx(op), v), o.pc, o.sp, cost(low_idx(op)))
            &&& high_idx(op) == 6 ==> stored(o, n, o.reg, o.pc, o.sp, o.reg.hl(), v, 4 + cost(low_idx(op))) }))
    } else if op == 0x6b {
        (({ let v = operand_spec(o, low_idx(op));
            &&& high_idx(op) != 6 ==> moved(o, n, set_reg(o.reg, high_idx(op), v), o.pc, o.sp, cost(low_idx(op)))
            &&& high_idx(op) == 6 ==> stored(o, n, o.reg, o.pc, o.sp, o.reg.hl(), v, 4 + cost(low_idx(op))) }))
    } else if op == 0x6c {
        (({ let v = operand_spec(o, low_idx(op));
            &&& high_idx(op) != 6 ==> moved(o, n, set_reg(o.reg, high_idx(op), v), o.pc, o.sp, cost(low_idx(op)))
            &&& high_idx(op) == 6 ==> stored(o, n, o.reg, o.pc, o.sp, o.reg.hl(), v, 4 + cost(low_idx(op))) }))
    } else if op == 0x6d {
        (({ let v = operand_spec(o, low_idx(op));
            &&& high_idx(op) != 6 ==> moved(o, n, set_reg(o.reg, high_idx(op), v), o.pc, o.sp, cost(low_idx(op)))
            &&& high_idx(op) == 6 ==> stored(o, n, o.reg, o.pc, o.sp, o.reg.hl(), v, 4 + cost(low_idx(op))) }))
    } else if op == 0x6e {
        (({ let v = operand_spec(o, low_idx(op));
            &&& high_idx(op) != 6 ==> moved(o, n, set_reg(o.reg, high_idx(op), v), o.pc, o.sp, cost(low_idx(op)))
            &&& high_idx(op) == 6 ==> stored(o, n, o.reg, o.pc, o.sp, o.reg.hl(), v, 4 + cost(low_idx(op))) }))
    } else if op == 0x6f {
        (({ let v = operand_spec(o, low_idx(op));
            &&& high_idx(op) != 6 ==> moved(o, n, set_reg(o.reg, high_idx(op), v), o.pc, o.sp, cost(low_idx(op)))
            &&& high_idx(op) == 6 ==> stored(o, n, o.reg, o.pc, o.sp, o.reg.hl(), v, 4 + cost(low_idx(op))) }))
    } else if op == 0x70 {
        (({ let v = operand_spec(o, low_idx(op));
            &&& high_idx(op) != 6 ==> moved(o, n, set_reg(o.reg, high_idx(op), v), o.pc, o.sp, cost(low_idx(op)))
            &&& high_idx(op) == 6 ==> stored(o, n, o.reg, o.pc, o.sp, o.reg.hl(), v, 4 + cost(low_idx(op))) }))
    } else if op == 0x71 {
        (({ let v = operand_spec(o, low_idx(op));
            &&& high_idx(op) != 6 ==> moved(o, n, set_reg(o.reg, high_idx(op), v), o.pc, o.sp, cost(low_idx(op)))
            &&& high_idx(op) == 6 ==> stored(o, n, o.reg, o.pc, o.sp, o.reg.hl(), v, 4 + cost(low_idx(op))) }))
    } else if op == 0x72 {
        (({ let v = operand_spec(o, low_idx(op));
            &&& high_idx(op) != 6 ==> moved(o, n, set_reg(o.reg, high_idx(op), v), o.pc, o.sp, cost(low_idx(op)))
            &&& high_idx(op) == 6 ==> stored(o, n, o.reg, o.pc, o.sp, o.reg.hl(), v, 4 + cost(low_idx(op))) }))
    } else if op == 0x73 {
        (({ let v = operand_spec(o, low_idx(op));
            &&& high_idx(op) != 6 ==> moved(o, n, set_reg(o.reg, high_idx(op), v), o.pc, o.sp, cost(low_idx(op)))
            &&& high_idx(op) == 6 ==> stored(o, n, o.reg, o.pc, o.sp, o.reg.hl(), v, 4 + cost(low_idx(op))) }))
    } else if op == 0x74 {
        (({ let v = operand_spec(o, low_idx(op));
            &&& high_idx(op) != 6 ==> moved(o, n, set_reg(o.reg, high_idx(op), v), o.pc, o.sp, cost(low_idx(op)))
            &&& high_idx(op) == 6 ==> stored(o, n, o.reg, o.pc, o.sp, o.reg.hl(), v, 4 + cost(low_idx(op))) }))
    } else if op == 0x75 {
        (({ let v = operand_spec(o, low_idx(op));
            &&& high_idx(op) != 6 ==> moved(o, n, set_reg(o.reg, high_idx(op), v), o.pc, o.sp, cost(low_idx(op)))
            &&& high_idx(op) == 6 ==> stored(o, n, o.reg, o.pc, o.sp, o.reg.hl(), v, 4 + cost(low_idx(op))) }))
    } else if op == 0x76 {
        (n.wf())
            && (n.other_state == (OtherState { halted: true, ..o.other_state }))
            && (n.cpu_same(o))
            && (n.books_same(o))
            && (n.cycles_pending == o.cycles_pending)
            && (n.ppu == o.ppu)
            && (n.rom == o.rom)
            && (n.wram == o.wram)
            && (n.hram == o.hram)
            && (n.bootrom_data == o.bootrom_data)
    } else if op == 0x77 {
        (({ let v = operand_spec(o, low_idx(op));
            &&& high_idx(op) != 6 ==> moved(o, n, set_reg(o.reg, high_idx(op), v), o.pc, o.sp, cost(low_idx(op)))
            &&& high_idx(op) == 6 ==> stored(o, n, o.reg, o.pc, o.sp, o.reg.hl(), v, 4 + cost(low_idx(op))) }))
    } else if op == 0x78 {
        (({ let v = operand_spec(o, low_idx(op));
            &&& high_idx(op) != 6 ==> moved(o, n, set_reg(o.reg, high_idx(op), v), o.pc, o.sp, cost(low_idx(op)))
            &&& high_idx(op) == 6 ==> stored(o, n, o.reg, o.pc, o.sp, o.reg.hl(), v, 4 + cost(low_idx(op))) }))
    } else if op == 0x79 {
        (({ let v = operand_spec(o, low_idx(op));
            &&& high_idx(op) != 6 ==> moved(o, n, set_reg(o.reg, high_idx(op), v), o.pc, o.sp, cost(low_idx(op)))
            &&& high_idx(op) == 6 ==> stored(o, n, o.reg, o.pc, o.sp, o.reg.hl(), v, 4 + cost(low_idx(op))) }))
    } else if op == 0x7a {
        (({ let v = operand_spec(o, low_idx(op));
            &&& high_idx(op) != 6 ==> moved(o, n, set_reg(o.reg, high_idx(op), v), o.pc, o.sp, cost(low_idx(op)))
            &&& high_idx(op) == 6 ==> stored(o, n, o.reg, o.pc, o.sp, o.reg.hl(), v, 4 + cost(low_idx(op))) }))
    } else if op == 0x7b {
        (({ let v = operand_spec(o, low_idx(op));
            &&& high_idx(op) != 6 ==> moved(o, n, set_reg(o.reg, high_idx(op), v), o.pc, o.sp, cost(low_idx(op)))
            &&& high_idx(op) == 6 ==> stored(o, n, o.reg, o.pc, o.sp, o.reg.hl(), v, 4 + cost(low_idx(op))) }))
    } else if op == 0x7c {
        (({ let v = operand_spec(o, low_idx(op));
            &&& high_idx(op) != 6 ==> moved(o, n, set_reg(o.reg, high_idx(op), v), o.pc, o.sp, cost(low_idx(op)))
            &&& high_idx(op) == 6 ==> stored(o, n, o.reg, o.pc, o.sp, o.reg.hl(), v, 4 + cost(low_idx(op))) }))
    } else if op == 0x7d {
        (({ let v = operand_spec(o, low_idx(op));
            &&& high_idx(op) != 6 ==> moved(o, n, set_reg(o.reg, high_idx(op), v), o.pc, o.sp, cost(low_idx(op)))
            &&& high_idx(op) == 6 ==> stored(o, n, o.reg, o.pc, o.sp, o.reg.hl(), v, 4 + cost(low_idx(op))) }))
    } else if op == 0x7e {
        (({ let v = operand_spec(o, low_idx(op));
            &&& high_idx(op) != 6 ==> moved(o, n, set_reg(o.reg, high_idx(op), v), o.pc, o.sp, cost(low_idx(op)))
            &&& high_idx(op) == 6 ==> stored(o, n, o.reg, o.pc, o.sp, o.reg.hl(), v, 4 + cost(low_idx(op))) }))
    } else {
        (({ let v = operand_spec(o, low_idx(op));
            &&& high_idx(op) != 6 ==> moved(o, n, set_reg(o.reg, high_idx(op), v), o.pc, o.sp, cost(low_idx(op)))
            &&& high_idx(op) == 6 ==> stored(o, n, o.reg, o.pc, o.sp, o.reg.hl(), v, 4 + cost(low_idx(op))) }))
    }
}

/// The exact effect of each opcode of 0x80-0xBF, as its handler states it.
pub open spec fn effect_block2(o: &Gameboy, n: &Gameboy, op: u8) -> bool {
    if op == 0x80 {
        (moved( o, n, alu_spec(0, o.reg, operand_spec(o, low_idx(op))), o.pc, o.sp, cost(low_idx(op)), ))
    } else if op == 0x81 {
        (moved( o, n, alu_spec(0, o.reg, operand_spec(o, low_idx(op))), o.pc, o.sp, cost(low_idx(op)), ))
    } else if op == 0x82 {
        (moved( o, n, alu_spec(0, o.reg, operand_spec(o, low_idx(op))), o.pc, o.sp, cost(low_idx(op)), ))
    } else if op == 0x83 {
        (moved( o, n, alu_spec(0, o.reg, operand_spec(o, low_idx(op))), o.pc, o.sp, cost(low_idx(op)), ))
    } else if op == 0x84 {
        (moved( o, n, alu_spec(0, o.reg, operand_spec(o, low_idx(op))), o.pc, o.sp, cost(low_idx(op)), ))
    } else if op == 0x85 {
        (moved( o, n, alu_spec(0, o.reg, operand_spec(o, low_idx(op))), o.pc, o.sp, cost(low_idx(op)), ))
    } else if op == 0x86 {
        (moved( o, n, alu_spec(0, o.reg, operand_spec(o, low_idx(op))), o.pc, o.sp, cost(low_idx(op)), ))
    } else if op == 0x87 {
        (moved( o, n, alu_spec(0, o.reg, operand_spec(o, low_idx(op))), o.pc, o.sp, cost(low_idx(op)), ))
    } else if op == 0x88 {
        (moved( o, n, alu_spec(1, o.reg, operand_spec(o, low_idx(op))), o.pc, o.sp, cost(low_idx(op)), ))
    } else if op == 0x89 {
        (moved( o, n, alu_spec(1, o.reg, operand_spec(o, low_idx(op))), o.pc, o.sp, cost(low_idx(op)), ))
    } else if op == 0x8a {
        (moved( o, n, alu_spec(1, o.reg, operand_spec(o, low_idx(op))), o.pc, o.sp, cost(low_idx(op)), ))
    } else if op == 0x8b {
        (moved( o, n, alu_spec(1, o.reg, operand_spec(o, low_idx(op))), o.pc, o.sp, cost(low_idx(op)), ))
    } else if op == 0x8c {
        (moved( o, n, alu_spec(1, o.reg, operand_spec(o, low_idx(op))), o.pc, o.sp, cost(low_idx(op)), ))
    } else if op == 0x8d {
        (moved( o, n, alu_spec(1, o.reg, operand_spec(o, low_idx(op))), o.pc, o.sp, cost(low_idx(op)), ))
    } else if op == 0x8e {
        (moved( o, n, alu_spec(1, o.reg, operand_spec(o, low_idx(op))), o.pc, o.sp, cost(low_idx(op)), ))
    } else if op == 0x8f {
        (moved( o, n, alu_spec(1, o.reg, operand_spec(o, low_idx(op))), o.pc, o.sp, cost(low_idx(op)), ))
    } else if op == 0x90 {
        (moved( o, n, alu_spec(2, o.reg, operand_spec(o, low_idx(op))), o.pc, o.sp, cost(low_idx(op)), ))
    } else if op == 0x91 {
        (moved( o, n, alu_spec(2, o.reg, operand_spec(o, low_idx(op))), o.pc, o.sp, cost(low_idx(op)), ))
    } else if op == 0x92 {
        (moved( o, n, alu_spec(2, o.reg, operand_spec(o, low_idx(op))), o.pc, o.sp, cost(low_idx(op)), ))
    } else if op == 0x93 {
        (moved( o, n, alu_spec(2, o.reg, operand_spec(o, low_idx(op))), o.pc, o.sp, cost(low_idx(op)), ))
    } else if op == 0x94 {
        (moved( o, n, alu_spec(2, o.reg, operand_spec(o, low_idx(op))), o.pc, o.sp, cost(low_idx(op)), ))
    } else if op == 0x95 {
        (moved( o, n, alu_spec(2, o.reg, operand_spec(o, low_idx(op))), o.pc, o.sp, cost(low_idx(op)), ))
    } else if op == 0x96 {
        (moved( o, n, alu_spec(2, o.reg, operand_spec(o, low_idx(op))), o.pc, o.sp, cost(low_idx(op)), ))
    } else if op == 0x97 {
        (moved( o, n, alu_spec(2, o.reg, operand_spec(o, low_idx(op))), o.pc, o.sp, cost(low_idx(op)), ))
    } else if op == 0x98 {
        (moved( o, n, alu_spec(3, o.reg, operand_spec(o, low_idx(op))), o.pc, o.sp, cost(low_idx(op)), ))
    } else if op == 0x99 {
        (moved( o, n, alu_spec(3, o.reg, operand_spec(o, low_idx(op))), o.pc, o.sp, cost(low_idx(op)), ))
    } else if op == 0x9a {
        (moved( o, n, alu_spec(3, o.reg, operand_spec(o, low_idx(op))), o.pc, o.sp, cost(low_idx(op)), ))
    } else if op == 0x9b {
        (moved( o, n, alu_spec(3, o.reg, operand_spec(o, low_idx(op))), o.pc, o.sp, cost(low_idx(op)), ))
    } else if op == 0x9c {
        (moved( o, n, alu_spec(3, o.reg, operand_spec(o, low_idx(op))), o.pc, o.sp, cost(low_idx(op)), ))
    } else if op == 0x9d {
        (moved( o, n, alu_spec(3, o.reg, operand_spec(o, low_idx(op))), o.pc, o.sp, cost(low_idx(op)), ))
    } else if op == 0x9e {
        (moved( o, n, alu_spec(3, o.reg, operand_spec(o, low_idx(op))), o.pc, o.sp, cost(low_idx(op)), ))
    } else if op == 0x9f {
        (moved( o, n, alu_spec(3, o.reg, operand_spec(o, low_idx(op))), o.pc, o.sp, cost(low_idx(op)), ))
    } else if op == 0xa0 {
        (moved( o, n, alu_spec(4, o.reg, operand_spec(o, low_idx(op))), o.pc, o.sp, cost(low_idx(op)), ))
    } else if op == 0xa1 {
        (moved( o, n, alu_spec(4, o.reg, operand_spec(o, low_idx(op))), o.pc, o.sp, cost(low_idx(op)), ))
    } else if op == 0xa2 {
        (moved( o, n, alu_spec(4, o.reg, operand_spec(o, low_idx(op))), o.pc, o.sp, cost(low_idx(op)), ))
    } else if op == 0xa3 {
        (moved( o, n, alu_spec(4, o.reg, operand_spec(o, low_idx(op))), o.pc, o.sp, cost(low_idx(op)), ))
    } else if op == 0xa4 {
        (moved( o, n, alu_spec(4, o.reg, operand_spec(o, low_idx(op))), o.pc, o.sp, cost(low_idx(op)), ))
    } else if op == 0xa5 {
        (moved( o, n, alu_spec(4, o.reg, operand_spec(o, low_idx(op))), o.pc, o.sp, cost(low_idx(op)), ))
    } else if op == 0xa6 {
        (moved( o, n, alu_spec(4, o.reg, operand_spec(o, low_idx(op))), o.pc, o.sp, cost(low_idx(op)), ))
    } else if op == 0xa7 {
        (moved( o, n, alu_spec(4, o.reg, operand_spec(o, low_idx(op))), o.pc, o.sp, cost(low_idx(op)), ))
    } else if op == 0xa8 {
        (moved( o, n, alu_spec(5, o.reg, operand_spec(o, low_idx(op))), o.pc, o.sp, cost(low_idx(op)), ))
    } else if op == 0xa9 {
        (moved( o, n, alu_spec(5, o.reg, operand_spec(o, low_idx(op))), o.pc, o.sp, cost(low_idx(op)), ))
    } else if op == 0xaa {
        (moved( o, n, alu_spec(5, o.reg, operand_spec(o, low_idx(op))), o.pc, o.sp, cost(low_idx(op)), ))
    } else if op == 0xab {
        (moved( o, n, alu_spec(5, o.reg, operand_spec(o, low_idx(op))), o.pc, o.sp, cost(low_idx(op)), ))
    } else if op == 0xac {
        (moved( o, n, alu_spec(5, o.reg, operand_spec(o, low_idx(op))), o.pc, o.sp, cost(low_idx(op)), ))
    } else if op == 0xad {
        (moved( o, n, alu_spec(5, o.reg, operand_spec(o, low_idx(op))), o.pc, o.sp, cost(low_idx(op)), ))
    } else if op == 0xae {
        (moved( o, n, alu_spec(5, o.reg, operand_spec(o, low_idx(op))), o.pc, o.sp, cost(low_idx(op)), ))
    } else if op == 0xaf {
        (moved( o, n, alu_spec(5, o.reg, operand_spec(o, low_idx(op))), o.pc, o.sp, cost(low_idx(op)), ))
    } else if op == 0xb0 {
        (moved( o, n, alu_spec(6, o.reg, operand_spec(o, low_idx(op))), o.pc, o.sp, cost(low_idx(op)), ))
    } else if op == 0xb1 {
        (moved( o, n, alu_spec(6, o.reg, operand_spec(o, low_idx(op))), o.pc, o.sp, cost(low_idx(op)), ))
    } else if op == 0xb2 {
        (moved( o, n, alu_spec(6, o.reg, operand_spec(o, low_idx(op))), o.pc, o.sp, cost(low_idx(op)), ))
    } else if op == 0xb3 {
        (moved( o, n, alu_spec(6, o.reg, operand_spec(o, low_idx(op))), o.pc, o.sp, cost(low_idx(op)), ))
    } else if op == 0xb4 {
        (moved( o, n, alu_spec(6, o.reg, operand_spec(o, low_idx(op))), o.pc, o.sp, cost(low_idx(op)), ))
    } else if op == 0xb5 {
        (moved( o, n, alu_spec(6, o.reg, operand_spec(o, low_idx(op))), o.pc, o.sp, cost(low_idx(op)), ))
    } else if op == 0xb6 {
        (moved( o, n, alu_spec(6, o.reg, operand_spec(o, low_idx(op))), o.pc, o.sp, cost(low_idx(op)), ))
    } else if op == 0xb7 {
        (moved( o, n, alu_spec(6, o.reg, operand_spec(o, low_idx(op))), o.pc, o.sp, cost(low_idx(op)), ))
    } else if op == 0xb8 {
        (moved( o, n, alu_spec(7, o.reg, operand_spec(o, low_idx(op))), o.pc, o.sp, cost(low_idx(op)), ))
    } else if op == 0xb9 {
        (moved( o, n, alu_spec(7, o.reg, operand_spec(o, low_idx(op))), o.pc, o.sp, cost(low_idx(op)), ))
    } else if op == 0xba {
        (moved( o, n, alu_spec(7, o.reg, operand_spec(o, low_idx(op))), o.pc, o.sp, cost(low_idx(op)), ))
    } else if op == 0xbb {
        (moved( o, n, alu_spec(7, o.reg, operand_spec(o, low_idx(op))), o.pc, o.sp, cost(low_idx(op)), ))
    } else if op == 0xbc {
        (moved( o, n, alu_spec(7, o.reg, operand_spec(o, low_idx(op))), o.pc, o.sp, cost(low_idx(op)), ))
    } else if op == 0xbd {
        (moved( o, n, alu_spec(7, o.reg, operand_spec(o, low_idx(op))), o.pc, o.sp, cost(low_idx(op)), ))
    } else if op == 0xbe {
        (moved( o, n, alu_spec(7, o.reg, operand_spec(o, low_idx(op))), o.pc, o.sp, cost(low_idx(op)), ))
    } else {
        (moved( o, n, alu_spec(7, o.reg, operand_spec(o, low_idx(op))), o.pc, o.sp, cost(low_idx(op)), ))
    }
}

/// The exact effect of each defined opcode of 0xC0-0xFF, as its handler states it.
pub open spec fn effect_block3(o: &Gameboy, n: &Gameboy, op: u8) -> bool {
    if op == 0xc0 {
        (moved( o, n, o.reg, if !o.reg.flag_z { top16(o) } else { o.pc }, if !o.reg.flag_z { o.sp.wrapping_add(2) } else { o.sp }, if !o.reg.flag_z { 12 } else { 4 }, ))
    } else if op == 0xc1 {
        (({ let v = top16(o); moved(o, n, Registers { b: high_byte(v), c: low_byte(v), ..o.reg }, o.pc, o.sp.wrapping_add(2), 8) }))
    } else if op == 0xc2 {
        (moved( o, n, o.reg, if !o.reg.flag_z { imm16(o) } else { o.pc.wrapping_add(2) }, o.sp, if !o.reg.flag_z { 12 } else { 8 }, ))
    } else if op == 0xc3 {
        (moved( o, n, o.reg, if true { imm16(o) } else { o.pc.wrapping_add(2) }, o.sp, if true { 12 } else { 8 }, ))
    } else if op == 0xc4 {
        (n.ime == o.ime)
            && (n.reg == o.reg)
            && (!(!o.reg.flag_z) ==> moved(o, n, o.reg, o.pc.wrapping_add(2), o.sp, 8))
            && (!o.reg.flag_z ==> { let ret = o.pc.wrapping_add(2); let sp = o.sp.wrapping_sub(2);
            &&& n.pc == imm16(o)
            &&& n.sp == sp
            &&& n.cycles_pending == o.cycles_pending + 20
            &&& wrote_short(Gameboy { pc: ret, sp: sp, ..*o }, Gameboy { pc: ret, ..*n }, sp, ret) })
    } else if op == 0xc5 {
        (n.reg == o.reg)
            && (n.pc == o.pc)
            && (n.sp == o.sp.wrapping_sub(2))
            && (n.ime == o.ime)
            && (n.cycles_pending == o.cycles_pending + 8)
            && (wrote_short( Gameboy { sp: o.sp.wrapping_sub(2), ..*o }, *n, o.sp.wrapping_sub(2), o.reg.bc(), ))
    } else if op == 0xc6 {
        (moved( o, n, alu_spec(0, o.reg, o.read_spec(o.pc)), o.pc.wrapping_add(1), o.sp, 4, ))
    } else if op == 0xc7 {
        (n.reg == o.reg)
            && (n.ime == o.ime)
            && (n.pc == (op & 0x38) as u16)
            && (n.sp == o.sp.wrapping_sub(2))
            && (n.cycles_pending == o.cycles_pending + 12)
            && (wrote_short( Gameboy { sp: o.sp.wrapping_sub(2), ..*o }, Gameboy { pc: o.pc, ..*n }, o.sp.wrapping_sub(2), o.pc, ))
    } else if op == 0xc8 {
        (moved( o, n, o.reg, if o.reg.flag_z { top16(o) } else { o.pc }, if o.reg.flag_z { o.sp.wrapping_add(2) } else { o.sp }, if o.reg.flag_z { 12 } else { 4 }, ))
    } else if op == 0xc9 {
        (moved(o, n, o.reg, top16(o), o.sp.wrapping_add(2), 12))
    } else if op == 0xca {
        (moved( o, n, o.reg, if o.reg.flag_z { imm16(o) } else { o.pc.wrapping_add(2) }, o.sp, if o.reg.flag_z { 12 } else { 8 }, ))
    } else if op == 0xcb {
        cb_effect(&Gameboy { pc: o.pc.wrapping_add(1), ..*o }, n, o.read_spec(o.pc), 4)
    } else if op == 0xcc {
        (n.ime == o.ime)
            && (n.reg == o.reg)
            && (!(o.reg.flag_z) ==> moved(o, n, o.reg, o.pc.wrapping_add(2), o.sp, 8))
            && (o.reg.flag_z ==> { let ret = o.pc.wrapping_add(2); let sp = o.sp.wrapping_sub(2);
            &&& n.pc == imm16(o)
            &&& n.sp == sp
            &&& n.cycles_pending == o.cycles_pending + 20
            &&& wrote_short(Gameboy { pc: ret, sp: sp, ..*o }, Gameboy { pc: ret, ..*n }, sp, ret) })
    } else if op == 0xcd {
        (n.ime == o.ime)
            && (n.reg == o.reg)
            && (!(true) ==> moved(o, n, o.reg, o.pc.wrapping_add(2), o.sp, 8))
            && (true ==> { let ret = o.pc.wrapping_add(2); let sp = o.sp.wrapping_sub(2);
            &&& n.pc == imm16(o)
            &&& n.sp == sp
            &&& n.cycles_pending == o.cycles_pending + 20
            &&& wrote_short(Gameboy { pc: ret, sp: sp, ..*o }, Gameboy { pc: ret, ..*n }, sp, ret) })
    } else if op == 0xce {
        (moved( o, n, alu_spec(1, o.reg, o.read_spec(o.pc)), o.pc.wrapping_add(1), o.sp, 4, ))
    } else if op == 0xcf {
        (n.reg == o.reg)
            && (n.ime == o.ime)
            && (n.pc == (op & 0x38) as u16)
            && (n.sp == o.sp.wrapping_sub(2))
            && (n.cycles_pending == o.cycles_pending + 12)
            && (wrote_short( Gameboy { sp: o.sp.wrapping_sub(2), ..*o }, Gameboy { pc: o.pc, ..*n }, o.sp.wrapping_sub(2), o.pc, ))
    } else if op == 0xd0 {
        (moved( o, n, o.reg, if !o.reg.flag_c { top16(o) } else { o.pc }, if !o.reg.flag_c { o.sp.wrapping_add(2) } else { o.sp }, if !o.reg.flag_c { 12 } else { 4 }, ))
    } else if op == 0xd1 {
        (({ let v = top16(o); moved(o, n, Registers { d: high_byte(v), e: low_byte(v), ..o.reg }, o.pc, o.sp.wrapping_add(2), 8) }))
    } else if op == 0xd2 {
        (moved( o, n, o.reg, if !o.reg.flag_c { imm16(o) } else { o.pc.wrapping_add(2) }, o.sp, if !o.reg.flag_c { 12 } else { 8 }, ))
    } else if op == 0xd4 {
        (n.ime == o.ime)
            && (n.reg == o.reg)
            && (!(!o.reg.flag_c) ==> moved(o, n, o.reg, o.pc.wrapping_add(2), o.sp, 8))
            && (!o.reg.flag_c ==> { let ret = o.pc.wrapping_add(2); let sp = o.sp.wrapping_sub(2);
            &&& n.pc == imm16(o)
            &&& n.sp == sp
            &&& n.cycles_pending == o.cycles_pending + 20
            &&& wrote_short(Gameboy { pc: ret, sp: sp, ..*o }, Gameboy { pc: ret, ..*n }, sp, ret) })
    } else if op == 0xd5 {
        (n.reg == o.reg)
            && (n.pc == o.pc)
            && (n.sp == o.sp.wrapping_sub(2))
            && (n.ime == o.ime)
            && (n.cycles_pending == o.cycles_pending + 8)
            && (wrote_short( Gameboy { sp: o.sp.wrapping_sub(2), ..*o }, *n, o.sp.wrapping_sub(2), o.reg.de(), ))
    } else if op == 0xd6 {
        (moved( o, n, alu_spec(2, o.reg, o.read_spec(o.pc)), o.pc.wrapping_add(1), o.sp, 4, ))
    } else if op == 0xd7 {
        (n.reg == o.reg)
            && (n.ime == o.ime)
            && (n.pc == (op & 0x38) as u16)
            && (n.sp == o.sp.wrapping_sub(2))
            && (n.cycles_pending == o.cycles_pending + 12)
            && (wrote_short( Gameboy { sp: o.sp.wrapping_sub(2), ..*o }, Gameboy { pc: o.pc, ..*n }, o.sp.wrapping_sub(2), o.pc, ))
    } else if op == 0xd8 {
        (moved( o, n, o.reg, if o.reg.flag_c { top16(o) } else { o.pc }, if o.reg.flag_c { o.sp.wrapping_add(2) } else { o.sp }, if o.reg.flag_c { 12 } else { 4 }, ))
    } else if op == 0xd9 {
        (n.ime)
            && (moved(&Gameboy { ime: true, ..*o }, n, o.reg, top16(o), o.sp.wrapping_add(2), 12))
    } else if op == 0xda {
        (moved( o, n, o.reg, if o.reg.flag_c { imm16(o) } else { o.pc.wrapping_add(2) }, o.sp, if o.reg.flag_c { 12 } else { 8 }, ))
    } else if op == 0xdc {
        (n.ime == o.ime)
            && (n.reg == o.reg)
            && (!(o.reg.flag_c) ==> moved(o, n, o.reg, o.pc.wrapping_add(2), o.sp, 8))
            && (o.reg.flag_c ==> { let ret = o.pc.wrapping_add(2); let sp = o.sp.wrapping_sub(2);
            &&& n.pc == imm16(o)
            &&& n.sp == sp
            &&& n.cycles_pending == o.cycles_pending + 20
            &&& wrote_short(Gameboy { pc: ret, sp: sp, ..*o }, Gameboy { pc: ret, ..*n }, sp, ret) })
    } else if op == 0xde {
        (moved( o, n, alu_spec(3, o.reg, o.read_spec(o.pc)), o.pc.wrapping_add(1), o.sp, 4, ))
    } else if op == 0xdf {
        (n.reg == o.reg)
            && (n.ime == o.ime)
            && (n.pc == (op & 0x38) as u16)
            && (n.sp == o.sp.wrapping_sub(2))
            && (n.cycles_pending == o.cycles_pending + 12)
            && (wrote_short( Gameboy { sp: o.sp.wrapping_sub(2), ..*o }, Gameboy { pc: o.pc, ..*n }, o.sp.wrapping_sub(2), o.pc, ))
    } else if op == 0xe0 {
        (stored(o, n, o.reg, o.pc.wrapping_add(1), o.sp, (0xff00 + o.read_spec(o.pc)) as u16, o.reg.a, 8))
    } else if op == 0xe1 {
        (({ let v = top16(o); moved(o, n, Registers { h: high_byte(v), l: low_byte(v), ..o.reg }, o.pc, o.sp.wrapping_add(2), 8) }))
    } else if op == 0xe2 {
        (stored(o, n, o.reg, o.pc, o.sp, (0xff00 + o.reg.c) as u16, o.reg.a, 4))
    } else if op == 0xe5 {
        (n.reg == o.reg)
            && (n.pc == o.pc)
            && (n.sp == o.sp.wrapping_sub(2))
            && (n.ime == o.ime)
            && (n.cycles_pending == o.cycles_pending + 8)
            && (wrote_short( Gameboy { sp: o.sp.wrapping_sub(2), ..*o }, *n, o.sp.wrapping_sub(2), o.reg.hl(), ))
    } else if op == 0xe6 {
        (moved( o, n, alu_spec(4, o.reg, o.read_spec(o.pc)), o.pc.wrapping_add(1), o.sp, 4, ))
    } else if op == 0xe7 {
        (n.reg == o.reg)
            && (n.ime == o.ime)
            && (n.pc == (op & 0x38) as u16)
            && (n.sp == o.sp.wrapping_sub(2))
            && (n.cycles_pending == o.cycles_pending + 12)
            && (wrote_short( Gameboy { sp: o.sp.wrapping_sub(2), ..*o }, Gameboy { pc: o.pc, ..*n }, o.sp.wrapping_sub(2), o.pc, ))
    } else if op == 0xe8 {
        (({ let e = o.read_spec(o.pc); moved( o, n, sp_plus_flags(o.reg, o.sp, e), o.pc.wrapping_add(1), sp_plus(o.sp, e), 12, ) }))
    } else if op == 0xe9 {
        (moved(o, n, o.reg, o.reg.hl(), o.sp, 0))
    } else if op == 0xea {
        (stored(o, n, o.reg, o.pc.wrapping_add(2), o.sp, imm16(o), o.reg.a, 12))
    } else if op == 0xee {
        (moved( o, n, alu_spec(5, o.reg, o.read_spec(o.pc)), o.pc.wrapping_add(1), o.sp, 4, ))
    } else if op == 0xef {
        (n.reg == o.reg)
            && (n.ime == o.ime)
            && (n.pc == (op & 0x38) as u16)
            && (n.sp == o.sp.wrapping_sub(2))
            && (n.cycles_pending == o.cycles_pending + 12)
            && (wrote_short( Gameboy { sp: o.sp.wrapping_sub(2), ..*o }, Gameboy { pc: o.pc, ..*n }, o.sp.wrapping_sub(2), o.pc, ))
    } else if op == 0xf0 {
        (moved(o, n, Registers { a: o.read_spec((0xff00 + o.read_spec(o.pc)) as u16), ..o.reg }, o.pc.wrapping_add(1), o.sp, 8))
    } else if op == 0xf1 {
        (moved(o, n, with_af(o.reg, top16(o)), o.pc, o.sp.wrapping_add(2), 8))
    } else if op == 0xf2 {
        (moved(o, n, Registers { a: o.read_spec((0xff00 + o.reg.c) as u16), ..o.reg }, o.pc, o.sp, 4))
    } else if op == 0xf3 {
        (!n.ime)
            && (moved(&Gameboy { ime: false, ..*o }, n, o.reg, o.pc, o.sp, 0))
    } else if op == 0xf5 {
        (n.reg == o.reg)
            && (n.pc == o.pc)
            && (n.sp == o.sp.wrapping_sub(2))
            && (n.ime == o.ime)
            && (n.cycles_pending == o.cycles_pending + 8)
            && (wrote_short( Gameboy { sp: o.sp.wrapping_sub(2), ..*o }, *n, o.sp.wrapping_sub(2), o.reg.af(), ))
    } else if op == 0xf6 {
        (moved( o, n, alu_spec(6, o.reg, o.read_spec(o.pc)), o.pc.wrapping_add(1), o.sp, 4, ))
    } else if op == 0xf7 {
        (n.reg == o.reg)
            && (n.ime == o.ime)
            && (n.pc == (op & 0x38) as u16)
            && (n.sp == o.sp.wrapping_sub(2))
            && (n.cycles_pending == o.cycles_pending + 12)
            && (wrote_short( Gameboy { sp: o.sp.wrapping_sub(2), ..*o }, Gameboy { pc: o.pc, ..*n }, o.sp.wrapping_sub(2), o.pc, ))
    } else if op == 0xf8 {
        (({ let e = o.read_spec(o.pc); let v = sp_plus(o.sp, e); moved( o, n, Registers { h: high_byte(v), l: low_byte(v), ..sp_plus_flags(o.reg, o.sp, e) }, o.pc.wrapping_add(1), o.sp, 4, ) }))
    } else if op == 0xf9 {
        (moved(o, n, o.reg, o.pc, o.reg.hl(), 0))
    } else if op == 0xfa {
        (moved(o, n, Registers { a: o.read_spec(imm16(o)), ..o.reg }, o.pc.wrapping_add(2), o.sp, 12))
    } else if op == 0xfb {
        (n.wf())
            && (n.other_state == (OtherState { ime_next_cycle: true, ..o.other_state }))
            && (n.cpu_same(o))
            && (n.books_same(o))
            && (n.cycles_pending == o.cycles_pending)
            && (n.ppu == o.ppu)
            && (n.rom == o.rom)
            && (n.wram == o.wram)
            && (n.hram == o.hram)
            && (n.bootrom_data == o.bootrom_data)
    } else if op == 0xfe {
        (moved( o, n, alu_spec(7, o.reg, o.read_spec(o.pc)), o.pc.wrapping_add(1), o.sp, 4, ))
    } else {
        (n.reg == o.reg)
            && (n.ime == o.ime)
            && (n.pc == (op & 0x38) as u16)
            && (n.sp == o.sp.wrapping_sub(2))
            && (n.cycles_pending == o.cycles_pending + 12)
            && (wrote_short( Gameboy { sp: o.sp.wrapping_sub(2), ..*o }, Gameboy { pc: o.pc, ..*n }, o.sp.wrapping_sub(2), o.pc, ))
    }
}

/// What `run_opcode` does with opcode `op` to `o`, giving `n`: an undefined opcode
/// changes nothing, every other one is `dispatched`, and an ALU opcode of 0x80-0xBF has its
/// exact register result.
pub open spec fn opcode_effect(o: &Gameboy, n: &Gameboy, op: u8) -> bool {
    &&& undefined_opcode(op) ==> *n == *o
    &&& !undefined_opcode(op) ==> dispatched(o, n, op)
    &&& op < 0x40 ==> effect_block0(o, n, op)
    &&& 0x40 <= op < 0x80 ==> effect_block1(o, n, op)
    &&& 0x80 <= op < 0xc0 ==> effect_block2(o, n, op)
    &&& 0xc0 <= op && !undefined_opcode(op) ==> effect_block3(o, n, op)
    &&& 0x80 <= op < 0xc0 ==> moved(
        o,
        n,
        alu_spec(high_idx(op), o.reg, operand_spec(o, low_idx(op))),
        o.pc,
        o.sp,
        cost(low_idx(op)),
    )
}

/// Opcodes 0x00-0x3F: loads of immediates, 16-bit arithmetic, INC/DEC, rotates of A,
/// relative jumps and the flag operations.
fn run_block0(gb: &mut Gameboy, opcode: u8)
    requires
        ready(old(gb)),
        opcode < 0x40,
    ensures
        dispatched(old(gb), final(gb), opcode),
        effect_block0(old(gb), final(gb), opcode),
{
    match opcode {
        0x00 => {},
        0x01 => {
            ld_bc_u16(gb);
        },
        0x02 => {
            ld_addr_bc_a(gb);
        },
        0x03 => {
            inc_bc(gb);
        },
        0x04 => {
            inc_reg(gb, opcode);
        },
        0x05 => {
            dec_reg(gb, opcode);
        },
        0x06 => {
            ld_reg_u8(gb, opcode);
        },
        0x07 => {
            rlca(gb);
        },
        0x08 => {
            ld_addr_u16_sp(gb);
        },
        0x09 => {
            add_hl_bc(gb);
        },
        0x0a => {
            ld_a_addr_bc(gb);
        },
        0x0b => {
            dec_bc(gb);
        },
        0x0c => {
            inc_reg(gb, opcode);
        },
        0x0d => {
            dec_reg(gb, opcode);
        },
        0x0e => {
            ld_reg_u8(gb, opcode);
        },
        0x0f => {
            rrca(gb);
        },
        0x10 => { gb.read_byte_inc_pc(); },
        0x11 => {
            ld_de_u16(gb);
        },
        0x12 => {
            ld_addr_de_a(gb);
        },
        0x13 => {
            inc_de(gb);
        },
        0x14 => {
            inc_reg(gb, opcode);
        },
        0x15 => {
            dec_reg(gb, opcode);
        },
        0x16 => {
            ld_reg_u8(gb, opcode);
        },
        0x17 => {
            rla(gb);
        },
        0x18 => {
            jr_i8(gb);
        },
        0x19 => {
            add_hl_de(gb);
        },
        0x1a => {
            ld_a_addr_de(gb);
        },
        0x1b => {
            dec_de(gb);
        },
        0x1c => {
            inc_reg(gb, opcode);
        },
        0x1d => {
            dec_reg(gb, opcode);
        },
        0x1e => {
            ld_reg_u8(gb, opcode);
        },
        0x1f => {
            rra(gb);
        },
        0x20 => {
            jr_nz_i8(gb);
        },
        0x21 => {
            ld_hl_u16(gb);
        },
        0x22 => {
            ld_addr_inc_hl_a(gb);
        },
        0x23 => {
            inc_hl(gb);
        },
        0x24 => {
            inc_reg(gb, opcode);
        },
        0x25 => {
            dec_reg(gb, opcode);
        },
        0x26 => {
            ld_reg_u8(gb, opcode);
        },
        0x27 => {
            daa(gb);
        },
        0x28 => {
            jr_z_i8(gb);
        },
        0x29 => {
            add_hl_hl(gb);
        },
        0x2a => {
            ld_a_addr_inc_hl(gb);
        },
        0x2b => {
            dec_hl(gb);
        },
        0x2c => {
            inc_reg(gb, opcode);
        },
        0x2d => {
            dec_reg(gb, opcode);
        },
        0x2e => {
            ld_reg_u8(gb, opcode);
        },
        0x2f => {
            cpl(gb);
        },
        0x30 => {
            jr_nc_i8(gb);
        },
        0x31 => {
            ld_sp_u16(gb);
        },
        0x32 => {
            ld_addr_dec_hl_a(gb);
        },
        0x33 => {
            inc_sp(gb);
        },
        0x34 => {
            inc_reg(gb, opcode);
        },
        0x35 => {
            dec_reg(gb, opcode);
        },
        0x36 => {
            ld_reg_u8(gb, opcode);
        },
        0x37 => {
            scf(gb);
        },
        0x38 => {
            jr_c_i8(gb);
        },
        0x39 => {
            add_hl_sp(gb);
        },
        0x3a => {
            ld_a_addr_dec_hl(gb);
        },
        0x3b => {
            dec_sp(gb);
        },
        0x3c => {
            inc_reg(gb, opcode);
        },
        0x3d => {
            dec_reg(gb, opcode);
        },
        0x3e => {
            ld_reg_u8(gb, opcode);
        },
        0x3f => {
            ccf(gb);
        },
        _ => {},
    }
}

/// Opcodes 0x40-0x7F: register-to-register loads, and HALT.
fn run_block1(gb: &mut Gameboy, opcode: u8)
    requires
        ready(old(gb)),
        0x40 <= opcode < 0x80,
    ensures
        dispatched(old(gb), final(gb), opcode),
        effect_block1(old(gb), final(gb), opcode),
{
    if opcode == 0x76 {
        halt(gb);
    } else {
        ld_reg_reg(gb, opcode);
    }
}

/// Opcodes 0x80-0xBF: ALU operations of A with a register or the byte at HL.
fn run_block2(gb: &mut Gameboy, opcode: u8)
    requires
        ready(old(gb)),
        0x80 <= opcode < 0xc0,
    ensures
        dispatched(old(gb), final(gb), opcode),
        effect_block2(old(gb), final(gb), opcode),
        moved(
            old(gb),
            final(gb),
            alu_spec(high_idx(opcode), old(gb).reg, operand_spec(old(gb), low_idx(opcode))),
            old(gb).pc,
            old(gb).sp,
            cost(low_idx(opcode)),
        ),
{
    if opcode <= 0x87 {
        assert((opcode >> 3u8) & 7 == 0) by (bit_vector)
            requires
                0x80 <= opcode <= 0x87,
        ;
        add_a_reg(gb, opcode);
    } else if opcode <= 0x8f {
        assert((opcode >> 3u8) & 7 == 1) by (bit_vector)
            requires
                0x88 <= opcode <= 0x8f,
        ;
        adc_a_reg(gb, opcode);
    } else if opcode <= 0x97 {
        assert((opcode >> 3u8) & 7 == 2) by (bit_vector)
            requires
                0x90 <= opcode <= 0x97,
        ;
        sub_a_reg(gb, opcode);
    } else if opcode <= 0x9f {
        assert((opcode >> 3u8) & 7 == 3) by (bit_vector)
            requires
                0x98 <= opcode <= 0x9f,
        ;
        sbc_a_reg(gb, opcode);
    } else if opcode <= 0xa7 {
        assert((opcode >> 3u8) & 7 == 4) by (bit_vector)
            requires
                0xa0 <= opcode <= 0xa7,
        ;
        and_a_reg(gb, opcode);
    } else if opcode <= 0xaf {
        assert((opcode >> 3u8) & 7 == 5) by (bit_vector)
            requires
                0xa8 <= opcode <= 0xaf,
        ;
        xor_a_reg(gb, opcode);
    } else if opcode <= 0xb7 {
        assert((opcode >> 3u8) & 7 == 6) by (bit_vector)
            requires
                0xb0 <= opcode <= 0xb7,
        ;
        or_a_reg(gb, opcode);
    } else if opcode <= 0xbf {
        assert((opcode >> 3u8) & 7 == 7) by (bit_vector)
            requires
                0xb8 <= opcode <= 0xbf,
        ;
        cp_a_reg(gb, opcode);
    }
}

/// Opcodes 0xC0-0xFF: stack, calls, returns, absolute jumps, high-page loads, immediate
/// ALU operations and the CB prefix. Returns false on an undefined opcode.
fn run_block3(gb: &mut Gameboy, opcode: u8) -> (ok: bool)
    requires
        ready(old(gb)),
        0xc0 <= opcode,
    ensures
        ok == !undefined_opcode(opcode),
        dispatched(old(gb), final(gb), opcode),
        !ok ==> *final(gb) == *old(gb),
        ok ==> effect_block3(old(gb), final(gb), opcode),
{
    match opcode {
        0xcb => {
            return prefix_cb(gb);
        },
        0xc0 => {
            ret_nz(gb);
        },
        0xc1 => {
            pop_bc(gb);
        },
        0xc2 => {
            jp_nz_u16(gb);
        },
        0xc3 => {
            jp_u16(gb);
        },
        0xc4 => {
            call_nz_u16(gb);
        },
        0xc5 => {
            push_bc(gb);
        },
        0xc6 => {
            add_a_u8(gb);
        },
        0xc7 => {
            rst_n(gb, opcode);
        },
        0xc8 => {
            ret_z(gb);
        },
        0xc9 => {
            ret(gb);
        },
        0xca => {
            jp_z_u16(gb);
        },
        0xcc => {
            call_z_u16(gb);
        },
        0xcd => {
            call_u16(gb);
        },
        0xce => {
            adc_a_u8(gb);
        },
        0xcf => {
            rst_n(gb, opcode);
        },
        0xd0 => {
            ret_nc(gb);
        },
        0xd1 => {
            pop_de(gb);
        },
        0xd2 => {
            jp_nc_u16(gb);
        },
        0xd4 => {
            call_nc_u16(gb);
        },
        0xd5 => {
            push_de(gb);
        },
        0xd6 => {
            sub_a_u8(gb);
        },
        0xd7 => {
            rst_n(gb, opcode);
        },
        0xd8 => {
            ret_c(gb);
        },
        0xd9 => {
            reti(gb);
        },
        0xda => {
            jp_c_u16(gb);
        },
        0xdc => {
            call_c_u16(gb);
        },
        0xde => {
            sbc_a_u8(gb);
        },
        0xdf => {
            rst_n(gb, opcode);
        },
        0xe0 => {
            ld_ff00_u8_a(gb);
        },
        0xe1 => {
            pop_hl(gb);
        },
        0xe2 => {
            ld_ff00_c_a(gb);
        },
        0xe5 => {
            push_hl(gb);
        },
        0xe6 => {
            and_a_u8(gb);
        },
        0xe7 => {
            rst_n(gb, opcode);
        },
        0xe8 => {
            add_sp_i8(gb);
        },
        0xe9 => {
            jp_hl(gb);
        },
        0xea => {
            ld_addr_u16_a(gb);
        },
        0xee => {
            xor_a_u8(gb);
        },
        0xef => {
            rst_n(gb, opcode);
        },
        0xf0 => {
            ld_a_ff00_u8(gb);
        },
        0xf1 => {
            pop_af(gb);
        },
        0xf2 => {
            ld_a_ff00_c(gb);
        },
        0xf3 => {
            di(gb);
        },
        0xf5 => {
            push_af(gb);
        },
        0xf6 => {
            or_a_u8(gb);
        },
        0xf7 => {
            rst_n(gb, opcode);
        },
        0xf8 => {
            ld_hl_sp_i8(gb);
        },
        0xf9 => {
            ld_sp_hl(gb);
        },
        0xfa => {
            ld_a_addr_u16(gb);
        },
        0xfb => {
            ei(gb);
        },
        0xfe => {
            cp_a_u8(gb);
        },
        0xff => {
            rst_n(gb, opcode);
        },
        _ => {
            return false;
        },
    }
    true
}

/// Runs one base opcode. Returns false exactly on the undefined opcodes, which are fatal.
pub fn run_opcode(gb: &mut Gameboy, opcode: u8) -> (ok: bool)
    requires
        ready(old(gb)),
    ensures
        ok == !undefined_opcode(opcode),
        opcode_effect(old(gb), final(gb), opcode),
{
    if opcode < 0x40 {
        run_block0(gb, opcode);
        true
    } else if opcode < 0x80 {
        run_block1(gb, opcode);
        true
    } else if opcode < 0xc0 {
        run_block2(gb, opcode);
        true
    } else {
        run_block3(gb, opcode)
    }
}

} // verus!
