use vstd::prelude::*;

use crate::alu::{shift, shift_spec};
use crate::gameboy::{keeps_control, Gameboy, STEP_CYCLES_START};
use crate::instr_common::{
    cost, high_index, low_idx, low_index, moved, operand_spec, read_reg, ready, set_reg, step_ok,
    stored, write_reg,
};
use crate::registers::Registers;

verus! {

/// The registers and the operand value after CB-prefixed opcode `op2` on operand `v`:
/// bits 6-7 pick shift/rotate, BIT, RES or SET, bits 3-5 the kind or the bit number.
pub open spec fn cb_result(op2: u8, r: Registers, v: u8) -> (Registers, u8) {
    let group = op2 >> 6u8;
    let sub = (op2 >> 3u8) & 7;
    if group == 0 {
        let s = shift_spec(sub, v, r.flag_c);
        (Registers { flag_z: s.0 == 0, flag_n: false, flag_h: false, flag_c: s.1, ..r }, s.0)
    } else if group == 1 {
        (Registers { flag_z: v & (1u8 << sub) == 0, flag_n: false, flag_h: true, ..r }, v)
    } else if group == 2 {
        (r, v & !(1u8 << sub))
    } else {
        (r, v | (1u8 << sub))
    }
}

/// The effect of CB-prefixed opcode `op2` on `o`, whose PC already points past it, with
/// `base` cycles already charged for it.
pub open spec fn cb_effect(o: &Gameboy, n: &Gameboy, op2: u8, base: int) -> bool {
    let idx = low_idx(op2);
    let res = cb_result(op2, o.reg, operand_spec(o, idx));
    &&& op2 >> 6u8 == 1 ==> moved(o, n, res.0, o.pc, o.sp, base + cost(idx))
    &&& op2 >> 6u8 != 1 && idx != 6 ==> moved(o, n, set_reg(res.0, idx, res.1), o.pc, o.sp, base)
    &&& op2 >> 6u8 != 1 && idx == 6 ==> stored(o, n, res.0, o.pc, o.sp, o.reg.hl(), res.1, base + 8)
}

fn cb_shift(gb: &mut Gameboy, op2: u8)
    requires
        old(gb).wf(),
        old(gb).cycles_pending <= STEP_CYCLES_START + 32,
        op2 >> 6u8 == 0,
    ensures
        cb_effect(old(gb), final(gb), op2, 0),
        keeps_control(old(gb), final(gb)),
        final(gb).books_same(old(gb)),
        final(gb).ime == old(gb).ime,
{
    let idx = low_index(op2);
    let sub = high_index(op2);
    let v = read_reg(gb, idx);
    let (w, c) = shift(sub, v, gb.reg.flag_c);
    gb.reg = Registers { flag_z: w == 0, flag_n: false, flag_h: false, flag_c: c, ..gb.reg };
    write_reg(gb, idx, w);
}

fn cb_bit(gb: &mut Gameboy, op2: u8)
    requires
        old(gb).wf(),
        old(gb).cycles_pending <= STEP_CYCLES_START + 32,
        op2 >> 6u8 == 1,
    ensures
        cb_effect(old(gb), final(gb), op2, 0),
        keeps_control(old(gb), final(gb)),
        final(gb).books_same(old(gb)),
        final(gb).ime == old(gb).ime,
{
    let idx = low_index(op2);
    let sub = high_index(op2);
    let v = read_reg(gb, idx);
    gb.reg = Registers { flag_z: v & (1u8 << sub) == 0, flag_n: false, flag_h: true, ..gb.reg };
}

fn cb_res_set(gb: &mut Gameboy, op2: u8)
    requires
        old(gb).wf(),
        old(gb).cycles_pending <= STEP_CYCLES_START + 32,
        op2 >> 6u8 >= 2,
    ensures
        cb_effect(old(gb), final(gb), op2, 0),
        keeps_control(old(gb), final(gb)),
        final(gb).books_same(old(gb)),
        final(gb).ime == old(gb).ime,
{
    let idx = low_index(op2);
    let sub = high_index(op2);
    let v = read_reg(gb, idx);
    let w = if op2 >> 6u8 == 2 {
        v & !(1u8 << sub)
    } else {
        v | (1u8 << sub)
    };
    write_reg(gb, idx, w);
}

/// Runs the CB-prefixed opcode that follows. Every one of the 256 is defined, so this
/// always succeeds.
pub fn prefix_cb(gb: &mut Gameboy) -> (ok: bool)
    requires
        ready(old(gb)),
    ensures
        ok,
        step_ok(old(gb), final(gb)),
        final(gb).ime == old(gb).ime,
        cb_effect(
            &Gameboy { pc: old(gb).pc.wrapping_add(1), ..*old(gb) },
            final(gb),
            old(gb).read_spec(old(gb).pc),
            4,
        ),
{
    let op2 = gb.read_byte_inc_pc();
    let ghost mid = *gb;
    if op2 < 0x08 {
        rlc_reg(gb, op2);
    } else if op2 < 0x10 {
        rrc_reg(gb, op2);
    } else if op2 < 0x18 {
        rl_reg(gb, op2);
    } else if op2 < 0x20 {
        rr_reg(gb, op2);
    } else if op2 < 0x28 {
        sla_reg(gb, op2);
    } else if op2 < 0x30 {
        sra_reg(gb, op2);
    } else if op2 < 0x38 {
        swap_reg(gb, op2);
    } else if op2 < 0x40 {
        srl_reg(gb, op2);
    } else if op2 < 0x80 {
        bit_n_reg(gb, op2);
    } else if op2 < 0xc0 {
        res_n_reg(gb, op2);
    } else {
        set_n_reg(gb, op2);
    }
    proof {
        let o1 = Gameboy { pc: old(gb).pc.wrapping_add(1), ..*old(gb) };
        assert(operand_spec(&o1, low_idx(op2)) == operand_spec(&mid, low_idx(op2)));
    }
    true
}

/// RLC: rotate left, bit 7 into C and bit 0.
pub fn rlc_reg(gb: &mut Gameboy, opcode: u8)
    requires
        old(gb).wf(),
        old(gb).cycles_pending <= STEP_CYCLES_START + 32,
        0x00 <= opcode < 0x08,
    ensures
        cb_effect(old(gb), final(gb), opcode, 0),
        keeps_control(old(gb), final(gb)),
        final(gb).books_same(old(gb)),
        final(gb).ime == old(gb).ime,
{
    assert(opcode >> 6u8 == 0) by (bit_vector)
        requires
            opcode < 0x40,
    ;
    cb_shift(gb, opcode);
}

/// RRC: rotate right, bit 0 into C and bit 7.
pub fn rrc_reg(gb: &mut Gameboy, opcode: u8)
    requires
        old(gb).wf(),
        old(gb).cycles_pending <= STEP_CYCLES_START + 32,
        0x08 <= opcode < 0x10,
    ensures
        cb_effect(old(gb), final(gb), opcode, 0),
        keeps_control(old(gb), final(gb)),
        final(gb).books_same(old(gb)),
        final(gb).ime == old(gb).ime,
{
    assert(opcode >> 6u8 == 0) by (bit_vector)
        requires
            opcode < 0x40,
    ;
    cb_shift(gb, opcode);
}

/// RL: rotate left through C.
pub fn rl_reg(gb: &mut Gameboy, opcode: u8)
    requires
        old(gb).wf(),
        old(gb).cycles_pending <= STEP_CYCLES_START + 32,
        0x10 <= opcode < 0x18,
    ensures
        cb_effect(old(gb), final(gb), opcode, 0),
        keeps_control(old(gb), final(gb)),
        final(gb).books_same(old(gb)),
        final(gb).ime == old(gb).ime,
{
    assert(opcode >> 6u8 == 0) by (bit_vector)
        requires
            opcode < 0x40,
    ;
    cb_shift(gb, opcode);
}

/// RR: rotate right through C.
pub fn rr_reg(gb: &mut Gameboy, opcode: u8)
    requires
        old(gb).wf(),
        old(gb).cycles_pending <= STEP_CYCLES_START + 32,
        0x18 <= opcode < 0x20,
    ensures
        cb_effect(old(gb), final(gb), opcode, 0),
        keeps_control(old(gb), final(gb)),
        final(gb).books_same(old(gb)),
        final(gb).ime == old(gb).ime,
{
    assert(opcode >> 6u8 == 0) by (bit_vector)
        requires
            opcode < 0x40,
    ;
    cb_shift(gb, opcode);
}

/// SLA: shift left, bit 7 into C.
pub fn sla_reg(gb: &mut Gameboy, opcode: u8)
    requires
        old(gb).wf(),
        old(gb).cycles_pending <= STEP_CYCLES_START + 32,
        0x20 <= opcode < 0x28,
    ensures
        cb_effect(old(gb), final(gb), opcode, 0),
        keeps_control(old(gb), final(gb)),
        final(gb).books_same(old(gb)),
        final(gb).ime == old(gb).ime,
{
    assert(opcode >> 6u8 == 0) by (bit_vector)
        requires
            opcode < 0x40,
    ;
    cb_shift(gb, opcode);
}

/// SRA: shift right keeping bit 7, bit 0 into C.
pub fn sra_reg(gb: &mut Gameboy, opcode: u8)
    requires
        old(gb).wf(),
        old(gb).cycles_pending <= STEP_CYCLES_START + 32,
        0x28 <= opcode < 0x30,
    ensures
        cb_effect(old(gb), final(gb), opcode, 0),
        keeps_control(old(gb), final(gb)),
        final(gb).books_same(old(gb)),
        final(gb).ime == old(gb).ime,
{
    assert(opcode >> 6u8 == 0) by (bit_vector)
        requires
            opcode < 0x40,
    ;
    cb_shift(gb, opcode);
}

/// SWAP: exchange the nibbles; C cleared.
pub fn swap_reg(gb: &mut Gameboy, opcode: u8)
    requires
        old(gb).wf(),
        old(gb).cycles_pending <= STEP_CYCLES_START + 32,
        0x30 <= opcode < 0x38,
    ensures
        cb_effect(old(gb), final(gb), opcode, 0),
        keeps_control(old(gb), final(gb)),
        final(gb).books_same(old(gb)),
        final(gb).ime == old(gb).ime,
{
    assert(opcode >> 6u8 == 0) by (bit_vector)
        requires
            opcode < 0x40,
    ;
    cb_shift(gb, opcode);
}

/// SRL: shift right, bit 0 into C.
pub fn srl_reg(gb: &mut Gameboy, opcode: u8)
    requires
        old(gb).wf(),
        old(gb).cycles_pending <= STEP_CYCLES_START + 32,
        0x38 <= opcode < 0x40,
    ensures
        cb_effect(old(gb), final(gb), opcode, 0),
        keeps_control(old(gb), final(gb)),
        final(gb).books_same(old(gb)),
        final(gb).ime == old(gb).ime,
{
    assert(opcode >> 6u8 == 0) by (bit_vector)
        requires
            opcode < 0x40,
    ;
    cb_shift(gb, opcode);
}

/// BIT n: Z set when bit n (bits 3-5) of the operand is clear.
pub fn bit_n_reg(gb: &mut Gameboy, opcode: u8)
    requires
        old(gb).wf(),
        old(gb).cycles_pending <= STEP_CYCLES_START + 32,
        0x40 <= opcode < 0x80,
    ensures
        cb_effect(old(gb), final(gb), opcode, 0),
        keeps_control(old(gb), final(gb)),
        final(gb).books_same(old(gb)),
        final(gb).ime == old(gb).ime,
{
    assert(opcode >> 6u8 == 1) by (bit_vector)
        requires
            0x40 <= opcode < 0x80,
    ;
    cb_bit(gb, opcode);
}

/// RES n: clears bit n (bits 3-5) of the operand.
pub fn res_n_reg(gb: &mut Gameboy, opcode: u8)
    requires
        old(gb).wf(),
        old(gb).cycles_pending <= STEP_CYCLES_START + 32,
        0x80 <= opcode < 0xc0,
    ensures
        cb_effect(old(gb), final(gb), opcode, 0),
        keeps_control(old(gb), final(gb)),
        final(gb).books_same(old(gb)),
        final(gb).ime == old(gb).ime,
{
    assert(opcode >> 6u8 == 2) by (bit_vector)
        requires
            0x80 <= opcode < 0xc0,
    ;
    cb_res_set(gb, opcode);
}

/// SET n: sets bit n (bits 3-5) of the operand.
pub fn set_n_reg(gb: &mut Gameboy, opcode: u8)
    requires
        old(gb).wf(),
        old(gb).cycles_pending <= STEP_CYCLES_START + 32,
        0xc0 <= opcode,
    ensures
        cb_effect(old(gb), final(gb), opcode, 0),
        keeps_control(old(gb), final(gb)),
        final(gb).books_same(old(gb)),
        final(gb).ime == old(gb).ime,
{
    assert(opcode >> 6u8 == 3) by (bit_vector)
        requires
            0xc0 <= opcode,
    ;
    cb_res_set(gb, opcode);
}

} // verus!
