use vstd::prelude::*;

use crate::gameboy::{lemma_short_keeps_control, lemma_written_keeps_control, wrote_short, Gameboy};
use crate::instr_common::{
    cost, high_idx, low_idx, moved, operand_spec, ready, resolve_read_reg_low,
    resolve_write_reg_high, set_reg, step_ok, stored,
};
use crate::registers::{high_byte, low_byte, pair, Registers};

verus! {

/// The 16-bit value after the opcode, low byte first.
pub open spec fn imm16(gb: &Gameboy) -> u16 {
    pair(gb.read_spec(gb.pc.wrapping_add(1)), gb.read_spec(gb.pc))
}


/// LD r, r' between registers or the byte at HL; bits 3-5 name the destination, bits 0-2
/// the source.
pub fn ld_reg_reg(gb: &mut Gameboy, opcode: u8)
    requires
        ready(old(gb)),
        opcode != 0x76,
        0x40 <= opcode < 0x80,
    ensures
        step_ok(old(gb), final(gb)),
        ({
            let v = operand_spec(old(gb), low_idx(opcode));
            &&& high_idx(opcode) != 6 ==> moved(old(gb), final(gb), set_reg(old(gb).reg, high_idx(opcode), v), old(gb).pc, old(gb).sp, cost(low_idx(opcode)))
            &&& high_idx(opcode) == 6 ==> stored(old(gb), final(gb), old(gb).reg, old(gb).pc, old(gb).sp, old(gb).reg.hl(), v, 4 + cost(low_idx(opcode)))
        }),
{
    let v = resolve_read_reg_low(gb, opcode);
    resolve_write_reg_high(gb, opcode, v);
    proof {
        if high_idx(opcode) == 6 {
            assert(low_idx(opcode) != 6) by (bit_vector)
                requires
                    opcode != 0x76,
                    0x40 <= opcode < 0x80,
                    high_idx(opcode) == (opcode >> 3u8) & 7,
                    low_idx(opcode) == opcode & 7,
                    high_idx(opcode) == 6,
            ;
        }
    }
}

/// LD r, u8: the byte after the opcode into a register or the byte at HL.
pub fn ld_reg_u8(gb: &mut Gameboy, opcode: u8)
    requires
        ready(old(gb)),
    ensures
        step_ok(old(gb), final(gb)),
        ({
            let v = old(gb).read_spec(old(gb).pc);
            let pc = old(gb).pc.wrapping_add(1);
            &&& high_idx(opcode) != 6 ==> moved(old(gb), final(gb), set_reg(old(gb).reg, high_idx(opcode), v), pc, old(gb).sp, 4)
            &&& high_idx(opcode) == 6 ==> stored(old(gb), final(gb), old(gb).reg, pc, old(gb).sp, old(gb).reg.hl(), v, 8)
        }),
{
    let v = gb.read_byte_inc_pc();
    resolve_write_reg_high(gb, opcode, v);
}

/// LD (addr), A.
pub fn store_a(gb: &mut Gameboy, addr: u16)
    requires
        ready(old(gb)),
    ensures
        step_ok(old(gb), final(gb)),
        stored(old(gb), final(gb), old(gb).reg, old(gb).pc, old(gb).sp, addr, old(gb).reg.a, 4),
{
    gb.write_byte(addr, gb.reg.a);
    proof {
        lemma_written_keeps_control(*old(gb), *gb, addr, old(gb).reg.a);
    }
}

/// LD A, (addr).
pub fn load_a(gb: &mut Gameboy, addr: u16)
    requires
        ready(old(gb)),
    ensures
        step_ok(old(gb), final(gb)),
        moved(old(gb), final(gb), Registers { a: old(gb).read_spec(addr), ..old(gb).reg }, old(gb).pc, old(gb).sp, 4),
{
    gb.reg.a = gb.read_byte(addr);
}

/// LD (BC), A.
pub fn ld_addr_bc_a(gb: &mut Gameboy)
    requires
        ready(old(gb)),
    ensures
        step_ok(old(gb), final(gb)),
        stored(old(gb), final(gb), old(gb).reg, old(gb).pc, old(gb).sp, old(gb).reg.bc(), old(gb).reg.a, 4),
{
    let addr = gb.reg.get_bc();
    store_a(gb, addr);
}

/// LD (DE), A.
pub fn ld_addr_de_a(gb: &mut Gameboy)
    requires
        ready(old(gb)),
    ensures
        step_ok(old(gb), final(gb)),
        stored(old(gb), final(gb), old(gb).reg, old(gb).pc, old(gb).sp, old(gb).reg.de(), old(gb).reg.a, 4),
{
    let addr = gb.reg.get_de();
    store_a(gb, addr);
}

/// LD A, (BC).
pub fn ld_a_addr_bc(gb: &mut Gameboy)
    requires
        ready(old(gb)),
    ensures
        step_ok(old(gb), final(gb)),
        moved(old(gb), final(gb), Registers { a: old(gb).read_spec(old(gb).reg.bc()), ..old(gb).reg }, old(gb).pc, old(gb).sp, 4),
{
    let addr = gb.reg.get_bc();
    load_a(gb, addr);
}

/// LD A, (DE).
pub fn ld_a_addr_de(gb: &mut Gameboy)
    requires
        ready(old(gb)),
    ensures
        step_ok(old(gb), final(gb)),
        moved(old(gb), final(gb), Registers { a: old(gb).read_spec(old(gb).reg.de()), ..old(gb).reg }, old(gb).pc, old(gb).sp, 4),
{
    let addr = gb.reg.get_de();
    load_a(gb, addr);
}

/// The registers with HL one up, or one down.
pub open spec fn hl_step(r: Registers, up: bool) -> Registers {
    let v = if up {
        r.hl().wrapping_add(1)
    } else {
        r.hl().wrapping_sub(1)
    };
    Registers { h: high_byte(v), l: low_byte(v), ..r }
}

/// LD (HL+), A or LD (HL-), A.
fn ld_addr_hl_a_step(gb: &mut Gameboy, up: bool)
    requires
        ready(old(gb)),
    ensures
        step_ok(old(gb), final(gb)),
        stored(old(gb), final(gb), hl_step(old(gb).reg, up), old(gb).pc, old(gb).sp, old(gb).reg.hl(), old(gb).reg.a, 4),
{
    let addr = gb.reg.get_hl();
    gb.write_byte(addr, gb.reg.a);
    proof {
        lemma_written_keeps_control(*old(gb), *gb, addr, old(gb).reg.a);
    }
    let v = if up {
        addr.wrapping_add(1)
    } else {
        addr.wrapping_sub(1)
    };
    gb.reg.set_hl(v);
}

/// LD A, (HL+) or LD A, (HL-).
fn ld_a_addr_hl_step(gb: &mut Gameboy, up: bool)
    requires
        ready(old(gb)),
    ensures
        step_ok(old(gb), final(gb)),
        moved(old(gb), final(gb), Registers { a: old(gb).read_spec(old(gb).reg.hl()), ..hl_step(old(gb).reg, up) }, old(gb).pc, old(gb).sp, 4),
{
    let addr = gb.reg.get_hl();
    gb.reg.a = gb.read_byte(addr);
    let v = if up {
        addr.wrapping_add(1)
    } else {
        addr.wrapping_sub(1)
    };
    gb.reg.set_hl(v);
}

/// LD (0xFF00 + u8), A.
pub fn ld_ff00_u8_a(gb: &mut Gameboy)
    requires
        ready(old(gb)),
    ensures
        step_ok(old(gb), final(gb)),
        stored(old(gb), final(gb), old(gb).reg, old(gb).pc.wrapping_add(1), old(gb).sp, (0xff00 + old(gb).read_spec(old(gb).pc)) as u16, old(gb).reg.a, 8),
{
    let off = gb.read_byte_inc_pc();
    let addr: u16 = 0xff00 + off as u16;
    let ghost mid = *gb;
    gb.write_byte(addr, gb.reg.a);
    proof {
        lemma_written_keeps_control(mid, *gb, addr, old(gb).reg.a);
    }
}

/// LD A, (0xFF00 + u8).
pub fn ld_a_ff00_u8(gb: &mut Gameboy)
    requires
        ready(old(gb)),
    ensures
        step_ok(old(gb), final(gb)),
        moved(old(gb), final(gb), Registers { a: old(gb).read_spec((0xff00 + old(gb).read_spec(old(gb).pc)) as u16), ..old(gb).reg }, old(gb).pc.wrapping_add(1), old(gb).sp, 8),
{
    let off = gb.read_byte_inc_pc();
    gb.reg.a = gb.read_byte(0xff00 + off as u16);
}

/// LD (0xFF00 + C), A.
pub fn ld_ff00_c_a(gb: &mut Gameboy)
    requires
        ready(old(gb)),
    ensures
        step_ok(old(gb), final(gb)),
        stored(old(gb), final(gb), old(gb).reg, old(gb).pc, old(gb).sp, (0xff00 + old(gb).reg.c) as u16, old(gb).reg.a, 4),
{
    let addr: u16 = 0xff00 + gb.reg.c as u16;
    store_a(gb, addr);
}

/// LD A, (0xFF00 + C).
pub fn ld_a_ff00_c(gb: &mut Gameboy)
    requires
        ready(old(gb)),
    ensures
        step_ok(old(gb), final(gb)),
        moved(old(gb), final(gb), Registers { a: old(gb).read_spec((0xff00 + old(gb).reg.c) as u16), ..old(gb).reg }, old(gb).pc, old(gb).sp, 4),
{
    let addr: u16 = 0xff00 + gb.reg.c as u16;
    load_a(gb, addr);
}

/// LD (u16), A.
pub fn ld_addr_u16_a(gb: &mut Gameboy)
    requires
        ready(old(gb)),
    ensures
        step_ok(old(gb), final(gb)),
        stored(old(gb), final(gb), old(gb).reg, old(gb).pc.wrapping_add(2), old(gb).sp, imm16(old(gb)), old(gb).reg.a, 12),
{
    let addr = gb.read_short_inc_pc();
    let ghost mid = *gb;
    gb.write_byte(addr, gb.reg.a);
    proof {
        lemma_written_keeps_control(mid, *gb, addr, old(gb).reg.a);
    }
}

/// LD A, (u16).
pub fn ld_a_addr_u16(gb: &mut Gameboy)
    requires
        ready(old(gb)),
    ensures
        step_ok(old(gb), final(gb)),
        moved(old(gb), final(gb), Registers { a: old(gb).read_spec(imm16(old(gb))), ..old(gb).reg }, old(gb).pc.wrapping_add(2), old(gb).sp, 12),
{
    let addr = gb.read_short_inc_pc();
    gb.reg.a = gb.read_byte(addr);
}

/// LD (u16), SP.
pub fn ld_addr_u16_sp(gb: &mut Gameboy)
    requires
        ready(old(gb)),
    ensures
        step_ok(old(gb), final(gb)),
        final(gb).reg == old(gb).reg,
        final(gb).pc == old(gb).pc.wrapping_add(2),
        final(gb).sp == old(gb).sp,
        final(gb).ime == old(gb).ime,
        final(gb).cycles_pending == old(gb).cycles_pending + 16,
        wrote_short(Gameboy { pc: old(gb).pc.wrapping_add(2), ..*old(gb) }, *final(gb), imm16(old(gb)), old(gb).sp),
{
    let addr = gb.read_short_inc_pc();
    let ghost mid = *gb;
    gb.write_short(addr, gb.sp);
    proof {
        lemma_short_keeps_control(mid, *gb, addr, old(gb).sp);
        assert(wrote_short(Gameboy { pc: old(gb).pc.wrapping_add(2), ..*old(gb) }, *gb, addr, old(gb).sp)) by {
            let m = choose|m: Gameboy| #![trigger mid.cpu_written(&m, addr, low_byte(old(gb).sp))]
                mid.cpu_written(&m, addr, low_byte(old(gb).sp)) && m.cpu_written(&*gb, addr.wrapping_add(1), high_byte(old(gb).sp));
            assert((Gameboy { pc: old(gb).pc.wrapping_add(2), ..*old(gb) }).cpu_written(&m, addr, low_byte(old(gb).sp)));
        }
    }
}

/// LD SP, HL.
pub fn ld_sp_hl(gb: &mut Gameboy)
    requires
        ready(old(gb)),
    ensures
        step_ok(old(gb), final(gb)),
        moved(old(gb), final(gb), old(gb).reg, old(gb).pc, old(gb).reg.hl(), 0),
{
    gb.sp = gb.reg.get_hl();
}

/// PUSH of a 16-bit value.
fn push_rr(gb: &mut Gameboy, value: u16)
    requires
        ready(old(gb)),
    ensures
        step_ok(old(gb), final(gb)),
        final(gb).reg == old(gb).reg,
        final(gb).pc == old(gb).pc,
        final(gb).sp == old(gb).sp.wrapping_sub(2),
        final(gb).ime == old(gb).ime,
        final(gb).cycles_pending == old(gb).cycles_pending + 8,
        wrote_short(
            Gameboy { sp: old(gb).sp.wrapping_sub(2), ..*old(gb) },
            *final(gb),
            old(gb).sp.wrapping_sub(2),
            value,
        ),
{
    gb.push_short(value);
    proof {
        let s = Gameboy { sp: old(gb).sp.wrapping_sub(2), cycles_pending: old(gb).cycles_pending, ..*old(gb) };
        lemma_short_keeps_control(s, *gb, old(gb).sp.wrapping_sub(2), value);
        assert(wrote_short(Gameboy { sp: old(gb).sp.wrapping_sub(2), ..*old(gb) }, *gb, old(gb).sp.wrapping_sub(2), value)) by {
            let m = choose|m: Gameboy| #![trigger s.cpu_written(&m, old(gb).sp.wrapping_sub(2), low_byte(value))]
                s.cpu_written(&m, old(gb).sp.wrapping_sub(2), low_byte(value)) && m.cpu_written(&*gb, old(gb).sp.wrapping_sub(2).wrapping_add(1), high_byte(value));
            assert((Gameboy { sp: old(gb).sp.wrapping_sub(2), ..*old(gb) }).cpu_written(&m, old(gb).sp.wrapping_sub(2), low_byte(value)));
        }
    }
}

/// The value on top of the stack.
pub open spec fn top16(gb: &Gameboy) -> u16 {
    pair(gb.read_spec(gb.sp.wrapping_add(1)), gb.read_spec(gb.sp))
}


/// The registers after POP AF: the low nibble of F is dropped.
pub open spec fn with_af(r: Registers, v: u16) -> Registers {
    let f = low_byte(v);
    Registers {
        a: high_byte(v),
        flag_z: f & 0x80 != 0,
        flag_n: f & 0x40 != 0,
        flag_h: f & 0x20 != 0,
        flag_c: f & 0x10 != 0,
        ..r
    }
}

/// POP AF.
pub fn pop_af(gb: &mut Gameboy)
    requires
        ready(old(gb)),
    ensures
        step_ok(old(gb), final(gb)),
        moved(old(gb), final(gb), with_af(old(gb).reg, top16(old(gb))), old(gb).pc, old(gb).sp.wrapping_add(2), 8),
{
    let v = gb.pop_short();
    gb.reg.set_af(v);
}

/// LD BC, u16.
pub fn ld_bc_u16(gb: &mut Gameboy)
    requires
        ready(old(gb)),
    ensures
        step_ok(old(gb), final(gb)),
        ({
            let v = imm16(old(gb));
            moved(old(gb), final(gb), Registers { b: high_byte(v), c: low_byte(v), ..old(gb).reg }, old(gb).pc.wrapping_add(2), old(gb).sp, 8)
        }),
{
    let v = gb.read_short_inc_pc();
    gb.reg.set_bc(v);
}

/// POP BC.
pub fn pop_bc(gb: &mut Gameboy)
    requires
        ready(old(gb)),
    ensures
        step_ok(old(gb), final(gb)),
        ({
            let v = top16(old(gb));
            moved(old(gb), final(gb), Registers { b: high_byte(v), c: low_byte(v), ..old(gb).reg }, old(gb).pc, old(gb).sp.wrapping_add(2), 8)
        }),
{
    let v = gb.pop_short();
    gb.reg.set_bc(v);
}

/// PUSH BC.
pub fn push_bc(gb: &mut Gameboy)
    requires
        ready(old(gb)),
    ensures
        step_ok(old(gb), final(gb)),
        final(gb).reg == old(gb).reg,
        final(gb).pc == old(gb).pc,
        final(gb).sp == old(gb).sp.wrapping_sub(2),
        final(gb).ime == old(gb).ime,
        final(gb).cycles_pending == old(gb).cycles_pending + 8,
        wrote_short(
            Gameboy { sp: old(gb).sp.wrapping_sub(2), ..*old(gb) },
            *final(gb),
            old(gb).sp.wrapping_sub(2),
            old(gb).reg.bc(),
        ),
{
    let v = gb.reg.get_bc();
    push_rr(gb, v);
}

/// LD DE, u16.
pub fn ld_de_u16(gb: &mut Gameboy)
    requires
        ready(old(gb)),
    ensures
        step_ok(old(gb), final(gb)),
        ({
            let v = imm16(old(gb));
            moved(old(gb), final(gb), Registers { d: high_byte(v), e: low_byte(v), ..old(gb).reg }, old(gb).pc.wrapping_add(2), old(gb).sp, 8)
        }),
{
    let v = gb.read_short_inc_pc();
    gb.reg.set_de(v);
}

/// POP DE.
pub fn pop_de(gb: &mut Gameboy)
    requires
        ready(old(gb)),
    ensures
        step_ok(old(gb), final(gb)),
        ({
            let v = top16(old(gb));
            moved(old(gb), final(gb), Registers { d: high_byte(v), e: low_byte(v), ..old(gb).reg }, old(gb).pc, old(gb).sp.wrapping_add(2), 8)
        }),
{
    let v = gb.pop_short();
    gb.reg.set_de(v);
}

/// PUSH DE.
pub fn push_de(gb: &mut Gameboy)
    requires
        ready(old(gb)),
    ensures
        step_ok(old(gb), final(gb)),
        final(gb).reg == old(gb).reg,
        final(gb).pc == old(gb).pc,
        final(gb).sp == old(gb).sp.wrapping_sub(2),
        final(gb).ime == old(gb).ime,
        final(gb).cycles_pending == old(gb).cycles_pending + 8,
        wrote_short(
            Gameboy { sp: old(gb).sp.wrapping_sub(2), ..*old(gb) },
            *final(gb),
            old(gb).sp.wrapping_sub(2),
            old(gb).reg.de(),
        ),
{
    let v = gb.reg.get_de();
    push_rr(gb, v);
}

/// LD HL, u16.
pub fn ld_hl_u16(gb: &mut Gameboy)
    requires
        ready(old(gb)),
    ensures
        step_ok(old(gb), final(gb)),
        ({
            let v = imm16(old(gb));
            moved(old(gb), final(gb), Registers { h: high_byte(v), l: low_byte(v), ..old(gb).reg }, old(gb).pc.wrapping_add(2), old(gb).sp, 8)
        }),
{
    let v = gb.read_short_inc_pc();
    gb.reg.set_hl(v);
}

/// POP HL.
pub fn pop_hl(gb: &mut Gameboy)
    requires
        ready(old(gb)),
    ensures
        step_ok(old(gb), final(gb)),
        ({
            let v = top16(old(gb));
            moved(old(gb), final(gb), Registers { h: high_byte(v), l: low_byte(v), ..old(gb).reg }, old(gb).pc, old(gb).sp.wrapping_add(2), 8)
        }),
{
    let v = gb.pop_short();
    gb.reg.set_hl(v);
}

/// PUSH HL.
pub fn push_hl(gb: &mut Gameboy)
    requires
        ready(old(gb)),
    ensures
        step_ok(old(gb), final(gb)),
        final(gb).reg == old(gb).reg,
        final(gb).pc == old(gb).pc,
        final(gb).sp == old(gb).sp.wrapping_sub(2),
        final(gb).ime == old(gb).ime,
        final(gb).cycles_pending == old(gb).cycles_pending + 8,
        wrote_short(
            Gameboy { sp: old(gb).sp.wrapping_sub(2), ..*old(gb) },
            *final(gb),
            old(gb).sp.wrapping_sub(2),
            old(gb).reg.hl(),
        ),
{
    let v = gb.reg.get_hl();
    push_rr(gb, v);
}

/// LD SP, u16.
pub fn ld_sp_u16(gb: &mut Gameboy)
    requires
        ready(old(gb)),
    ensures
        step_ok(old(gb), final(gb)),
        moved(old(gb), final(gb), old(gb).reg, old(gb).pc.wrapping_add(2), imm16(old(gb)), 8),
{
    gb.sp = gb.read_short_inc_pc();
}

/// PUSH AF.
pub fn push_af(gb: &mut Gameboy)
    requires
        ready(old(gb)),
    ensures
        step_ok(old(gb), final(gb)),
        final(gb).reg == old(gb).reg,
        final(gb).pc == old(gb).pc,
        final(gb).sp == old(gb).sp.wrapping_sub(2),
        final(gb).ime == old(gb).ime,
        final(gb).cycles_pending == old(gb).cycles_pending + 8,
        wrote_short(
            Gameboy { sp: old(gb).sp.wrapping_sub(2), ..*old(gb) },
            *final(gb),
            old(gb).sp.wrapping_sub(2),
            old(gb).reg.af(),
        ),
{
    let v = gb.reg.get_af();
    push_rr(gb, v);
}

/// LD (HL+), A.
pub fn ld_addr_inc_hl_a(gb: &mut Gameboy)
    requires
        ready(old(gb)),
    ensures
        step_ok(old(gb), final(gb)),
        stored(old(gb), final(gb), hl_step(old(gb).reg, true), old(gb).pc, old(gb).sp, old(gb).reg.hl(), old(gb).reg.a, 4),
{
    ld_addr_hl_a_step(gb, true);
}

/// LD (HL-), A.
pub fn ld_addr_dec_hl_a(gb: &mut Gameboy)
    requires
        ready(old(gb)),
    ensures
        step_ok(old(gb), final(gb)),
        stored(old(gb), final(gb), hl_step(old(gb).reg, false), old(gb).pc, old(gb).sp, old(gb).reg.hl(), old(gb).reg.a, 4),
{
    ld_addr_hl_a_step(gb, false);
}

/// LD A, (HL+).
pub fn ld_a_addr_inc_hl(gb: &mut Gameboy)
    requires
        ready(old(gb)),
    ensures
        step_ok(old(gb), final(gb)),
        moved(old(gb), final(gb), Registers { a: old(gb).read_spec(old(gb).reg.hl()), ..hl_step(old(gb).reg, true) }, old(gb).pc, old(gb).sp, 4),
{
    ld_a_addr_hl_step(gb, true);
}

/// LD A, (HL-).
pub fn ld_a_addr_dec_hl(gb: &mut Gameboy)
    requires
        ready(old(gb)),
    ensures
        step_ok(old(gb), final(gb)),
        moved(old(gb), final(gb), Registers { a: old(gb).read_spec(old(gb).reg.hl()), ..hl_step(old(gb).reg, false) }, old(gb).pc, old(gb).sp, 4),
{
    ld_a_addr_hl_step(gb, false);
}

} // verus!
