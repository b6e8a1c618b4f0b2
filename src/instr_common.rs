use vstd::prelude::*;

use crate::gameboy::{keeps_control, lemma_written_keeps_control, Gameboy, STEP_CYCLES_START};
use crate::registers::Registers;

verus! {

/// The machine can run an instruction: it is well formed and the step has not charged many
/// cycles yet.
pub open spec fn ready(gb: &Gameboy) -> bool {
    gb.wf() && gb.cycles_pending <= STEP_CYCLES_START
}

/// What every instruction leaves: a well-formed machine, between 0 and 32 more cycles, the
/// interrupt latches as they were, and the driver's bookkeeping untouched.
pub open spec fn step_ok(o: &Gameboy, n: &Gameboy) -> bool {
    &&& n.wf()
    &&& o.cycles_pending <= n.cycles_pending <= o.cycles_pending + 32
    &&& keeps_control(o, n)
    &&& n.books_same(o)
}

/// `n` is `o` with registers `r`, PC `pc` and SP `sp`, `cost` more cycles, and memory as
/// it was.
pub open spec fn moved(o: &Gameboy, n: &Gameboy, r: Registers, pc: u16, sp: u16, cost: int) -> bool {
    &&& n.wf()
    &&& n.reg == r
    &&& n.pc == pc
    &&& n.sp == sp
    &&& n.ime == o.ime
    &&& n.mem_same(o)
    &&& n.books_same(o)
    &&& n.cycles_pending == o.cycles_pending + cost
}

/// `n` is `o` with registers `r`, PC `pc` and SP `sp`, after the CPU stored `v` at `addr`,
/// `cost` more cycles.
pub open spec fn stored(
    o: &Gameboy,
    n: &Gameboy,
    r: Registers,
    pc: u16,
    sp: u16,
    addr: u16,
    v: u8,
    cost: int,
) -> bool {
    &&& n.wf()
    &&& n.cycles_pending == o.cycles_pending + cost
    &&& (Gameboy { reg: r, pc: pc, sp: sp, cycles_pending: 0, ..*o }).cpu_written(n, addr, v)
}

/// The 8-bit operand that index `idx` names: B, C, D, E, H, L, the byte at HL, or A.
pub open spec fn operand_spec(gb: &Gameboy, idx: u8) -> u8 {
    let r = gb.reg;
    if idx == 0 {
        r.b
    } else if idx == 1 {
        r.c
    } else if idx == 2 {
        r.d
    } else if idx == 3 {
        r.e
    } else if idx == 4 {
        r.h
    } else if idx == 5 {
        r.l
    } else if idx == 6 {
        gb.read_spec(r.hl())
    } else {
        r.a
    }
}

/// The registers with the one that index `idx` names set to `v` (index 6, the byte at HL,
/// is memory and leaves them alone).
pub open spec fn set_reg(r: Registers, idx: u8, v: u8) -> Registers {
    if idx == 0 {
        Registers { b: v, ..r }
    } else if idx == 1 {
        Registers { c: v, ..r }
    } else if idx == 2 {
        Registers { d: v, ..r }
    } else if idx == 3 {
        Registers { e: v, ..r }
    } else if idx == 4 {
        Registers { h: v, ..r }
    } else if idx == 5 {
        Registers { l: v, ..r }
    } else if idx == 6 {
        r
    } else {
        Registers { a: v, ..r }
    }
}

/// The extra cycles of operand `idx`: a bus access for the byte at HL.
pub open spec fn cost(idx: u8) -> int {
    if idx == 6 {
        4
    } else {
        0
    }
}

pub open spec fn low_idx(opcode: u8) -> u8 {
    opcode & 7
}

pub open spec fn high_idx(opcode: u8) -> u8 {
    (opcode >> 3u8) & 7
}

pub fn low_index(opcode: u8) -> (r: u8)
    ensures
        r == low_idx(opcode),
        r < 8,
{
    let r = opcode & 7;
    assert(r < 8) by (bit_vector)
        requires
            r == opcode & 7,
    ;
    r
}

pub fn high_index(opcode: u8) -> (r: u8)
    ensures
        r == high_idx(opcode),
        r < 8,
{
    let r = (opcode >> 3u8) & 7;
    assert(r < 8) by (bit_vector)
        requires
            r == (opcode >> 3u8) & 7,
    ;
    r
}

/// Reads the operand that index `idx` names.
pub fn read_reg(gb: &mut Gameboy, idx: u8) -> (r: u8)
    requires
        old(gb).wf(),
        old(gb).cycles_pending <= STEP_CYCLES_START + 32,
        idx < 8,
    ensures
        r == operand_spec(old(gb), idx),
        moved(old(gb), final(gb), old(gb).reg, old(gb).pc, old(gb).sp, cost(idx)),
{
    if idx == 0 {
        gb.reg.b
    } else if idx == 1 {
        gb.reg.c
    } else if idx == 2 {
        gb.reg.d
    } else if idx == 3 {
        gb.reg.e
    } else if idx == 4 {
        gb.reg.h
    } else if idx == 5 {
        gb.reg.l
    } else if idx == 6 {
        let hl = gb.reg.get_hl();
        gb.read_byte(hl)
    } else {
        gb.reg.a
    }
}

/// Writes `v` to the operand that index `idx` names.
pub fn write_reg(gb: &mut Gameboy, idx: u8, v: u8)
    requires
        old(gb).wf(),
        old(gb).cycles_pending <= STEP_CYCLES_START + 64,
        idx < 8,
    ensures
        idx != 6 ==> moved(old(gb), final(gb), set_reg(old(gb).reg, idx, v), old(gb).pc, old(gb).sp, 0),
        idx == 6 ==> stored(old(gb), final(gb), old(gb).reg, old(gb).pc, old(gb).sp, old(gb).reg.hl(), v, 4),
        keeps_control(old(gb), final(gb)),
        final(gb).books_same(old(gb)),
        final(gb).ime == old(gb).ime,
{
    if idx == 0 {
        gb.reg.b = v;
    } else if idx == 1 {
        gb.reg.c = v;
    } else if idx == 2 {
        gb.reg.d = v;
    } else if idx == 3 {
        gb.reg.e = v;
    } else if idx == 4 {
        gb.reg.h = v;
    } else if idx == 5 {
        gb.reg.l = v;
    } else if idx == 6 {
        let hl = gb.reg.get_hl();
        gb.write_byte(hl, v);
        proof {
            lemma_written_keeps_control(*old(gb), *gb, hl, v);
        }
    } else {
        gb.reg.a = v;
    }
}

/// Reads the operand that bits 0-2 of `opcode` name.
pub fn resolve_read_reg_low(gb: &mut Gameboy, opcode: u8) -> (r: u8)
    requires
        ready(old(gb)),
    ensures
        r == operand_spec(old(gb), low_idx(opcode)),
        moved(old(gb), final(gb), old(gb).reg, old(gb).pc, old(gb).sp, cost(low_idx(opcode))),
{
    let idx = low_index(opcode);
    read_reg(gb, idx)
}

/// Reads the operand that bits 3-5 of `opcode` name.
pub fn resolve_read_reg_high(gb: &mut Gameboy, opcode: u8) -> (r: u8)
    requires
        ready(old(gb)),
    ensures
        r == operand_spec(old(gb), high_idx(opcode)),
        moved(old(gb), final(gb), old(gb).reg, old(gb).pc, old(gb).sp, cost(high_idx(opcode))),
{
    let idx = high_index(opcode);
    read_reg(gb, idx)
}

/// Writes the operand that bits 0-2 of `opcode` name.
pub fn resolve_write_reg_low(gb: &mut Gameboy, opcode: u8, v: u8)
    requires
        old(gb).wf(),
        old(gb).cycles_pending <= STEP_CYCLES_START + 64,
    ensures
        low_idx(opcode) != 6 ==> moved(old(gb), final(gb), set_reg(old(gb).reg, low_idx(opcode), v), old(gb).pc, old(gb).sp, 0),
        low_idx(opcode) == 6 ==> stored(old(gb), final(gb), old(gb).reg, old(gb).pc, old(gb).sp, old(gb).reg.hl(), v, 4),
        keeps_control(old(gb), final(gb)),
        final(gb).books_same(old(gb)),
        final(gb).ime == old(gb).ime,
{
    let idx = low_index(opcode);
    write_reg(gb, idx, v)
}

/// Writes the operand that bits 3-5 of `opcode` name.
pub fn resolve_write_reg_high(gb: &mut Gameboy, opcode: u8, v: u8)
    requires
        old(gb).wf(),
        old(gb).cycles_pending <= STEP_CYCLES_START + 64,
    ensures
        high_idx(opcode) != 6 ==> moved(old(gb), final(gb), set_reg(old(gb).reg, high_idx(opcode), v), old(gb).pc, old(gb).sp, 0),
        high_idx(opcode) == 6 ==> stored(old(gb), final(gb), old(gb).reg, old(gb).pc, old(gb).sp, old(gb).reg.hl(), v, 4),
        keeps_control(old(gb), final(gb)),
        final(gb).books_same(old(gb)),
        final(gb).ime == old(gb).ime,
{
    let idx = high_index(opcode);
    write_reg(gb, idx, v)
}

} // verus!
