use vstd::prelude::*;

use crate::gameboy::{lemma_short_keeps_control, wrote_short, Gameboy, OtherState};
use crate::instr_common::{moved, ready, step_ok};
use crate::load_instrs::{imm16, top16};
use crate::registers::{high_byte, low_byte, Registers};

verus! {

/// The condition that bits 3-4 of a conditional jump, call or return test: NZ, Z, NC or C.
pub open spec fn cond_spec(r: Registers, opcode: u8) -> bool {
    let k = (opcode >> 3u8) & 3;
    if k == 0 {
        !r.flag_z
    } else if k == 1 {
        r.flag_z
    } else if k == 2 {
        !r.flag_c
    } else {
        r.flag_c
    }
}

pub fn condition(r: &Registers, opcode: u8) -> (b: bool)
    ensures
        b == cond_spec(*r, opcode),
{
    let k = (opcode >> 3u8) & 3;
    if k == 0 {
        !r.flag_z
    } else if k == 1 {
        r.flag_z
    } else if k == 2 {
        !r.flag_c
    } else {
        r.flag_c
    }
}

/// Where a relative jump by the signed byte `e` from `pc` lands.
pub open spec fn rel_target(pc: u16, e: u8) -> u16 {
    pc.wrapping_add_signed(e as i8 as i16)
}

/// JR e: when `taken`, PC moves by the signed byte after the opcode.
pub fn jr_cond(gb: &mut Gameboy, taken: bool)
    requires
        ready(old(gb)),
    ensures
        step_ok(old(gb), final(gb)),
        ({
            let next = old(gb).pc.wrapping_add(1);
            let e = old(gb).read_spec(old(gb).pc);
            moved(
                old(gb),
                final(gb),
                old(gb).reg,
                if taken { rel_target(next, e) } else { next },
                old(gb).sp,
                if taken { 8 } else { 4 },
            )
        }),
{
    let e = gb.read_byte_inc_pc();
    if taken {
        gb.pc = gb.pc.wrapping_add_signed(e as i8 as i16);
        gb.cycles_pending = gb.cycles_pending + 4;
    }
}

/// JP u16: when `taken`, PC becomes the 16-bit value after the opcode.
pub fn jp_cond(gb: &mut Gameboy, taken: bool)
    requires
        ready(old(gb)),
    ensures
        step_ok(old(gb), final(gb)),
        moved(
            old(gb),
            final(gb),
            old(gb).reg,
            if taken { imm16(old(gb)) } else { old(gb).pc.wrapping_add(2) },
            old(gb).sp,
            if taken { 12 } else { 8 },
        ),
{
    let addr = gb.read_short_inc_pc();
    if taken {
        gb.cycles_pending = gb.cycles_pending + 4;
        gb.pc = addr;
    }
}

/// JP HL.
pub fn jp_hl(gb: &mut Gameboy)
    requires
        ready(old(gb)),
    ensures
        step_ok(old(gb), final(gb)),
        moved(old(gb), final(gb), old(gb).reg, old(gb).reg.hl(), old(gb).sp, 0),
{
    gb.pc = gb.reg.get_hl();
}

/// CALL u16: when `taken`, the address of the next instruction is pushed and PC becomes
/// the 16-bit value after the opcode.
pub fn call_cond(gb: &mut Gameboy, taken: bool)
    requires
        ready(old(gb)),
    ensures
        step_ok(old(gb), final(gb)),
        final(gb).ime == old(gb).ime,
        final(gb).reg == old(gb).reg,
        !taken ==> moved(old(gb), final(gb), old(gb).reg, old(gb).pc.wrapping_add(2), old(gb).sp, 8),
        taken ==> {
            let ret = old(gb).pc.wrapping_add(2);
            let sp = old(gb).sp.wrapping_sub(2);
            &&& final(gb).pc == imm16(old(gb))
            &&& final(gb).sp == sp
            &&& final(gb).cycles_pending == old(gb).cycles_pending + 20
            &&& wrote_short(Gameboy { pc: ret, sp: sp, ..*old(gb) }, Gameboy { pc: ret, ..*final(gb) }, sp, ret)
        },
{
    let addr = gb.read_short_inc_pc();
    if taken {
        let ghost mid = *gb;
        gb.push_short(gb.pc);
        proof {
            let s = Gameboy { sp: mid.sp.wrapping_sub(2), cycles_pending: mid.cycles_pending, ..mid };
            lemma_short_keeps_control(s, *gb, mid.sp.wrapping_sub(2), mid.pc);
        }
        let ghost pushed = *gb;
        gb.pc = addr;
        gb.cycles_pending = gb.cycles_pending + 4;
        proof {
            let ret = old(gb).pc.wrapping_add(2);
            let sp = old(gb).sp.wrapping_sub(2);
            let s = Gameboy { sp: mid.sp.wrapping_sub(2), cycles_pending: mid.cycles_pending, ..mid };
            assert(Gameboy { pc: ret, ..*gb } == Gameboy { cycles_pending: gb.cycles_pending, ..pushed });
            let m = choose|m: Gameboy| #![trigger s.cpu_written(&m, sp, low_byte(ret))]
                s.cpu_written(&m, sp, low_byte(ret)) && m.cpu_written(&pushed, sp.wrapping_add(1), high_byte(ret));
            assert((Gameboy { pc: ret, sp: sp, ..*old(gb) }).cpu_written(&m, sp, low_byte(ret)));
            assert(m.cpu_written(&Gameboy { pc: ret, ..*gb }, sp.wrapping_add(1), high_byte(ret)));
        }
    }
}

/// RET: PC is popped.
pub fn ret(gb: &mut Gameboy)
    requires
        ready(old(gb)),
    ensures
        step_ok(old(gb), final(gb)),
        moved(old(gb), final(gb), old(gb).reg, top16(old(gb)), old(gb).sp.wrapping_add(2), 12),
{
    gb.pc = gb.pop_short();
    gb.cycles_pending = gb.cycles_pending + 4;
}

/// RET cc: PC is popped when `taken`.
pub fn ret_cc(gb: &mut Gameboy, taken: bool)
    requires
        ready(old(gb)),
    ensures
        step_ok(old(gb), final(gb)),
        moved(
            old(gb),
            final(gb),
            old(gb).reg,
            if taken { top16(old(gb)) } else { old(gb).pc },
            if taken { old(gb).sp.wrapping_add(2) } else { old(gb).sp },
            if taken { 12 } else { 4 },
        ),
{
    gb.cycles_pending = gb.cycles_pending + 4;
    if taken {
        gb.pc = gb.pop_short();
    }
}

/// RETI: PC is popped and IME set at once.
pub fn reti(gb: &mut Gameboy)
    requires
        ready(old(gb)),
    ensures
        step_ok(old(gb), final(gb)),
        final(gb).ime,
        moved(&Gameboy { ime: true, ..*old(gb) }, final(gb), old(gb).reg, top16(old(gb)), old(gb).sp.wrapping_add(2), 12),
{
    gb.pc = gb.pop_short();
    gb.ime = true;
    gb.cycles_pending = gb.cycles_pending + 4;
}

/// RST n: the address of the next instruction is pushed and PC becomes bits 3-5 of the
/// opcode times 8.
pub fn rst_n(gb: &mut Gameboy, opcode: u8)
    requires
        ready(old(gb)),
    ensures
        step_ok(old(gb), final(gb)),
        final(gb).reg == old(gb).reg,
        final(gb).ime == old(gb).ime,
        final(gb).pc == (opcode & 0x38) as u16,
        final(gb).sp == old(gb).sp.wrapping_sub(2),
        final(gb).cycles_pending == old(gb).cycles_pending + 12,
        wrote_short(
            Gameboy { sp: old(gb).sp.wrapping_sub(2), ..*old(gb) },
            Gameboy { pc: old(gb).pc, ..*final(gb) },
            old(gb).sp.wrapping_sub(2),
            old(gb).pc,
        ),
{
    let target = opcode & 0x38;
    gb.push_short(gb.pc);
    let ghost pushed = *gb;
    proof {
        let s = Gameboy { sp: old(gb).sp.wrapping_sub(2), cycles_pending: old(gb).cycles_pending, ..*old(gb) };
        lemma_short_keeps_control(s, *gb, old(gb).sp.wrapping_sub(2), old(gb).pc);
    }
    gb.pc = target as u16;
    gb.cycles_pending = gb.cycles_pending + 4;
    proof {
        let sp = old(gb).sp.wrapping_sub(2);
        let v = old(gb).pc;
        let s = Gameboy { sp: sp, cycles_pending: old(gb).cycles_pending, ..*old(gb) };
        let m = choose|m: Gameboy| #![trigger s.cpu_written(&m, sp, low_byte(v))]
            s.cpu_written(&m, sp, low_byte(v)) && m.cpu_written(&pushed, sp.wrapping_add(1), high_byte(v));
        assert((Gameboy { sp: sp, ..*old(gb) }).cpu_written(&m, sp, low_byte(v)));
        assert(m.cpu_written(&Gameboy { pc: v, ..*gb }, sp.wrapping_add(1), high_byte(v)));
    }
}

/// JR e: PC moves by the signed byte after the opcode.
pub fn jr_i8(gb: &mut Gameboy)
    requires
        ready(old(gb)),
    ensures
        step_ok(old(gb), final(gb)),
        ({
            let next = old(gb).pc.wrapping_add(1);
            let e = old(gb).read_spec(old(gb).pc);
            moved(
                old(gb),
                final(gb),
                old(gb).reg,
                if true { rel_target(next, e) } else { next },
                old(gb).sp,
                if true { 8 } else { 4 },
            )
        }),
{
    let taken = true;
    jr_cond(gb, taken);
}

/// JR NZ, e.
pub fn jr_nz_i8(gb: &mut Gameboy)
    requires
        ready(old(gb)),
    ensures
        step_ok(old(gb), final(gb)),
        ({
            let next = old(gb).pc.wrapping_add(1);
            let e = old(gb).read_spec(old(gb).pc);
            moved(
                old(gb),
                final(gb),
                old(gb).reg,
                if !old(gb).reg.flag_z { rel_target(next, e) } else { next },
                old(gb).sp,
                if !old(gb).reg.flag_z { 8 } else { 4 },
            )
        }),
{
    let taken = !gb.reg.flag_z;
    jr_cond(gb, taken);
}

/// JR NC, e.
pub fn jr_nc_i8(gb: &mut Gameboy)
    requires
        ready(old(gb)),
    ensures
        step_ok(old(gb), final(gb)),
        ({
            let next = old(gb).pc.wrapping_add(1);
            let e = old(gb).read_spec(old(gb).pc);
            moved(
                old(gb),
                final(gb),
                old(gb).reg,
                if !old(gb).reg.flag_c { rel_target(next, e) } else { next },
                old(gb).sp,
                if !old(gb).reg.flag_c { 8 } else { 4 },
            )
        }),
{
    let taken = !gb.reg.flag_c;
    jr_cond(gb, taken);
}

/// JR Z, e.
pub fn jr_z_i8(gb: &mut Gameboy)
    requires
        ready(old(gb)),
    ensures
        step_ok(old(gb), final(gb)),
        ({
            let next = old(gb).pc.wrapping_add(1);
            let e = old(gb).read_spec(old(gb).pc);
            moved(
                old(gb),
                final(gb),
                old(gb).reg,
                if old(gb).reg.flag_z { rel_target(next, e) } else { next },
                old(gb).sp,
                if old(gb).reg.flag_z { 8 } else { 4 },
            )
        }),
{
    let taken = gb.reg.flag_z;
    jr_cond(gb, taken);
}

/// JR C, e.
pub fn jr_c_i8(gb: &mut Gameboy)
    requires
        ready(old(gb)),
    ensures
        step_ok(old(gb), final(gb)),
        ({
            let next = old(gb).pc.wrapping_add(1);
            let e = old(gb).read_spec(old(gb).pc);
            moved(
                old(gb),
                final(gb),
                old(gb).reg,
                if old(gb).reg.flag_c { rel_target(next, e) } else { next },
                old(gb).sp,
                if old(gb).reg.flag_c { 8 } else { 4 },
            )
        }),
{
    let taken = gb.reg.flag_c;
    jr_cond(gb, taken);
}

/// JP u16.
pub fn jp_u16(gb: &mut Gameboy)
    requires
        ready(old(gb)),
    ensures
        step_ok(old(gb), final(gb)),
        moved(
            old(gb),
            final(gb),
            old(gb).reg,
            if true { imm16(old(gb)) } else { old(gb).pc.wrapping_add(2) },
            old(gb).sp,
            if true { 12 } else { 8 },
        ),
{
    let taken = true;
    jp_cond(gb, taken);
}

/// JP NZ, u16.
pub fn jp_nz_u16(gb: &mut Gameboy)
    requires
        ready(old(gb)),
    ensures
        step_ok(old(gb), final(gb)),
        moved(
            old(gb),
            final(gb),
            old(gb).reg,
            if !old(gb).reg.flag_z { imm16(old(gb)) } else { old(gb).pc.wrapping_add(2) },
            old(gb).sp,
            if !old(gb).reg.flag_z { 12 } else { 8 },
        ),
{
    let taken = !gb.reg.flag_z;
    jp_cond(gb, taken);
}

/// JP NC, u16.
pub fn jp_nc_u16(gb: &mut Gameboy)
    requires
        ready(old(gb)),
    ensures
        step_ok(old(gb), final(gb)),
        moved(
            old(gb),
            final(gb),
            old(gb).reg,
            if !old(gb).reg.flag_c { imm16(old(gb)) } else { old(gb).pc.wrapping_add(2) },
            old(gb).sp,
            if !old(gb).reg.flag_c { 12 } else { 8 },
        ),
{
    let taken = !gb.reg.flag_c;
    jp_cond(gb, taken);
}

/// JP Z, u16.
pub fn jp_z_u16(gb: &mut Gameboy)
    requires
        ready(old(gb)),
    ensures
        step_ok(old(gb), final(gb)),
        moved(
            old(gb),
            final(gb),
            old(gb).reg,
            if old(gb).reg.flag_z { imm16(old(gb)) } else { old(gb).pc.wrapping_add(2) },
            old(gb).sp,
            if old(gb).reg.flag_z { 12 } else { 8 },
        ),
{
    let taken = gb.reg.flag_z;
    jp_cond(gb, taken);
}

/// JP C, u16.
pub fn jp_c_u16(gb: &mut Gameboy)
    requires
        ready(old(gb)),
    ensures
        step_ok(old(gb), final(gb)),
        moved(
            old(gb),
            final(gb),
            old(gb).reg,
            if old(gb).reg.flag_c { imm16(old(gb)) } else { old(gb).pc.wrapping_add(2) },
            old(gb).sp,
            if old(gb).reg.flag_c { 12 } else { 8 },
        ),
{
    let taken = gb.reg.flag_c;
    jp_cond(gb, taken);
}

/// CALL u16.
pub fn call_u16(gb: &mut Gameboy)
    requires
        ready(old(gb)),
    ensures
        step_ok(old(gb), final(gb)),
        final(gb).ime == old(gb).ime,
        final(gb).reg == old(gb).reg,
        !(true) ==> moved(old(gb), final(gb), old(gb).reg, old(gb).pc.wrapping_add(2), old(gb).sp, 8),
        true ==> {
            let ret = old(gb).pc.wrapping_add(2);
            let sp = old(gb).sp.wrapping_sub(2);
            &&& final(gb).pc == imm16(old(gb))
            &&& final(gb).sp == sp
            &&& final(gb).cycles_pending == old(gb).cycles_pending + 20
            &&& wrote_short(Gameboy { pc: ret, sp: sp, ..*old(gb) }, Gameboy { pc: ret, ..*final(gb) }, sp, ret)
        },
{
    let taken = true;
    call_cond(gb, taken);
}

/// CALL NZ, u16.
pub fn call_nz_u16(gb: &mut Gameboy)
    requires
        ready(old(gb)),
    ensures
        step_ok(old(gb), final(gb)),
        final(gb).ime == old(gb).ime,
        final(gb).reg == old(gb).reg,
        !(!old(gb).reg.flag_z) ==> moved(old(gb), final(gb), old(gb).reg, old(gb).pc.wrapping_add(2), old(gb).sp, 8),
        !old(gb).reg.flag_z ==> {
            let ret = old(gb).pc.wrapping_add(2);
            let sp = old(gb).sp.wrapping_sub(2);
            &&& final(gb).pc == imm16(old(gb))
            &&& final(gb).sp == sp
            &&& final(gb).cycles_pending == old(gb).cycles_pending + 20
            &&& wrote_short(Gameboy { pc: ret, sp: sp, ..*old(gb) }, Gameboy { pc: ret, ..*final(gb) }, sp, ret)
        },
{
    let taken = !gb.reg.flag_z;
    call_cond(gb, taken);
}

/// CALL NC, u16.
pub fn call_nc_u16(gb: &mut Gameboy)
    requires
        ready(old(gb)),
    ensures
        step_ok(old(gb), final(gb)),
        final(gb).ime == old(gb).ime,
        final(gb).reg == old(gb).reg,
        !(!old(gb).reg.flag_c) ==> moved(old(gb), final(gb), old(gb).reg, old(gb).pc.wrapping_add(2), old(gb).sp, 8),
        !old(gb).reg.flag_c ==> {
            let ret = old(gb).pc.wrapping_add(2);
            let sp = old(gb).sp.wrapping_sub(2);
            &&& final(gb).pc == imm16(old(gb))
            &&& final(gb).sp == sp
            &&& final(gb).cycles_pending == old(gb).cycles_pending + 20
            &&& wrote_short(Gameboy { pc: ret, sp: sp, ..*old(gb) }, Gameboy { pc: ret, ..*final(gb) }, sp, ret)
        },
{
    let taken = !gb.reg.flag_c;
    call_cond(gb, taken);
}

/// CALL Z, u16.
pub fn call_z_u16(gb: &mut Gameboy)
    requires
        ready(old(gb)),
    ensures
        step_ok(old(gb), final(gb)),
        final(gb).ime == old(gb).ime,
        final(gb).reg == old(gb).reg,
        !(old(gb).reg.flag_z) ==> moved(old(gb), final(gb), old(gb).reg, old(gb).pc.wrapping_add(2), old(gb).sp, 8),
        old(gb).reg.flag_z ==> {
            let ret = old(gb).pc.wrapping_add(2);
            let sp = old(gb).sp.wrapping_sub(2);
            &&& final(gb).pc == imm16(old(gb))
            &&& final(gb).sp == sp
            &&& final(gb).cycles_pending == old(gb).cycles_pending + 20
            &&& wrote_short(Gameboy { pc: ret, sp: sp, ..*old(gb) }, Gameboy { pc: ret, ..*final(gb) }, sp, ret)
        },
{
    let taken = gb.reg.flag_z;
    call_cond(gb, taken);
}

/// CALL C, u16.
pub fn call_c_u16(gb: &mut Gameboy)
    requires
        ready(old(gb)),
    ensures
        step_ok(old(gb), final(gb)),
        final(gb).ime == old(gb).ime,
        final(gb).reg == old(gb).reg,
        !(old(gb).reg.flag_c) ==> moved(old(gb), final(gb), old(gb).reg, old(gb).pc.wrapping_add(2), old(gb).sp, 8),
        old(gb).reg.flag_c ==> {
            let ret = old(gb).pc.wrapping_add(2);
            let sp = old(gb).sp.wrapping_sub(2);
            &&& final(gb).pc == imm16(old(gb))
            &&& final(gb).sp == sp
            &&& final(gb).cycles_pending == old(gb).cycles_pending + 20
            &&& wrote_short(Gameboy { pc: ret, sp: sp, ..*old(gb) }, Gameboy { pc: ret, ..*final(gb) }, sp, ret)
        },
{
    let taken = gb.reg.flag_c;
    call_cond(gb, taken);
}

/// RET NZ.
pub fn ret_nz(gb: &mut Gameboy)
    requires
        ready(old(gb)),
    ensures
        step_ok(old(gb), final(gb)),
        moved(
            old(gb),
            final(gb),
            old(gb).reg,
            if !old(gb).reg.flag_z { top16(old(gb)) } else { old(gb).pc },
            if !old(gb).reg.flag_z { old(gb).sp.wrapping_add(2) } else { old(gb).sp },
            if !old(gb).reg.flag_z { 12 } else { 4 },
        ),
{
    let taken = !gb.reg.flag_z;
    ret_cc(gb, taken);
}

/// RET NC.
pub fn ret_nc(gb: &mut Gameboy)
    requires
        ready(old(gb)),
    ensures
        step_ok(old(gb), final(gb)),
        moved(
            old(gb),
            final(gb),
            old(gb).reg,
            if !old(gb).reg.flag_c { top16(old(gb)) } else { old(gb).pc },
            if !old(gb).reg.flag_c { old(gb).sp.wrapping_add(2) } else { old(gb).sp },
            if !old(gb).reg.flag_c { 12 } else { 4 },
        ),
{
    let taken = !gb.reg.flag_c;
    ret_cc(gb, taken);
}

/// RET Z.
pub fn ret_z(gb: &mut Gameboy)
    requires
        ready(old(gb)),
    ensures
        step_ok(old(gb), final(gb)),
        moved(
            old(gb),
            final(gb),
            old(gb).reg,
            if old(gb).reg.flag_z { top16(old(gb)) } else { old(gb).pc },
            if old(gb).reg.flag_z { old(gb).sp.wrapping_add(2) } else { old(gb).sp },
            if old(gb).reg.flag_z { 12 } else { 4 },
        ),
{
    let taken = gb.reg.flag_z;
    ret_cc(gb, taken);
}

/// RET C.
pub fn ret_c(gb: &mut Gameboy)
    requires
        ready(old(gb)),
    ensures
        step_ok(old(gb), final(gb)),
        moved(
            old(gb),
            final(gb),
            old(gb).reg,
            if old(gb).reg.flag_c { top16(old(gb)) } else { old(gb).pc },
            if old(gb).reg.flag_c { old(gb).sp.wrapping_add(2) } else { old(gb).sp },
            if old(gb).reg.flag_c { 12 } else { 4 },
        ),
{
    let taken = gb.reg.flag_c;
    ret_cc(gb, taken);
}

} // verus!
