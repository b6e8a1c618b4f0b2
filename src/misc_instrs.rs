use vstd::prelude::*;

use crate::gameboy::{Gameboy, OtherState};
use crate::instr_common::{moved, ready, step_ok};
use crate::registers::Registers;

verus! {

/// DI: IME is cleared at once.
pub fn di(gb: &mut Gameboy)
    requires
        ready(old(gb)),
    ensures
        step_ok(old(gb), final(gb)),
        !final(gb).ime,
        moved(&Gameboy { ime: false, ..*old(gb) }, final(gb), old(gb).reg, old(gb).pc, old(gb).sp, 0),
{
    gb.ime = false;
}

/// EI: IME will be set at the start of the next step.
pub fn ei(gb: &mut Gameboy)
    requires
        ready(old(gb)),
    ensures
        final(gb).wf(),
        final(gb).other_state == (OtherState { ime_next_cycle: true, ..old(gb).other_state }),
        final(gb).cpu_same(old(gb)),
        final(gb).books_same(old(gb)),
        final(gb).cycles_pending == old(gb).cycles_pending,
        final(gb).ppu == old(gb).ppu,
        final(gb).rom == old(gb).rom,
        final(gb).wram == old(gb).wram,
        final(gb).hram == old(gb).hram,
        final(gb).bootrom_data == old(gb).bootrom_data,
{
    gb.other_state.ime_next_cycle = true;
}

/// HALT: fetching stops until an interrupt is pending.
pub fn halt(gb: &mut Gameboy)
    requires
        ready(old(gb)),
    ensures
        final(gb).wf(),
        final(gb).other_state == (OtherState { halted: true, ..old(gb).other_state }),
        final(gb).cpu_same(old(gb)),
        final(gb).books_same(old(gb)),
        final(gb).cycles_pending == old(gb).cycles_pending,
        final(gb).ppu == old(gb).ppu,
        final(gb).rom == old(gb).rom,
        final(gb).wram == old(gb).wram,
        final(gb).hram == old(gb).hram,
        final(gb).bootrom_data == old(gb).bootrom_data,
{
    gb.other_state.halted = true;
}

/// SCF: C set, N and H cleared.
pub fn scf(gb: &mut Gameboy)
    requires
        ready(old(gb)),
    ensures
        step_ok(old(gb), final(gb)),
        moved(old(gb), final(gb), Registers { flag_n: false, flag_h: false, flag_c: true, ..old(gb).reg }, old(gb).pc, old(gb).sp, 0),
{
    gb.reg = Registers { flag_n: false, flag_h: false, flag_c: true, ..gb.reg };
}

/// CCF: C complemented, N and H cleared.
pub fn ccf(gb: &mut Gameboy)
    requires
        ready(old(gb)),
    ensures
        step_ok(old(gb), final(gb)),
        moved(old(gb), final(gb), Registers { flag_n: false, flag_h: false, flag_c: !old(gb).reg.flag_c, ..old(gb).reg }, old(gb).pc, old(gb).sp, 0),
{
    gb.reg = Registers { flag_n: false, flag_h: false, flag_c: !gb.reg.flag_c, ..gb.reg };
}

} // verus!
