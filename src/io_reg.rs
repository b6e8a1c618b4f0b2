use vstd::prelude::*;

use crate::banked_memory::UNDEFINED_READ;
use crate::gameboy::{Gameboy, OtherState};
use crate::input::InputKey;
use crate::ppu::{LcdRegs, HBLANK_STAT_INT, LY_STAT_INT, OAM_STAT_INT, VBLANK_STAT_INT};
use crate::ppu::PPU;
use crate::registers::{high_byte, split};

verus! {

pub const JOYPAD_IO: u8 = 0x00;
pub const COUNTER_DIV: u8 = 0x04;
pub const COUNTER_TIMA: u8 = 0x05;
pub const COUNTER_TMA: u8 = 0x06;
pub const COUNTER_TAC: u8 = 0x07;
pub const INT_FLAG: u8 = 0x0f;
pub const PPU_LCDC: u8 = 0x40;
pub const PPU_LCD_STAT: u8 = 0x41;
pub const PPU_SCROLL_Y: u8 = 0x42;
pub const PPU_SCROLL_X: u8 = 0x43;
pub const PPU_LCD_Y: u8 = 0x44;
pub const PPU_LY_COMPARE: u8 = 0x45;
pub const OAM_DMA: u8 = 0x46;
pub const PPU_BGPAL: u8 = 0x47;
pub const PPU_OBP1: u8 = 0x48;
pub const PPU_OBP2: u8 = 0x49;
/// WY is at 0xFF4A and WX at 0xFF4B, as on the hardware; the two are deliberately not
/// swapped.
pub const PPU_WY: u8 = 0x4a;
pub const PPU_WX: u8 = 0x4b;
pub const BOOTROM_DISABLE: u8 = 0x50;

/// `x` with the bits of `mask` cleared when `pressed`: a pressed button reads as 0.
pub open spec fn press(x: u8, pressed: bool, mask: u8) -> u8 {
    if pressed {
        x & !mask
    } else {
        x
    }
}

/// The joypad register after the game writes `v` to select button rows. Bit 5 low selects
/// Start, Select, B and A; bit 4 low selects Down or Up, and Left or Right.
pub open spec fn joypad_value(v: u8, k: Seq<InputKey>) -> u8 {
    let base = (0xf | (v & 0x30)) as u8;
    let buttons = if v & 0x20 == 0 {
        press(
            press(
                press(press(base, k[0].currently_held, 0x8), k[1].currently_held, 0x4),
                k[2].currently_held,
                0x2,
            ),
            k[3].currently_held,
            0x1,
        )
    } else {
        base
    };
    if v & 0x10 == 0 {
        let vertical = if k[4].currently_held {
            buttons & !0x8u8
        } else if k[5].currently_held {
            buttons & !0x4u8
        } else {
            buttons
        };
        if k[6].currently_held {
            vertical & !0x2u8
        } else if k[7].currently_held {
            vertical & !0x1u8
        } else {
            vertical
        }
    } else {
        buttons
    }
}

/// Whether I/O offset `a` is a register of the PPU that the CPU can write.
pub open spec fn is_lcd_reg(a: u8) -> bool {
    a == PPU_LCDC || a == PPU_LCD_STAT || a == PPU_SCROLL_Y || a == PPU_SCROLL_X || a
        == PPU_LY_COMPARE || a == PPU_BGPAL || a == PPU_OBP1 || a == PPU_OBP2 || a == PPU_WY || a
        == PPU_WX
}

/// The LCD registers after a write of `v` to PPU register `a`.
pub open spec fn lcd_write(r: LcdRegs, a: u8, v: u8) -> LcdRegs {
    if a == PPU_LCDC {
        LcdRegs {
            ppu_enabled: v & 0x80 != 0,
            window_tilemap_offset: v & 0x40 != 0,
            window_enable: v & 0x20 != 0,
            bg_window_tiledata_offset: v & 0x10 != 0,
            bg_tilemap_offset: v & 0x08 != 0,
            obj_size_is_8x16: v & 0x04 != 0,
            obj_enable: v & 0x02 != 0,
            bg_window_priority: v & 0x01 != 0,
            ..r
        }
    } else if a == PPU_LCD_STAT {
        LcdRegs {
            ly_stat_int: v & LY_STAT_INT != 0,
            oam_stat_int: v & OAM_STAT_INT != 0,
            vblank_stat_int: v & VBLANK_STAT_INT != 0,
            hblank_stat_int: v & HBLANK_STAT_INT != 0,
            ..r
        }
    } else if a == PPU_SCROLL_Y {
        LcdRegs { scroll_y: v, ..r }
    } else if a == PPU_SCROLL_X {
        LcdRegs { scroll_x: v, ..r }
    } else if a == PPU_LY_COMPARE {
        LcdRegs { ly_compare: v, ..r }
    } else if a == PPU_BGPAL {
        LcdRegs { bg_palette: v, ..r }
    } else if a == PPU_OBP1 {
        LcdRegs { obp1_palette: v, ..r }
    } else if a == PPU_OBP2 {
        LcdRegs { obp2_palette: v, ..r }
    } else if a == PPU_WY {
        LcdRegs { window_y: v, ..r }
    } else {
        LcdRegs { window_x: v, ..r }
    }
}

/// What a read of I/O offset `addr` returns.
pub open spec fn io_read_spec(gb: &Gameboy, addr: u8) -> u8 {
    let os = gb.other_state;
    let r = gb.ppu.regs;
    if addr == JOYPAD_IO {
        os.joypad_io_state
    } else if addr == COUNTER_DIV {
        high_byte(os.counter_div)
    } else if addr == COUNTER_TIMA {
        os.counter_tima
    } else if addr == COUNTER_TMA {
        os.counter_tma
    } else if addr == COUNTER_TAC {
        os.counter_tac
    } else if addr == INT_FLAG {
        (0xe0 | os.int_flag) as u8
    } else if addr == PPU_LCDC {
        gb.ppu.lcdc()
    } else if addr == PPU_LCD_STAT {
        gb.ppu.stat()
    } else if addr == PPU_SCROLL_Y {
        r.scroll_y
    } else if addr == PPU_SCROLL_X {
        r.scroll_x
    } else if addr == PPU_LCD_Y {
        gb.ppu.current_y
    } else if addr == PPU_LY_COMPARE {
        r.ly_compare
    } else if addr == PPU_BGPAL {
        r.bg_palette
    } else if addr == PPU_OBP1 {
        r.obp1_palette
    } else if addr == PPU_OBP2 {
        r.obp2_palette
    } else if addr == PPU_WY {
        r.window_y
    } else if addr == PPU_WX {
        r.window_x
    } else if addr == BOOTROM_DISABLE {
        if os.bootrom_enabled {
            0
        } else {
            1
        }
    } else {
        UNDEFINED_READ
    }
}

/// How a write of `v` to I/O offset `addr` changes the machine.
pub open spec fn io_written(gb: &Gameboy, n: &Gameboy, addr: u8, v: u8) -> bool {
    let os = gb.other_state;
    &&& n.rom == gb.rom
    &&& n.wram == gb.wram
    &&& n.hram == gb.hram
    &&& if is_lcd_reg(addr) {
        &&& n.ppu.same_but_regs(&gb.ppu)
        &&& n.ppu.regs == lcd_write(gb.ppu.regs, addr, v)
        &&& n.other_state == os
    } else {
        &&& n.ppu == gb.ppu
        &&& n.other_state == state_after_write(os, addr, v)
    }
}

fn press_exec(x: u8, pressed: bool, mask: u8) -> (r: u8)
    ensures
        r == press(x, pressed, mask),
{
    if pressed {
        x & !mask
    } else {
        x
    }
}

fn joypad_exec(v: u8, k: &Vec<InputKey>) -> (r: u8)
    requires
        k@.len() == 8,
    ensures
        r == joypad_value(v, k@),
{
    let base: u8 = 0xf | (v & 0x30);
    let buttons = if v & 0x20 == 0 {
        press_exec(
            press_exec(
                press_exec(press_exec(base, k[0].currently_held, 0x8), k[1].currently_held, 0x4),
                k[2].currently_held,
                0x2,
            ),
            k[3].currently_held,
            0x1,
        )
    } else {
        base
    };
    if v & 0x10 == 0 {
        let vertical = if k[4].currently_held {
            buttons & !0x8u8
        } else if k[5].currently_held {
            buttons & !0x4u8
        } else {
            buttons
        };
        if k[6].currently_held {
            vertical & !0x2u8
        } else if k[7].currently_held {
            vertical & !0x1u8
        } else {
            vertical
        }
    } else {
        buttons
    }
}

pub fn read_byte(gb: &Gameboy, addr: u8) -> (r: u8)
    requires
        gb.wf(),
    ensures
        r == io_read_spec(gb, addr),
{
    let os = &gb.other_state;
    if addr == JOYPAD_IO {
        os.joypad_io_state
    } else if addr == COUNTER_DIV {
        split(os.counter_div).0
    } else if addr == COUNTER_TIMA {
        os.counter_tima
    } else if addr == COUNTER_TMA {
        os.counter_tma
    } else if addr == COUNTER_TAC {
        os.counter_tac
    } else if addr == INT_FLAG {
        0xe0 | os.int_flag
    } else if addr == PPU_LCDC {
        gb.ppu.get_lcdc()
    } else if addr == PPU_LCD_STAT {
        gb.ppu.get_stat()
    } else if addr == PPU_SCROLL_Y {
        gb.ppu.regs.scroll_y
    } else if addr == PPU_SCROLL_X {
        gb.ppu.regs.scroll_x
    } else if addr == PPU_LCD_Y {
        gb.ppu.get_current_y()
    } else if addr == PPU_LY_COMPARE {
        gb.ppu.get_ly_compare()
    } else if addr == PPU_BGPAL {
        gb.ppu.get_bgpal()
    } else if addr == PPU_OBP1 {
        gb.ppu.get_obp1()
    } else if addr == PPU_OBP2 {
        gb.ppu.get_obp2()
    } else if addr == PPU_WY {
        gb.ppu.regs.window_y
    } else if addr == PPU_WX {
        gb.ppu.regs.window_x
    } else if addr == BOOTROM_DISABLE {
        if os.bootrom_enabled {
            0
        } else {
            1
        }
    } else {
        UNDEFINED_READ
    }
}

/// The state that a write to a non-PPU I/O register leaves.
pub open spec fn state_after_write(os: OtherState, addr: u8, v: u8) -> OtherState {
    if addr == JOYPAD_IO {
        OtherState { joypad_io_state: joypad_value(v, os.input_keys@), ..os }
    } else if addr == COUNTER_DIV {
        OtherState { counter_div: 0, ..os }
    } else if addr == COUNTER_TIMA {
        OtherState { counter_tima: v, ..os }
    } else if addr == COUNTER_TMA {
        OtherState { counter_tma: v, ..os }
    } else if addr == COUNTER_TAC {
        OtherState { counter_tac: v, ..os }
    } else if addr == INT_FLAG {
        OtherState { int_flag: v & 0x1f, ..os }
    } else if addr == OAM_DMA {
        OtherState {
            oam_dma_running: true,
            oam_dma_start_addr: (v as int * 256) as u16,
            oam_dma_cur_addr: 0,
            ..os
        }
    } else if addr == BOOTROM_DISABLE && v & 1 == 1 {
        OtherState { bootrom_enabled: false, instrs_run: 0, ..os }
    } else {
        os
    }
}

fn lcd_write_exec(r: LcdRegs, a: u8, v: u8) -> (n: LcdRegs)
    requires
        is_lcd_reg(a),
    ensures
        n == lcd_write(r, a, v),
{
    if a == PPU_LCDC {
        LcdRegs {
            ppu_enabled: v & 0x80 != 0,
            window_tilemap_offset: v & 0x40 != 0,
            window_enable: v & 0x20 != 0,
            bg_window_tiledata_offset: v & 0x10 != 0,
            bg_tilemap_offset: v & 0x08 != 0,
            obj_size_is_8x16: v & 0x04 != 0,
            obj_enable: v & 0x02 != 0,
            bg_window_priority: v & 0x01 != 0,
            ..r
        }
    } else if a == PPU_LCD_STAT {
        LcdRegs {
            ly_stat_int: v & LY_STAT_INT != 0,
            oam_stat_int: v & OAM_STAT_INT != 0,
            vblank_stat_int: v & VBLANK_STAT_INT != 0,
            hblank_stat_int: v & HBLANK_STAT_INT != 0,
            ..r
        }
    } else if a == PPU_SCROLL_Y {
        LcdRegs { scroll_y: v, ..r }
    } else if a == PPU_SCROLL_X {
        LcdRegs { scroll_x: v, ..r }
    } else if a == PPU_LY_COMPARE {
        LcdRegs { ly_compare: v, ..r }
    } else if a == PPU_BGPAL {
        LcdRegs { bg_palette: v, ..r }
    } else if a == PPU_OBP1 {
        LcdRegs { obp1_palette: v, ..r }
    } else if a == PPU_OBP2 {
        LcdRegs { obp2_palette: v, ..r }
    } else if a == PPU_WY {
        LcdRegs { window_y: v, ..r }
    } else {
        LcdRegs { window_x: v, ..r }
    }
}

fn write_lcd_reg(ppu: &mut PPU, addr: u8, value: u8)
    requires
        old(ppu).wf(),
        is_lcd_reg(addr),
    ensures
        final(ppu).wf(),
        final(ppu).same_but_regs(old(ppu)),
        final(ppu).regs == lcd_write(old(ppu).regs, addr, value),
{
    ppu.regs = lcd_write_exec(ppu.regs, addr, value);
}

fn write_state_reg(os: &mut OtherState, addr: u8, value: u8)
    requires
        old(os).wf(),
    ensures
        final(os).wf(),
        *final(os) == state_after_write(*old(os), addr, value),
{
    if addr == JOYPAD_IO {
        let j = joypad_exec(value, &os.input_keys);
        os.joypad_io_state = j;
    } else if addr == COUNTER_DIV {
        os.counter_div = 0;
    } else if addr == COUNTER_TIMA {
        os.counter_tima = value;
    } else if addr == COUNTER_TMA {
        os.counter_tma = value;
    } else if addr == COUNTER_TAC {
        os.counter_tac = value;
    } else if addr == INT_FLAG {
        os.int_flag = value & 0x1f;
    } else if addr == OAM_DMA {
        os.oam_dma_running = true;
        os.oam_dma_start_addr = (value as u16) * 256;
        os.oam_dma_cur_addr = 0;
    } else if addr == BOOTROM_DISABLE {
        if value & 0x1 == 0x1 {
            os.bootrom_enabled = false;
            os.instrs_run = 0;
        }
    }
}

pub fn write_byte(gb: &mut Gameboy, addr: u8, value: u8)
    requires
        old(gb).wf(),
    ensures
        final(gb).wf(),
        final(gb).cycles_pending == old(gb).cycles_pending,
        final(gb).cpu_same(old(gb)),
        final(gb).books_same(old(gb)),
        final(gb).bootrom_data == old(gb).bootrom_data,
        io_written(old(gb), final(gb), addr, value),
{
    if is_lcd_reg_exec(addr) {
        write_lcd_reg(&mut gb.ppu, addr, value);
    } else {
        write_state_reg(&mut gb.other_state, addr, value);
    }
}

fn is_lcd_reg_exec(a: u8) -> (r: bool)
    ensures
        r == is_lcd_reg(a),
{
    a == PPU_LCDC || a == PPU_LCD_STAT || a == PPU_SCROLL_Y || a == PPU_SCROLL_X || a
        == PPU_LY_COMPARE || a == PPU_BGPAL || a == PPU_OBP1 || a == PPU_OBP2 || a == PPU_WY || a
        == PPU_WX
}

} // verus!
