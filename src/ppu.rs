use vstd::prelude::*;

use crate::banked_memory::{BankedMemory, UNDEFINED_READ};
use crate::gameboy::SystemType;
use vstd::arithmetic::div_mod::{lemma_fundamental_div_mod_converse, lemma_small_mod};

verus! {

pub const GB_SCREEN_WIDTH: usize = 160;
pub const GB_SCREEN_HEIGHT: usize = 144;
pub const SCREEN_PIXELS: usize = 23040;
pub const VBLANK_LINES: usize = 10;
pub const OAM_SCAN_DOTS: u64 = 80;
pub const PIXEL_PUT_MIN_DOTS: u64 = 172;
pub const HBLANK_MAX_DOTS: u64 = 204;
pub const LINE_TOTAL_DOTS: u64 = 456;
pub const FRAME_DOTS: u64 = 70224;
/// The dot at which vertical blank begins: the start of line 144.
pub const VBLANK_START: u64 = 65664;
pub const SPRITE_EXTRA_DOTS: u16 = 6;
pub const MAX_SPRITES_PER_LINE: u16 = 10;
pub const OAM_SIZE: usize = 0xa0;
pub const VRAM_SIZE: u16 = 0x2000;

pub const INT_VBLANK: u8 = 0x1;
pub const INT_STAT: u8 = 0x2;

pub const LY_STAT_INT: u8 = 0x40;
pub const OAM_STAT_INT: u8 = 0x20;
pub const VBLANK_STAT_INT: u8 = 0x10;
pub const HBLANK_STAT_INT: u8 = 0x8;

/// The four shades of the screen.
#[derive(Clone, Copy, Debug, PartialEq, Eq, Structural)]
pub enum Color {
    Black,
    DGray,
    LGray,
    White,
}

/// The packed 0x00RRGGBB value of a shade.
pub open spec fn rgb_of(c: Color) -> u32 {
    match c {
        Color::Black => 0x00000000,
        Color::DGray => 0x00555555,
        Color::LGray => 0x00AAAAAA,
        Color::White => 0x00FFFFFF,
    }
}

/// The shade that a two-bit palette code names.
pub open spec fn color_of(code: u8) -> Color {
    if code == 0 {
        Color::White
    } else if code == 1 {
        Color::LGray
    } else if code == 2 {
        Color::DGray
    } else {
        Color::Black
    }
}

impl Color {
    pub fn rgb(&self) -> (r: u32)
        ensures
            r == rgb_of(*self),
    {
        match self {
            Color::Black => 0x00000000,
            Color::DGray => 0x00555555,
            Color::LGray => 0x00AAAAAA,
            Color::White => 0x00FFFFFF,
        }
    }

    pub fn from_shade(code: u8) -> (r: Color)
        ensures
            r == color_of(code),
    {
        if code == 0 {
            Color::White
        } else if code == 1 {
            Color::LGray
        } else if code == 2 {
            Color::DGray
        } else {
            Color::Black
        }
    }
}

/// The four phases of a scanline, in the order they run.
#[derive(Clone, Copy, Debug, PartialEq, Eq, Structural)]
pub enum PPUMode {
    HBlank,
    VBlank,
    OAMScan,
    PixelPut,
}

/// The mode number that STAT reports.
pub open spec fn mode_number(m: PPUMode) -> u8 {
    match m {
        PPUMode::HBlank => 0,
        PPUMode::VBlank => 1,
        PPUMode::OAMScan => 2,
        PPUMode::PixelPut => 3,
    }
}

/// The shade that entry `i` of palette register `pal` selects.
pub open spec fn palette_color(pal: u8, i: u8) -> Color {
    color_of((pal >> (2 * i) as u8) & 3)
}

/// The LCDC register from its eight flags, the enable bit highest.
pub open spec fn bits8(b7: bool, b6: bool, b5: bool, b4: bool, b3: bool, b2: bool, b1: bool, b0: bool) -> u8 {
    ((if b7 { 0x80u8 } else { 0u8 }) | (if b6 { 0x40u8 } else { 0u8 }) | (if b5 { 0x20u8 } else {
        0u8
    }) | (if b4 { 0x10u8 } else { 0u8 }) | (if b3 { 0x08u8 } else { 0u8 }) | (if b2 { 0x04u8 } else {
        0u8
    }) | (if b1 { 0x02u8 } else { 0u8 }) | (if b0 { 0x01u8 } else { 0u8 })) as u8
}

/// The LCD registers that the CPU reads and writes.
#[derive(Clone, Copy)]
pub struct LcdRegs {
    pub ppu_enabled: bool,
    pub window_tilemap_offset: bool,
    pub window_enable: bool,
    pub bg_window_tiledata_offset: bool,
    pub bg_tilemap_offset: bool,
    pub obj_size_is_8x16: bool,
    pub obj_enable: bool,
    pub bg_window_priority: bool,
    pub scroll_x: u8,
    pub scroll_y: u8,
    pub bg_palette: u8,
    pub obp1_palette: u8,
    pub obp2_palette: u8,
    pub ly_stat_int: bool,
    pub oam_stat_int: bool,
    pub hblank_stat_int: bool,
    pub vblank_stat_int: bool,
    pub ly_compare: u8,
    pub dbg_tiledata_bg_swap: bool,
    pub dbg_tilemap_bg_swap: bool,
    pub dbg_tiledata_win_swap: bool,
    pub dbg_tilemap_win_swap: bool,
    pub dbg_win_toggle: bool,
    pub window_x: u8,
    pub window_y: u8,
}

/// The pixel-processing unit: video memory, object memory, the LCD registers, the scanline
/// state machine and the frame being drawn.
pub struct PPU {
    pub vram: BankedMemory,
    pub oam: Vec<u8>,
    pub screen: Vec<u32>,
    pub current_y: u8,
    pub current_window_y: u8,
    pub current_mode_cycles: u64,
    pub mode_3_extra_dots: u16,
    pub current_mode: PPUMode,
    pub regs: LcdRegs,
}

impl PPU {
    /// How many dots the current mode lasts.
    pub open spec fn mode_limit(&self) -> int {
        match self.current_mode {
            PPUMode::OAMScan => OAM_SCAN_DOTS as int,
            PPUMode::PixelPut => PIXEL_PUT_MIN_DOTS + self.mode_3_extra_dots,
            PPUMode::HBlank => HBLANK_MAX_DOTS - self.mode_3_extra_dots,
            PPUMode::VBlank => LINE_TOTAL_DOTS as int,
        }
    }

    /// The dot of the frame the PPU has reached, counted from the start of line 0.
    pub open spec fn frame_pos(&self) -> int {
        let line_start = self.current_y as int * LINE_TOTAL_DOTS as int;
        let cnt = self.current_mode_cycles as int;
        match self.current_mode {
            PPUMode::OAMScan => line_start + cnt,
            PPUMode::PixelPut => line_start + OAM_SCAN_DOTS + cnt,
            PPUMode::HBlank => line_start + OAM_SCAN_DOTS + PIXEL_PUT_MIN_DOTS
                + self.mode_3_extra_dots + cnt,
            PPUMode::VBlank => line_start + cnt,
        }
    }

    /// The line agrees with the mode.
    pub open spec fn line_wf(&self) -> bool {
        &&& self.mode_3_extra_dots <= 60
        &&& if self.current_mode == PPUMode::VBlank {
            144 <= self.current_y < 154
        } else {
            self.current_y < 144
        }
    }

    /// The line and mode agree, and the dot counter lies inside the current mode.
    pub open spec fn timing_wf(&self) -> bool {
        &&& self.line_wf()
        &&& self.current_mode_cycles < self.mode_limit()
    }

    /// Everything but the dot counter is well formed.
    pub open spec fn wf_loose(&self) -> bool {
        &&& self.vram.wf()
        &&& self.vram.size() == VRAM_SIZE
        &&& self.vram.count() == 1
        &&& !self.vram.is_read_only()
        &&& self.oam@.len() == OAM_SIZE
        &&& self.screen@.len() == SCREEN_PIXELS
        &&& self.line_wf()
    }

    pub open spec fn wf(&self) -> bool {
        &&& self.wf_loose()
        &&& self.current_mode_cycles < self.mode_limit()
    }

    pub open spec fn lcdc(&self) -> u8 {
        bits8(
            self.regs.ppu_enabled,
            self.regs.window_tilemap_offset,
            self.regs.window_enable,
            self.regs.bg_window_tiledata_offset,
            self.regs.bg_tilemap_offset,
            self.regs.obj_size_is_8x16,
            self.regs.obj_enable,
            self.regs.bg_window_priority,
        )
    }

    pub open spec fn stat(&self) -> u8 {
        (bits8(
            false,
            self.regs.ly_stat_int,
            self.regs.oam_stat_int,
            self.regs.vblank_stat_int,
            self.regs.hblank_stat_int,
            self.current_y == self.regs.ly_compare,
            false,
            false,
        ) | mode_number(self.current_mode)) as u8
    }

    /// What the CPU reads from video memory: nothing while pixels are being put out.
    pub open spec fn vram_read(&self, addr: u16) -> u8 {
        if self.current_mode == PPUMode::PixelPut {
            UNDEFINED_READ
        } else {
            self.vram.read_spec(addr)
        }
    }

    /// Whether the CPU can reach object memory: not during OAM scan or pixel output.
    pub open spec fn oam_open(&self) -> bool {
        self.current_mode != PPUMode::PixelPut && self.current_mode != PPUMode::OAMScan
    }

    pub open spec fn oam_read(&self, addr: u16) -> u8 {
        if self.oam_open() && addr < OAM_SIZE {
            self.oam@[addr as int]
        } else {
            UNDEFINED_READ
        }
    }
}


/// The two-bit colour code of pixel `i` (0 is leftmost) of a tile row stored as two bit planes.
pub open spec fn tile_pixel(lo: u8, hi: u8, i: int) -> u8 {
    (((lo >> (7 - i) as u8) & 1) | (((hi >> (7 - i) as u8) & 1) << 1u8)) as u8
}

/// Whether OAM entry `i` covers line `y`.
pub open spec fn sprite_on_line(oam: Seq<u8>, i: int, y: u8, tall: bool) -> bool {
    let line = ((16 + y as int - oam[4 * i] as int) % 256) as u8;
    line < if tall { 16u8 } else { 8u8 }
}

/// How many of the first `n` OAM entries cover line `y`.
pub open spec fn sprites_on_line(oam: Seq<u8>, n: int, y: u8, tall: bool) -> int
    decreases n,
{
    if n <= 0 {
        0
    } else {
        sprites_on_line(oam, n - 1, y, tall) + if sprite_on_line(oam, n - 1, y, tall) {
            1int
        } else {
            0
        }
    }
}

proof fn lemma_count_nonneg(oam: Seq<u8>, n: int, y: u8, tall: bool)
    ensures
        sprites_on_line(oam, n, y, tall) >= 0,
    decreases n,
{
    if n > 0 {
        lemma_count_nonneg(oam, n - 1, y, tall);
    }
}

proof fn lemma_or_keeps(x: u8, k: u8)
    requires
        k == INT_VBLANK || k == INT_STAT,
    ensures
        (x | k) & x == x,
        (x | k) | 3 == x | 3,
{
    assert((x | k) & x == x && (x | k) | 3 == x | 3) by (bit_vector)
        requires
            k == 1 || k == 2,
    ;
}

proof fn lemma_bit_set(x: u8, k: u8)
    requires
        k == INT_VBLANK || k == INT_STAT,
    ensures
        (x | k) & k == k,
{
    assert((x | k) & k == k) by (bit_vector)
        requires
            k == 1 || k == 2,
    ;
}

proof fn lemma_bit_stays(a: u8, b: u8, k: u8)
    requires
        k == INT_VBLANK || k == INT_STAT,
        a & k == k,
        b & a == a,
    ensures
        b & k == k,
{
    assert(b & k == k) by (bit_vector)
        requires
            k == 1 || k == 2,
            a & k == k,
            b & a == a,
    ;
}

proof fn lemma_flags_same(x: u8)
    ensures
        x & x == x,
        x | 3 == x | 3,
{
    assert(x & x == x) by (bit_vector);
}

proof fn lemma_or_chain(a: u8, b: u8, c: u8)
    requires
        b & a == a,
        b | 3 == a | 3,
        c & b == b,
        c | 3 == b | 3,
    ensures
        c & a == a,
        c | 3 == a | 3,
{
    assert(c & a == a && c | 3 == a | 3) by (bit_vector)
        requires
            b & a == a,
            b | 3 == a | 3,
            c & b == b,
            c | 3 == b | 3,
    ;
}

/// Sets interrupt bit `k` in the flag register.
fn raise(int_flag: &mut u8, k: u8)
    requires
        k == INT_VBLANK || k == INT_STAT,
    ensures
        *final(int_flag) == *old(int_flag) | k,
        *final(int_flag) & *old(int_flag) == *old(int_flag),
        *final(int_flag) | 3 == *old(int_flag) | 3,
{
    proof {
        lemma_or_keeps(*int_flag, k);
    }
    *int_flag = *int_flag | k;
}

impl PPU {
    /// Both are at the same point of the scanline state machine.
    pub open spec fn same_timing(&self, other: &PPU) -> bool {
        &&& self.current_y == other.current_y
        &&& self.current_window_y == other.current_window_y
        &&& self.current_mode_cycles == other.current_mode_cycles
        &&& self.mode_3_extra_dots == other.mode_3_extra_dots
        &&& self.current_mode == other.current_mode
    }

    /// Both agree on everything but the LCD registers.
    pub open spec fn same_but_regs(&self, other: &PPU) -> bool {
        &&& self.vram == other.vram
        &&& self.oam == other.oam
        &&& self.screen == other.screen
        &&& self.same_timing(other)
    }

    pub fn new(system_type: SystemType) -> (r: PPU)
        ensures
            r.wf(),
            !r.regs.ppu_enabled,
            r.current_mode == PPUMode::OAMScan,
            r.current_y == 0,
            r.current_mode_cycles == 0,
            r.frame_pos() == 0,
            r.lcdc() == 0,
            r.stat() == 0x06,
            r.regs.ly_compare == 0,
            !r.regs.ly_stat_int && !r.regs.oam_stat_int && !r.regs.vblank_stat_int && !r.regs.hblank_stat_int,
            r.regs.scroll_x == 0 && r.regs.scroll_y == 0 && r.regs.window_x == 0 && r.regs.window_y == 0,
            forall|i: int| 0 <= i < SCREEN_PIXELS ==> r.screen@[i] == 0,
            forall|i: int| 0 <= i < VRAM_SIZE ==> r.vram.data()[i] == 0,
            forall|i: int| 0 <= i < OAM_SIZE ==> r.oam@[i] == 0,
            r.regs.bg_palette == 0xe4,
            r.regs.obp1_palette == 0xe4,
            r.regs.obp2_palette == 0xe4,
    {
        match system_type {
            SystemType::DMG => {
                let r = PPU {
                    vram: BankedMemory::new_empty(false, 1, VRAM_SIZE, false, String::from_str("dmg vram")),
                    oam: vec![0u8; OAM_SIZE],
                    screen: vec![0u32; SCREEN_PIXELS],
                    current_y: 0,
                    current_window_y: 0,
                    current_mode_cycles: 0,
                    mode_3_extra_dots: 0,
                    current_mode: PPUMode::OAMScan,
                    regs: LcdRegs {
                        ppu_enabled: false,
                        window_tilemap_offset: false,
                        window_enable: false,
                        bg_window_tiledata_offset: false,
                        bg_tilemap_offset: false,
                        obj_size_is_8x16: false,
                        obj_enable: false,
                        bg_window_priority: false,
                        scroll_x: 0,
                        scroll_y: 0,
                        bg_palette: 0xe4,
                        obp1_palette: 0xe4,
                        obp2_palette: 0xe4,
                        ly_stat_int: false,
                        oam_stat_int: false,
                        hblank_stat_int: false,
                        vblank_stat_int: false,
                        ly_compare: 0,
                        dbg_tiledata_bg_swap: false,
                        dbg_tilemap_bg_swap: false,
                        dbg_tiledata_win_swap: false,
                        dbg_tilemap_win_swap: false,
                        dbg_win_toggle: false,
                        window_x: 0,
                        window_y: 0,
                    },
                };
                assert(r.stat() == 0x06) by {
                    assert(((0u8 | 0u8 | 0u8 | 0u8 | 0u8 | 0x04u8 | 0u8 | 0u8) | 2u8) == 0x06u8) by (bit_vector);
                }
                assert(r.lcdc() == 0) by {
                    assert(bits8(false, false, false, false, false, false, false, false) == 0) by {
                        assert((0u8 | 0u8 | 0u8 | 0u8 | 0u8 | 0u8 | 0u8 | 0u8) == 0u8) by (bit_vector);
                    }
                }
                r
            },
        }
    }

    pub fn get_lcdc(&self) -> (r: u8)
        ensures
            r == self.lcdc(),
    {
        let b7: u8 = if self.regs.ppu_enabled { 0x80 } else { 0 };
        let b6: u8 = if self.regs.window_tilemap_offset { 0x40 } else { 0 };
        let b5: u8 = if self.regs.window_enable { 0x20 } else { 0 };
        let b4: u8 = if self.regs.bg_window_tiledata_offset { 0x10 } else { 0 };
        let b3: u8 = if self.regs.bg_tilemap_offset { 0x08 } else { 0 };
        let b2: u8 = if self.regs.obj_size_is_8x16 { 0x04 } else { 0 };
        let b1: u8 = if self.regs.obj_enable { 0x02 } else { 0 };
        let b0: u8 = if self.regs.bg_window_priority { 0x01 } else { 0 };
        b7 | b6 | b5 | b4 | b3 | b2 | b1 | b0
    }

    pub fn set_lcdc(&mut self, value: u8)
        requires
            old(self).wf(),
        ensures
            final(self).wf(),
            final(self).lcdc() == value,
            final(self).same_but_regs(old(self)),
            final(self).regs == (LcdRegs {
                ppu_enabled: value & 0x80 != 0,
                window_tilemap_offset: value & 0x40 != 0,
                window_enable: value & 0x20 != 0,
                bg_window_tiledata_offset: value & 0x10 != 0,
                bg_tilemap_offset: value & 0x08 != 0,
                obj_size_is_8x16: value & 0x04 != 0,
                obj_enable: value & 0x02 != 0,
                bg_window_priority: value & 0x01 != 0,
                ..old(self).regs
            }),
    {
        self.regs = LcdRegs {
            ppu_enabled: value & 0x80 != 0,
            window_tilemap_offset: value & 0x40 != 0,
            window_enable: value & 0x20 != 0,
            bg_window_tiledata_offset: value & 0x10 != 0,
            bg_tilemap_offset: value & 0x08 != 0,
            obj_size_is_8x16: value & 0x04 != 0,
            obj_enable: value & 0x02 != 0,
            bg_window_priority: value & 0x01 != 0,
            ..self.regs
        };
        proof {
            law_lcdc_round_trip(*old(self), *self, value);
        }
    }

    pub fn get_current_y(&self) -> (r: u8)
        ensures
            r == self.current_y,
    {
        self.current_y
    }

    pub fn get_bgpal(&self) -> (r: u8)
        ensures
            r == self.regs.bg_palette,
    {
        self.regs.bg_palette
    }

    pub fn get_obp1(&self) -> (r: u8)
        ensures
            r == self.regs.obp1_palette,
    {
        self.regs.obp1_palette
    }

    pub fn get_obp2(&self) -> (r: u8)
        ensures
            r == self.regs.obp2_palette,
    {
        self.regs.obp2_palette
    }

    pub fn set_bgpal(&mut self, value: u8)
        ensures
            final(self).same_but_regs(old(self)),
            final(self).regs == (LcdRegs { bg_palette: value, ..old(self).regs }),
    {
        self.regs.bg_palette = value;
    }

    pub fn set_obp1(&mut self, value: u8)
        ensures
            final(self).same_but_regs(old(self)),
            final(self).regs == (LcdRegs { obp1_palette: value, ..old(self).regs }),
    {
        self.regs.obp1_palette = value;
    }

    pub fn set_obp2(&mut self, value: u8)
        ensures
            final(self).same_but_regs(old(self)),
            final(self).regs == (LcdRegs { obp2_palette: value, ..old(self).regs }),
    {
        self.regs.obp2_palette = value;
    }

    pub fn get_stat(&self) -> (r: u8)
        ensures
            r == self.stat(),
    {
        let b6: u8 = if self.regs.ly_stat_int { 0x40 } else { 0 };
        let b5: u8 = if self.regs.oam_stat_int { 0x20 } else { 0 };
        let b4: u8 = if self.regs.vblank_stat_int { 0x10 } else { 0 };
        let b3: u8 = if self.regs.hblank_stat_int { 0x08 } else { 0 };
        let b2: u8 = if self.current_y == self.regs.ly_compare { 0x04 } else { 0 };
        let mode: u8 = match self.current_mode {
            PPUMode::HBlank => 0,
            PPUMode::VBlank => 1,
            PPUMode::OAMScan => 2,
            PPUMode::PixelPut => 3,
        };
        (0u8 | b6 | b5 | b4 | b3 | b2 | 0u8 | 0u8) | mode
    }

    pub fn set_stat(&mut self, value: u8)
        ensures
            final(self).same_but_regs(old(self)),
            final(self).regs == (LcdRegs {
                ly_stat_int: value & LY_STAT_INT != 0,
                oam_stat_int: value & OAM_STAT_INT != 0,
                vblank_stat_int: value & VBLANK_STAT_INT != 0,
                hblank_stat_int: value & HBLANK_STAT_INT != 0,
                ..old(self).regs
            }),
    {
        self.regs = LcdRegs {
            ly_stat_int: value & LY_STAT_INT != 0,
            oam_stat_int: value & OAM_STAT_INT != 0,
            vblank_stat_int: value & VBLANK_STAT_INT != 0,
            hblank_stat_int: value & HBLANK_STAT_INT != 0,
            ..self.regs
        };
    }

    pub fn get_ly_compare(&self) -> (r: u8)
        ensures
            r == self.regs.ly_compare,
    {
        self.regs.ly_compare
    }

    pub fn set_ly_compare(&mut self, value: u8)
        ensures
            final(self).same_but_regs(old(self)),
            final(self).regs == (LcdRegs { ly_compare: value, ..old(self).regs }),
    {
        self.regs.ly_compare = value;
    }

    pub fn read_vram_byte(&self, addr: u16) -> (r: u8)
        requires
            self.wf(),
        ensures
            r == self.vram_read(addr),
    {
        if self.current_mode != PPUMode::PixelPut {
            self.vram.read_byte(addr)
        } else {
            UNDEFINED_READ
        }
    }

    pub fn write_vram_byte(&mut self, addr: u16, value: u8)
        requires
            old(self).wf(),
        ensures
            final(self).wf(),
            final(self).vram.same_shape(&old(self).vram),
            final(self).vram.bank() == old(self).vram.bank(),
            final(self).vram.data() == if old(self).current_mode == PPUMode::PixelPut {
                old(self).vram.data()
            } else {
                old(self).vram.data_after_write(addr, value)
            },
            final(self).regs == old(self).regs,
            final(self).oam == old(self).oam,
            final(self).screen == old(self).screen,
            final(self).same_timing(old(self)),
    {
        if self.current_mode != PPUMode::PixelPut {
            self.vram.write_byte(addr, value);
        }
    }

    pub fn read_oam_byte(&self, addr: u16) -> (r: u8)
        requires
            self.wf(),
        ensures
            r == self.oam_read(addr),
    {
        if self.current_mode != PPUMode::PixelPut && self.current_mode != PPUMode::OAMScan
            && (addr as usize) < OAM_SIZE {
            self.oam[addr as usize]
        } else {
            UNDEFINED_READ
        }
    }

    pub fn write_oam_byte(&mut self, addr: u16, value: u8)
        requires
            old(self).wf(),
        ensures
            final(self).wf(),
            final(self).oam@ == if old(self).oam_open() && addr < OAM_SIZE {
                old(self).oam@.update(addr as int, value)
            } else {
                old(self).oam@
            },
            final(self).regs == old(self).regs,
            final(self).vram == old(self).vram,
            final(self).screen == old(self).screen,
            final(self).same_timing(old(self)),
    {
        let open = self.current_mode != PPUMode::PixelPut && self.current_mode != PPUMode::OAMScan;
        if open && addr < 0xa0 {
            self.write_oam_byte_raw(addr, value);
        }
    }

    /// Writes an OAM byte whatever the mode: the path of the DMA engine.
    pub fn write_oam_byte_raw(&mut self, addr: u16, value: u8)
        requires
            old(self).wf(),
            addr < OAM_SIZE,
        ensures
            final(self).wf(),
            final(self).oam@ == old(self).oam@.update(addr as int, value),
            final(self).regs == old(self).regs,
            final(self).vram == old(self).vram,
            final(self).screen == old(self).screen,
            final(self).same_timing(old(self)),
    {
        self.oam.set(addr as usize, value);
    }

    pub fn is_enabled(&self) -> (r: bool)
        ensures
            r == self.regs.ppu_enabled,
    {
        self.regs.ppu_enabled
    }
}


/// A copy of the frame.
fn copy_screen(screen: &Vec<u32>) -> (r: Vec<u32>)
    ensures
        r@ == screen@,
{
    let mut r: Vec<u32> = Vec::new();
    let mut i: usize = 0;
    while i < screen.len()
        invariant
            i <= screen@.len(),
            r@ =~= screen@.subrange(0, i as int),
        decreases screen@.len() - i,
    {
        r.push(screen[i]);
        i = i + 1;
    }
    assert(r@ =~= screen@);
    r
}

/// The packed colour of entry `idx` of palette register `pal`.
fn palette_rgb(pal: u8, idx: u8) -> (r: u32)
    requires
        idx < 4,
    ensures
        r == rgb_of(palette_color(pal, idx)),
{
    Color::from_shade((pal >> (2 * idx)) & 3).rgb()
}

/// The colour code of pixel `i` of a tile row given as its two bit planes.
fn row_pixel(lo: u8, hi: u8, i: u8) -> (r: u8)
    requires
        i < 8,
    ensures
        r == tile_pixel(lo, hi, i as int),
        r < 4,
{
    let sh: u8 = 7 - i;
    let r = ((lo >> sh) & 1) | (((hi >> sh) & 1) << 1u8);
    assert(r < 4) by (bit_vector)
        requires
            r == ((lo >> sh) & 1) | (((hi >> sh) & 1) << 1u8),
    ;
    r
}

/// The video-memory offset of row `row` of tile `idx`: tiles count up from 0x0000, or, in
/// signed addressing, tiles 0-127 sit at 0x1000 and 128-255 at 0x0800.
pub open spec fn tile_data_offset(idx: u8, row: int, signed: bool) -> u16 {
    let base = idx * 16 + row * 2;
    (if signed && base + 0x1000 < 0x1800 {
        base + 0x1000
    } else {
        base
    }) as u16
}

/// Where the tile-map row of layer line `ly` starts, for the background or the window.
pub open spec fn layer_map_base(p: &PPU, window: bool, ly: u8) -> int {
    let r = p.regs;
    (ly / 8) * 32 + 0x1800 + if ((window && r.window_tilemap_offset) ^ r.dbg_tilemap_win_swap) || ((
    !window && r.bg_tilemap_offset) ^ r.dbg_tilemap_bg_swap) {
        0x400int
    } else {
        0
    }
}

/// Whether the layer's tiles use signed addressing.
pub open spec fn layer_signed(p: &PPU, window: bool) -> bool {
    (!p.regs.bg_window_tiledata_offset) ^ (if window {
        p.regs.dbg_tiledata_win_swap
    } else {
        p.regs.dbg_tiledata_bg_swap
    })
}

/// The colour of screen column `col` of layer line `ly`, when the layer's x at column 0 is
/// `sx`.
pub open spec fn layer_pixel(p: &PPU, window: bool, sx: u8, ly: u8, col: int) -> u32 {
    let bx = col + sx;
    let idx = p.vram.read_spec((layer_map_base(p, window, ly) + (bx / 8) % 32) as u16);
    let off = tile_data_offset(idx, (ly % 8) as int, layer_signed(p, window));
    bg_rgb(
        p.regs.bg_palette,
        p.regs.bg_window_priority,
        tile_pixel(p.vram.read_spec(off), p.vram.read_spec(off.wrapping_add(1)), bx % 8),
    )
}

/// Column `col` of the current line from the background and window alone: the window
/// where it is enabled and has reached this line, else the background.
pub open spec fn line_pixel(p: &PPU, col: int) -> u32 {
    if (p.regs.window_enable ^ p.regs.dbg_win_toggle) && p.current_y >= p.regs.window_y {
        layer_pixel(p, true, p.regs.window_x.wrapping_sub(7), p.current_window_y, col)
    } else {
        layer_pixel(p, false, p.regs.scroll_x, p.current_y.wrapping_add(p.regs.scroll_y), col)
    }
}

/// `screen` is `p`'s screen with its current line drawn: the background and window line,
/// then, with sprites on, the sprite pass over it; other lines stay.
pub open spec fn line_rendered(p: &PPU, screen: Seq<u32>) -> bool {
    &&& screen.len() == SCREEN_PIXELS
    &&& forall|i: int|
        0 <= i < SCREEN_PIXELS && !on_row(i, p.current_y as int) ==> screen[i] == p.screen@[i]
    &&& !p.regs.obj_enable ==> forall|col: int|
        0 <= col < 160 ==> screen[p.current_y * 160 + col] == line_pixel(p, col)
    &&& p.regs.obj_enable ==> exists|m: PPU|
        #![trigger sprite_pass(&m, 40)]
        m.vram == p.vram && m.oam == p.oam && m.regs == p.regs && m.current_y == p.current_y
            && m.screen@.len() == SCREEN_PIXELS && (forall|col: int|
            0 <= col < 160 ==> m.screen@[p.current_y * 160 + col] == line_pixel(p, col)) && (forall|i: int|
            0 <= i < SCREEN_PIXELS && !on_row(i, p.current_y as int) ==> m.screen@[i] == p.screen@[i])
            && screen == sprite_pass(&m, 40)
}

/// Drawing the line depends only on memories, registers, the line, the window line and the
/// screen.
proof fn lemma_line_rendered_same(a: PPU, b: PPU, screen: Seq<u32>)
    requires
        line_rendered(&a, screen),
        a.vram == b.vram,
        a.oam == b.oam,
        a.regs == b.regs,
        a.current_y == b.current_y,
        a.current_window_y == b.current_window_y,
        a.screen == b.screen,
    ensures
        line_rendered(&b, screen),
{
    assert forall|col: int| #![trigger line_pixel(&b, col)] line_pixel(&a, col) == line_pixel(&b, col) by {}
    if b.regs.obj_enable {
        let m = choose|m: PPU|
            #![trigger sprite_pass(&m, 40)]
            m.vram == a.vram && m.oam == a.oam && m.regs == a.regs && m.current_y == a.current_y
                && m.screen@.len() == SCREEN_PIXELS && (forall|col: int|
                0 <= col < 160 ==> m.screen@[a.current_y * 160 + col] == line_pixel(&a, col)) && (forall|i: int|
                0 <= i < SCREEN_PIXELS && !on_row(i, a.current_y as int) ==> m.screen@[i] == a.screen@[i])
                && screen == sprite_pass(&m, 40);
        assert forall|col: int| 0 <= col < 160 implies m.screen@[b.current_y * 160 + col] == line_pixel(&b, col) by {
            assert(line_pixel(&a, col) == line_pixel(&b, col));
        }
    }
}

/// Whether screen index `i` lies on line `y`.
pub open spec fn on_row(i: int, y: int) -> bool {
    y * 160 <= i < y * 160 + 160
}

/// The packed colour of a background or window pixel with colour code `code`: through
/// the palette, or white while background priority is off.
pub open spec fn bg_rgb(palette: u8, priority: bool, code: u8) -> u32 {
    if priority {
        rgb_of(palette_color(palette, code))
    } else {
        rgb_of(Color::White)
    }
}

/// Writes one row of a background or window tile: pixel `j` goes to `put + j - x_fine`
/// when that lands on the line starting at `line_offset`.
fn draw_tile_row(
    screen: &mut Vec<u32>,
    put: u16,
    x_fine: u8,
    line_offset: u16,
    lo: u8,
    hi: u8,
    palette: u8,
    priority: bool,
)
    requires
        old(screen)@.len() == SCREEN_PIXELS,
        line_offset as int % 160 == 0,
        line_offset < SCREEN_PIXELS,
        put < 0xff00,
    ensures
        final(screen)@.len() == SCREEN_PIXELS,
        forall|j: int|
            0 <= j < 8 && x_fine <= put + j && line_offset <= put + j - x_fine < line_offset + 160
                ==> final(screen)@[put + j - x_fine] == bg_rgb(palette, priority, tile_pixel(lo, hi, j)),
        forall|i: int|
            0 <= i < SCREEN_PIXELS && (i < put - x_fine || i >= put + 8 - x_fine || !(line_offset <= i
                < line_offset + 160)) ==> final(screen)@[i] == old(screen)@[i],
{
    let mut x: u8 = 0;
    while x < 8
        invariant
            x <= 8,
            screen@.len() == SCREEN_PIXELS,
            line_offset < SCREEN_PIXELS,
            line_offset as int % 160 == 0,
            put < 0xff00,
            forall|j: int|
                0 <= j < x && x_fine <= put + j && line_offset <= put + j - x_fine < line_offset + 160
                    ==> screen@[put + j - x_fine] == bg_rgb(palette, priority, tile_pixel(lo, hi, j)),
            forall|i: int|
                0 <= i < SCREEN_PIXELS && (i < put - x_fine || i >= put + x - x_fine || !(line_offset
                    <= i < line_offset + 160)) ==> screen@[i] == old(screen)@[i],
        decreases 8 - x,
    {
        let code = row_pixel(lo, hi, x);
        let color = if priority {
            palette_rgb(palette, code)
        } else {
            Color::White.rgb()
        };
        if x_fine as u16 <= put + x as u16 {
            let addr: usize = (put + x as u16 - x_fine as u16) as usize;
            if addr < SCREEN_PIXELS && addr >= line_offset as usize && addr < line_offset as usize
                + GB_SCREEN_WIDTH {
                screen.set(addr, color);
            }
        }
        x = x + 1;
    }
}

/// Screen index `k` after one sprite row is drawn over the value `old`: pixel `j` of the
/// row lands at column `x + j - 8` of the line starting at `line_offset` and is drawn
/// only when that column is on screen; colour code 0 is transparent.
pub open spec fn sprite_px(
    old: u32,
    k: int,
    line_offset: int,
    x: u8,
    lo: u8,
    hi: u8,
    x_flip: bool,
    palette: u8,
) -> u32 {
    let col = k - line_offset;
    let j = col + 8 - x;
    if 0 <= col < 160 && 0 <= j < 8 {
        let code = if x_flip {
            tile_pixel(lo, hi, 7 - j)
        } else {
            tile_pixel(lo, hi, j)
        };
        if code != 0 {
            rgb_of(palette_color(palette, code))
        } else {
            old
        }
    } else {
        old
    }
}

/// Writes the visible pixels of one sprite row, as `sprite_px` describes.
fn draw_sprite_row(
    screen: &mut Vec<u32>,
    line_offset: usize,
    x: u8,
    lo: u8,
    hi: u8,
    x_flip: bool,
    palette: u8,
)
    requires
        old(screen)@.len() == SCREEN_PIXELS,
        line_offset % 160 == 0,
        line_offset < SCREEN_PIXELS,
    ensures
        final(screen)@.len() == SCREEN_PIXELS,
        forall|k: int|
            0 <= k < SCREEN_PIXELS ==> final(screen)@[k] == sprite_px(
                old(screen)@[k],
                k,
                line_offset as int,
                x,
                lo,
                hi,
                x_flip,
                palette,
            ),
{
    let mut i: u8 = 0;
    while i < 8
        invariant
            i <= 8,
            screen@.len() == SCREEN_PIXELS,
            line_offset < SCREEN_PIXELS,
            line_offset % 160 == 0,
            forall|k: int|
                0 <= k < SCREEN_PIXELS ==> screen@[k] == if k - line_offset + 8 - x < i {
                    sprite_px(old(screen)@[k], k, line_offset as int, x, lo, hi, x_flip, palette)
                } else {
                    old(screen)@[k]
                },
        decreases 8 - i,
    {
        let col: u16 = x as u16 + i as u16;
        if col >= 8 && col < 168 {
            let code = if x_flip {
                row_pixel(lo, hi, 7 - i)
            } else {
                row_pixel(lo, hi, i)
            };
            if code != 0 {
                let color = palette_rgb(palette, code);
                screen.set(line_offset + (col - 8) as usize, color);
            }
        }
        i = i + 1;
    }
}

/// The address of the tile row that OAM entry `i` shows on the current line, Y flip
/// applied.
pub open spec fn sprite_row_addr(p: &PPU, i: int) -> u16 {
    let oam = p.oam@;
    let line = ((16 + p.current_y as int - oam[4 * i] as int) % 256) as u8;
    let height: int = if p.regs.obj_size_is_8x16 { 16 } else { 8 };
    let row = if oam[4 * i + 3] & 0x40 != 0 { height - 1 - line } else { line as int };
    (oam[4 * i + 2] * 16 + row * 2) as u16
}

/// The screen after OAM entry `i` is drawn over `screen` on the current line: X position,
/// X flip and palette (OBP2 when attribute bit 4 is set, else OBP1) come from the entry.
pub open spec fn draw_entry(p: &PPU, screen: Seq<u32>, i: int) -> Seq<u32> {
    let oam = p.oam@;
    let addr = sprite_row_addr(p, i);
    let attribs = oam[4 * i + 3];
    let palette = if attribs & 0x10 != 0 { p.regs.obp2_palette } else { p.regs.obp1_palette };
    Seq::new(
        screen.len(),
        |k: int|
            sprite_px(
                screen[k],
                k,
                p.current_y * 160,
                oam[4 * i + 1],
                p.vram.read_spec(addr),
                p.vram.read_spec(addr.wrapping_add(1)),
                attribs & 0x20 != 0,
                palette,
            ),
    )
}

/// The screen after the first `n` OAM entries are considered in order: an entry that
/// covers the current line is drawn while fewer than ten have been.
pub open spec fn sprite_pass(p: &PPU, n: int) -> Seq<u32>
    decreases n,
{
    if n <= 0 {
        p.screen@
    } else {
        let prev = sprite_pass(p, n - 1);
        if sprite_on_line(p.oam@, n - 1, p.current_y, p.regs.obj_size_is_8x16) && sprites_on_line(
            p.oam@,
            n - 1,
            p.current_y,
            p.regs.obj_size_is_8x16,
        ) < 10 {
            draw_entry(p, prev, n - 1)
        } else {
            prev
        }
    }
}

proof fn lemma_count_mono(oam: Seq<u8>, a: int, b: int, y: u8, tall: bool)
    requires
        0 <= a <= b,
    ensures
        sprites_on_line(oam, a, y, tall) <= sprites_on_line(oam, b, y, tall),
    decreases b - a,
{
    if a < b {
        lemma_count_mono(oam, a, b - 1, y, tall);
    }
}

/// Once ten entries covering the line have been seen, later entries change nothing.
proof fn lemma_pass_full(p: &PPU, a: int, b: int)
    requires
        0 <= a <= b,
        sprites_on_line(p.oam@, a, p.current_y, p.regs.obj_size_is_8x16) >= 10,
    ensures
        sprite_pass(p, b) == sprite_pass(p, a),
    decreases b - a,
{
    if a < b {
        lemma_pass_full(p, a, b - 1);
        lemma_count_mono(p.oam@, a, b - 1, p.current_y, p.regs.obj_size_is_8x16);
    }
}

impl PPU {
    /// The two bit planes of the tile row that starts at `tile_addr` in video memory.
    fn tile_row(&self, tile_addr: u16) -> (r: (u8, u8))
        requires
            self.wf_loose(),
        ensures
            r.0 == self.vram.read_spec(tile_addr),
            r.1 == self.vram.read_spec(tile_addr.wrapping_add(1)),
    {
        (self.vram.read_byte(tile_addr), self.vram.read_byte(tile_addr.wrapping_add(1)))
    }

    /// The eight colour codes of the tile row that starts at `tile_addr`, leftmost first.
    pub fn get_tile_line_pixels(&self, tile_addr: u16) -> (r: Vec<u8>)
        requires
            self.wf_loose(),
        ensures
            r@.len() == 8,
            forall|i: int|
                0 <= i < 8 ==> r@[i] == tile_pixel(
                    self.vram.read_spec(tile_addr),
                    self.vram.read_spec(tile_addr.wrapping_add(1)),
                    i,
                ),
    {
        let (lo, hi) = self.tile_row(tile_addr);
        let mut r: Vec<u8> = Vec::new();
        let mut i: u8 = 0;
        while i < 8
            invariant
                i <= 8,
                r@.len() == i,
                forall|j: int| 0 <= j < i ==> r@[j] == tile_pixel(lo, hi, j),
            decreases 8 - i,
        {
            r.push(row_pixel(lo, hi, i));
            i = i + 1;
        }
        r
    }

    /// How many OAM entries cover the current line, at most ten.
    fn count_line_sprites(&self) -> (r: u16)
        requires
            self.wf_loose(),
        ensures
            r <= MAX_SPRITES_PER_LINE,
            r == if sprites_on_line(self.oam@, 40, self.current_y, self.regs.obj_size_is_8x16) > 10 {
                10
            } else {
                sprites_on_line(self.oam@, 40, self.current_y, self.regs.obj_size_is_8x16)
            },
    {
        let height: u8 = if self.regs.obj_size_is_8x16 { 16 } else { 8 };
        let mut n: u16 = 0;
        let mut i: usize = 0;
        while i < 40
            invariant
                i <= 40,
                self.oam@.len() == OAM_SIZE,
                height == if self.regs.obj_size_is_8x16 { 16u8 } else { 8u8 },
                n == if sprites_on_line(self.oam@, i as int, self.current_y, self.regs.obj_size_is_8x16) > 10 {
                    10
                } else {
                    sprites_on_line(self.oam@, i as int, self.current_y, self.regs.obj_size_is_8x16)
                },
            decreases 40 - i,
        {
            let line: u8 = 16u8.wrapping_add(self.current_y).wrapping_sub(self.oam[4 * i]);
            assert(line == ((16 + self.current_y as int - self.oam@[4 * i as int] as int) % 256) as u8);
            if line < height && n < MAX_SPRITES_PER_LINE {
                n = n + 1;
            }
            i = i + 1;
        }
        n
    }

    /// Draws one line of a layer onto the current screen line: `sx` is the layer's x at
    /// column 0 and `ly` its line.
    fn draw_layer(&mut self, window: bool, sx: u8, ly: u8)
        requires
            old(self).wf_loose(),
            old(self).current_y < 144,
        ensures
            final(self).wf_loose(),
            final(self).vram == old(self).vram,
            final(self).oam == old(self).oam,
            final(self).regs == old(self).regs,
            final(self).same_timing(old(self)),
            forall|i: int|
                0 <= i < SCREEN_PIXELS && !on_row(i, old(self).current_y as int) ==> final(self).screen@[i]
                    == old(self).screen@[i],
            forall|col: int|
                0 <= col < 160 ==> final(self).screen@[old(self).current_y * 160 + col] == layer_pixel(
                    old(self),
                    window,
                    sx,
                    ly,
                    col,
                ),
    {
        let line_offset: u16 = self.current_y as u16 * 160;
        let x_fine: u8 = sx % 8;
        let y_in_tile: u16 = (ly % 8) as u16;
        let mut map_base: u16 = (ly / 8) as u16 * 32 + 0x1800;
        if (window && self.regs.window_tilemap_offset) ^ self.regs.dbg_tilemap_win_swap {
            map_base = map_base + 0x400;
        } else if (!window && self.regs.bg_tilemap_offset) ^ self.regs.dbg_tilemap_bg_swap {
            map_base = map_base + 0x400;
        }
        let data_swap = if window {
            self.regs.dbg_tiledata_win_swap
        } else {
            self.regs.dbg_tiledata_bg_swap
        };
        let signed_data = (!self.regs.bg_window_tiledata_offset) ^ data_swap;
        let palette = self.regs.bg_palette;
        let priority = self.regs.bg_window_priority;
        let mut put: u16 = line_offset;
        let mut x_tile: u16 = (sx / 8) as u16;
        let x_end: u16 = (sx as u16 + 168) / 8;
        let ghost before = *self;
        assert(map_base == layer_map_base(&before, window, ly));
        while x_tile < x_end
            invariant
                self.wf_loose(),
                self.vram == before.vram,
                self.oam == before.oam,
                self.regs == before.regs,
                self.same_timing(&before),
                before.wf_loose(),
                line_offset == self.current_y as int * 160,
                self.current_y < 144,
                x_end == (sx + 168) / 8,
                x_fine == sx % 8,
                put == line_offset + 8 * (x_tile - sx / 8),
                sx / 8 <= x_tile <= x_end,
                map_base == layer_map_base(&before, window, ly),
                y_in_tile == ly % 8,
                signed_data == layer_signed(&before, window),
                palette == before.regs.bg_palette,
                priority == before.regs.bg_window_priority,
                forall|i: int|
                    0 <= i < SCREEN_PIXELS && !on_row(i, self.current_y as int) ==> self.screen@[i]
                        == before.screen@[i],
                forall|col: int|
                    0 <= col < 160 && col + sx < 8 * x_tile ==> self.screen@[line_offset + col]
                        == layer_pixel(&before, window, sx, ly, col),
            decreases x_end - x_tile,
        {
            let col: u16 = x_tile & 0x1f;
            assert(col == x_tile % 32) by (bit_vector)
                requires
                    col == x_tile & 0x1f,
            ;
            let tile_idx: u8 = self.vram.read_byte(map_base + col);
            let mut data_off: u16 = tile_idx as u16 * 16 + y_in_tile * 2;
            if signed_data {
                data_off = data_off + 0x1000;
                if data_off >= 0x1800 {
                    data_off = data_off - 0x1000;
                }
            }
            assert(data_off == tile_data_offset(tile_idx, (ly % 8) as int, signed_data));
            let (lo, hi) = self.tile_row(data_off);
            draw_tile_row(&mut self.screen, put, x_fine, line_offset, lo, hi, palette, priority);
            assert forall|c: int|
                0 <= c < 160 && c + sx < 8 * (x_tile + 1) implies self.screen@[line_offset + c]
                    == layer_pixel(&before, window, sx, ly, c) by {
                if c + sx >= 8 * x_tile {
                    let j = c + sx - 8 * x_tile;
                    assert(put + j - x_fine == line_offset + c);
                    assert((c + sx) / 8 == x_tile);
                    assert((c + sx) % 8 == j);
                } else {
                    assert(line_offset + c < put - x_fine);
                }
            }
            put = put + 8;
            x_tile = x_tile + 1;
        }
        assert(8 * x_tile > sx + 159);
    }

    /// Draws the background, or the window, on the current line. The window is drawn only
    /// from line WY down, and counts its own lines.
    pub fn render_tiles(&mut self, render_window: bool)
        requires
            old(self).wf_loose(),
            old(self).current_y < 144,
        ensures
            final(self).wf_loose(),
            final(self).vram == old(self).vram,
            final(self).oam == old(self).oam,
            final(self).regs == old(self).regs,
            final(self).current_y == old(self).current_y,
            final(self).current_mode_cycles == old(self).current_mode_cycles,
            final(self).mode_3_extra_dots == old(self).mode_3_extra_dots,
            final(self).current_mode == old(self).current_mode,
            !render_window ==> final(self).current_window_y == old(self).current_window_y,
            forall|i: int|
                0 <= i < SCREEN_PIXELS && !on_row(i, old(self).current_y as int) ==> final(self).screen@[i]
                    == old(self).screen@[i],
            !render_window ==> forall|col: int|
                0 <= col < 160 ==> final(self).screen@[old(self).current_y * 160 + col] == layer_pixel(
                    old(self),
                    false,
                    old(self).regs.scroll_x,
                    old(self).current_y.wrapping_add(old(self).regs.scroll_y),
                    col,
                ),
            render_window && old(self).current_y < old(self).regs.window_y ==> {
                &&& final(self).screen == old(self).screen
                &&& final(self).current_window_y == old(self).current_window_y
            },
            render_window && old(self).current_y >= old(self).regs.window_y ==> {
                &&& final(self).current_window_y == old(self).current_window_y.wrapping_add(1)
                &&& forall|col: int|
                    0 <= col < 160 ==> final(self).screen@[old(self).current_y * 160 + col] == layer_pixel(
                        old(self),
                        true,
                        old(self).regs.window_x.wrapping_sub(7),
                        old(self).current_window_y,
                        col,
                    )
            },
    {
        if render_window {
            if self.current_y < self.regs.window_y {
                return;
            }
            let sx = self.regs.window_x.wrapping_sub(7);
            let ly = self.current_window_y;
            self.current_window_y = self.current_window_y.wrapping_add(1);
            let ghost mid = *self;
            self.draw_layer(true, sx, ly);
            assert forall|col: int| 0 <= col < 160 implies #[trigger] self.screen@[old(self).current_y * 160
                + col] == layer_pixel(old(self), true, sx, ly, col) by {
                assert(mid.vram == old(self).vram && mid.regs == old(self).regs);
                assert(layer_pixel(&mid, true, sx, ly, col) == layer_pixel(old(self), true, sx, ly, col));
            }
        } else {
            let sx = self.regs.scroll_x;
            let ly = self.current_y.wrapping_add(self.regs.scroll_y);
            self.draw_layer(false, sx, ly);
        }
    }

    /// Draws the sprites that cover the current line, at most ten of them, in OAM order;
    /// a later sprite's opaque pixels cover an earlier one's.
    pub fn render_sprites(&mut self)
        requires
            old(self).wf_loose(),
            old(self).current_y < 144,
        ensures
            final(self).wf_loose(),
            final(self).vram == old(self).vram,
            final(self).oam == old(self).oam,
            final(self).regs == old(self).regs,
            final(self).same_timing(old(self)),
            final(self).screen@ == sprite_pass(old(self), 40),
            forall|i: int|
                0 <= i < SCREEN_PIXELS && !on_row(i, old(self).current_y as int) ==> final(self).screen@[i]
                    == old(self).screen@[i],
    {
        let tall = self.regs.obj_size_is_8x16;
        let height: u8 = if tall { 16 } else { 8 };
        let line_offset: usize = self.current_y as usize * GB_SCREEN_WIDTH;
        let mut drawn: u16 = 0;
        let mut idx: usize = 0;
        let ghost before = *self;
        while idx < 40 && drawn < MAX_SPRITES_PER_LINE
            invariant
                idx <= 40,
                self.wf_loose(),
                self.vram == before.vram,
                self.oam == before.oam,
                self.regs == before.regs,
                self.same_timing(&before),
                self.current_y < 144,
                line_offset == self.current_y as int * 160,
                height == if tall { 16u8 } else { 8u8 },
                tall == self.regs.obj_size_is_8x16,
                self.screen@ == sprite_pass(&before, idx as int),
                forall|i: int|
                    0 <= i < SCREEN_PIXELS && !on_row(i, self.current_y as int) ==> self.screen@[i]
                        == before.screen@[i],
                before == *old(self),
                drawn == if sprites_on_line(before.oam@, idx as int, before.current_y, tall) > 10 {
                    10
                } else {
                    sprites_on_line(before.oam@, idx as int, before.current_y, tall)
                },
            decreases 40 - idx,
        {
            let sprite_y = self.oam[4 * idx];
            let sprite_x = self.oam[4 * idx + 1];
            let tile = self.oam[4 * idx + 2];
            let attribs = self.oam[4 * idx + 3];
            let y_flip = attribs & 0x40 != 0;
            let x_flip = attribs & 0x20 != 0;
            let palette = if attribs & 0x10 != 0 {
                self.regs.obp2_palette
            } else {
                self.regs.obp1_palette
            };
            let line: u8 = 16u8.wrapping_add(self.current_y).wrapping_sub(sprite_y);
            assert(line == ((16 + self.current_y as int - self.oam@[4 * idx as int] as int) % 256) as u8);
            proof {
                lemma_count_nonneg(before.oam@, idx as int, before.current_y, tall);
            }
            if line < height {
                let row: u16 = if y_flip {
                    (height - 1 - line) as u16
                } else {
                    line as u16
                };
                let addr: u16 = tile as u16 * 16 + row * 2;
                assert(addr == sprite_row_addr(&before, idx as int));
                let (lo, hi) = self.tile_row(addr);
                let ghost prev = self.screen@;
                draw_sprite_row(&mut self.screen, line_offset, sprite_x, lo, hi, x_flip, palette);
                assert(self.screen@ =~= draw_entry(&before, prev, idx as int));
                drawn = drawn + 1;
            }
            idx = idx + 1;
        }
        proof {
            if idx < 40 {
                lemma_pass_full(&before, idx as int, 40);
            }
        }
    }

    /// Draws the current line: background, then window, then sprites.
    pub fn render_line(&mut self)
        requires
            old(self).wf_loose(),
            old(self).current_y < 144,
        ensures
            final(self).wf_loose(),
            final(self).vram == old(self).vram,
            final(self).oam == old(self).oam,
            final(self).regs == old(self).regs,
            final(self).current_y == old(self).current_y,
            final(self).current_mode_cycles == old(self).current_mode_cycles,
            final(self).mode_3_extra_dots == old(self).mode_3_extra_dots,
            final(self).current_mode == old(self).current_mode,
            line_rendered(old(self), final(self).screen@),
    {
        self.render_tiles(false);
        let ghost mid = *self;
        if self.regs.window_enable ^ self.regs.dbg_win_toggle {
            self.render_tiles(true);
        }
        let ghost y = old(self).current_y;
        proof {
            assert forall|col: int| 0 <= col < 160 implies #[trigger] self.screen@[y * 160 + col] == line_pixel(old(self), col) by {
                assert(mid.screen@[y * 160 + col] == layer_pixel(old(self), false, old(self).regs.scroll_x, y.wrapping_add(old(self).regs.scroll_y), col));
                if (old(self).regs.window_enable ^ old(self).regs.dbg_win_toggle) && y >= old(self).regs.window_y {
                    assert(mid.vram == old(self).vram && mid.regs == old(self).regs);
                    assert(layer_pixel(&mid, true, mid.regs.window_x.wrapping_sub(7), mid.current_window_y, col)
                        == layer_pixel(old(self), true, old(self).regs.window_x.wrapping_sub(7), old(self).current_window_y, col));
                }
            }
        }
        let ghost tiles_done = *self;
        if self.regs.obj_enable {
            self.render_sprites();
            assert(sprite_pass(&tiles_done, 40) == self.screen@);
        }
    }
}


impl PPU {
    fn mode_dots(&self) -> (r: u64)
        requires
            self.line_wf(),
        ensures
            r == self.mode_limit(),
            r >= OAM_SCAN_DOTS,
    {
        match self.current_mode {
            PPUMode::OAMScan => OAM_SCAN_DOTS,
            PPUMode::PixelPut => PIXEL_PUT_MIN_DOTS + self.mode_3_extra_dots as u64,
            PPUMode::HBlank => HBLANK_MAX_DOTS - self.mode_3_extra_dots as u64,
            PPUMode::VBlank => LINE_TOTAL_DOTS,
        }
    }

    /// Raises STAT when the line has just become equal to LYC and that source is enabled.
    fn check_ly_compare(&self, int_flag: &mut u8)
        ensures
            *final(int_flag) & *old(int_flag) == *old(int_flag),
            *final(int_flag) | 3 == *old(int_flag) | 3,
            self.current_y == self.regs.ly_compare && self.regs.ly_stat_int ==> *final(int_flag)
                & INT_STAT == INT_STAT,
    {
        proof {
            lemma_flags_same(*int_flag);
        }
        if self.current_y == self.regs.ly_compare && self.regs.ly_stat_int {
            proof {
                lemma_bit_set(*int_flag, INT_STAT);
            }
            raise(int_flag, INT_STAT);
        }
    }

    /// Ends the current mode, whose dots have all been counted, and enters the next one.
    /// Returns whether the frame was completed.
    fn advance_mode(&mut self, int_flag: &mut u8) -> (wrapped: bool)
        requires
            old(self).wf_loose(),
            old(self).current_mode_cycles >= old(self).mode_limit(),
        ensures
            final(self).wf_loose(),
            final(self).current_mode_cycles == old(self).current_mode_cycles - old(self).mode_limit(),
            final(self).frame_pos() == old(self).frame_pos() - if wrapped {
                FRAME_DOTS as int
            } else {
                0
            },
            final(self).vram == old(self).vram,
            final(self).oam == old(self).oam,
            final(self).regs == old(self).regs,
            *final(int_flag) & *old(int_flag) == *old(int_flag),
            *final(int_flag) | 3 == *old(int_flag) | 3,
            old(self).current_mode == PPUMode::HBlank && old(self).current_y == 143 ==> *final(int_flag)
                & INT_VBLANK == INT_VBLANK,
            old(self).current_mode == PPUMode::HBlank && old(self).current_y == 143
                && old(self).regs.vblank_stat_int ==> *final(int_flag) & INT_STAT == INT_STAT,
            final(self).screen == old(self).screen || old(self).current_mode == PPUMode::PixelPut,
            old(self).current_mode == PPUMode::PixelPut ==> line_rendered(old(self), final(self).screen@),
            (old(self).current_mode == PPUMode::HBlank || old(self).current_mode == PPUMode::VBlank)
                && !wrapped ==> final(self).current_y == old(self).current_y + 1,
            wrapped && old(self).regs.oam_stat_int ==> *final(int_flag) & INT_STAT == INT_STAT,
            old(self).current_mode == PPUMode::PixelPut && old(self).regs.hblank_stat_int
                ==> *final(int_flag) & INT_STAT == INT_STAT,
            (old(self).current_mode == PPUMode::HBlank || old(self).current_mode == PPUMode::VBlank)
                && final(self).current_y == old(self).regs.ly_compare && old(self).regs.ly_stat_int
                ==> *final(int_flag) & INT_STAT == INT_STAT,
            old(self).current_mode == PPUMode::OAMScan ==> final(self).mode_3_extra_dots == if old(
                self,
            ).regs.obj_enable {
                SPRITE_EXTRA_DOTS * if sprites_on_line(old(self).oam@, 40, old(self).current_y, old(self).regs.obj_size_is_8x16) > 10 {
                    10
                } else {
                    sprites_on_line(old(self).oam@, 40, old(self).current_y, old(self).regs.obj_size_is_8x16)
                }
            } else {
                0
            },
    {
        let ghost flag0 = *int_flag;
        proof {
            lemma_flags_same(flag0);
        }
        let limit = self.mode_dots();
        self.current_mode_cycles = self.current_mode_cycles - limit;
        match self.current_mode {
            PPUMode::OAMScan => {
                self.current_mode = PPUMode::PixelPut;
                self.mode_3_extra_dots = if self.regs.obj_enable {
                    SPRITE_EXTRA_DOTS * self.count_line_sprites()
                } else {
                    0
                };
                false
            },
            PPUMode::PixelPut => {
                self.current_mode = PPUMode::HBlank;
                let ghost at_render = *self;
                self.render_line();
                proof {
                    lemma_line_rendered_same(at_render, *old(self), self.screen@);
                }
                if self.regs.hblank_stat_int {
                    proof {
                        lemma_bit_set(*int_flag, INT_STAT);
                    }
                    raise(int_flag, INT_STAT);
                }
                false
            },
            PPUMode::HBlank => {
                self.current_y = self.current_y + 1;
                self.check_ly_compare(int_flag);
                let ghost flag1 = *int_flag;
                if self.current_y as usize >= GB_SCREEN_HEIGHT {
                    self.current_mode = PPUMode::VBlank;
                    self.current_window_y = 0;
                    raise(int_flag, INT_VBLANK);
                    let ghost flag2 = *int_flag;
                    proof {
                        lemma_or_chain(flag0, flag1, flag2);
                        lemma_bit_set(flag1, INT_VBLANK);
                        if flag1 & INT_STAT == INT_STAT {
                            lemma_bit_stays(flag1, flag2, INT_STAT);
                        }
                    }
                    if self.regs.vblank_stat_int {
                        raise(int_flag, INT_STAT);
                        proof {
                            lemma_or_chain(flag0, flag2, *int_flag);
                            lemma_bit_stays(flag2, *int_flag, INT_VBLANK);
                            lemma_bit_set(flag2, INT_STAT);
                        }
                    }
                } else {
                    self.current_mode = PPUMode::OAMScan;
                }
                false
            },
            PPUMode::VBlank => {
                self.current_y = self.current_y + 1;
                self.check_ly_compare(int_flag);
                if self.current_y as usize >= GB_SCREEN_HEIGHT + VBLANK_LINES {
                    let ghost flag1 = *int_flag;
                    self.current_mode = PPUMode::OAMScan;
                    self.current_y = 0;
                    self.check_ly_compare(int_flag);
                    let ghost flag2 = *int_flag;
                    proof {
                        lemma_or_chain(flag0, flag1, flag2);
                    }
                    if self.regs.oam_stat_int {
                        raise(int_flag, INT_STAT);
                        proof {
                            lemma_or_chain(flag0, flag2, *int_flag);
                            lemma_bit_set(flag2, INT_STAT);
                        }
                    }
                    true
                } else {
                    false
                }
            },
        }
    }

    /// Advances the scanline state machine by `cycles` dots. Returns the finished frame when
    /// the last line of vertical blank ends within them; a disabled PPU does nothing.
    pub fn run_cycles(&mut self, cycles: u32, int_flag: &mut u8) -> (r: Option<Vec<u32>>)
        requires
            old(self).wf(),
        ensures
            final(self).wf(),
            final(self).vram == old(self).vram,
            final(self).oam == old(self).oam,
            final(self).regs == old(self).regs,
            *final(int_flag) & *old(int_flag) == *old(int_flag),
            *final(int_flag) | 3 == *old(int_flag) | 3,
            !old(self).regs.ppu_enabled ==> {
                &&& r is None
                &&& final(self).same_timing(old(self))
                &&& final(self).screen == old(self).screen
                &&& *final(int_flag) == *old(int_flag)
            },
            old(self).regs.ppu_enabled ==> {
                &&& final(self).frame_pos() == (old(self).frame_pos() + cycles) % (FRAME_DOTS as int)
                &&& (r is Some <==> old(self).frame_pos() + cycles >= FRAME_DOTS)
            },
            old(self).regs.ppu_enabled && old(self).frame_pos() < VBLANK_START <= old(self).frame_pos()
                + cycles ==> *final(int_flag) & INT_VBLANK == INT_VBLANK,
            old(self).regs.ppu_enabled && old(self).regs.vblank_stat_int && old(self).frame_pos()
                < VBLANK_START <= old(self).frame_pos() + cycles ==> *final(int_flag) & INT_STAT == INT_STAT,
            old(self).regs.ppu_enabled && old(self).regs.ly_stat_int && 1 <= old(self).regs.ly_compare
                < 154 && old(self).frame_pos() < old(self).regs.ly_compare * LINE_TOTAL_DOTS
                <= old(self).frame_pos() + cycles ==> *final(int_flag) & INT_STAT == INT_STAT,
            r is Some && old(self).regs.oam_stat_int ==> *final(int_flag) & INT_STAT == INT_STAT,
            old(self).regs.ppu_enabled ==> frame_step(*old(self), *final(self), cycles as int, r is Some),
            old(self).regs.ppu_enabled && old(self).current_mode == PPUMode::PixelPut
                && old(self).current_mode_cycles + cycles >= old(self).mode_limit() && cycles <= 300
                ==> line_rendered(old(self), final(self).screen@),
            old(self).regs.ppu_enabled && old(self).regs.hblank_stat_int && old(self).current_mode
                == PPUMode::PixelPut && old(self).current_mode_cycles + cycles >= old(self).mode_limit()
                ==> *final(int_flag) & INT_STAT == INT_STAT,
            r matches Some(f) ==> (old(self).frame_pos() + cycles < FRAME_DOTS + OAM_SCAN_DOTS
                + PIXEL_PUT_MIN_DOTS ==> f@ == final(self).screen@),
            r matches Some(f) ==> f@.len() == SCREEN_PIXELS,
    {
        if !self.regs.ppu_enabled {
            proof {
                assert(*int_flag & *int_flag == *int_flag && *int_flag | 3 == *int_flag | 3) by (bit_vector);
            }
            return None;
        }
        let ghost flag0 = *int_flag;
        let ghost start_pos = self.frame_pos();
        let ghost total = self.frame_pos() + cycles;
        let ghost mut wraps: int = 0;
        let ghost mut advanced = false;
        self.current_mode_cycles = self.current_mode_cycles + cycles as u64;
        let mut frame: Option<Vec<u32>> = None;
        let ghost before = *self;
        proof {
            assert(flag0 & flag0 == flag0 && flag0 | 3 == flag0 | 3) by (bit_vector);
        }
        while self.current_mode_cycles >= self.mode_dots()
            invariant
                self.wf_loose(),
                self.current_mode_cycles < 0x1_0000_0000 + LINE_TOTAL_DOTS,
                self.frame_pos() + wraps * FRAME_DOTS == total,
                wraps >= 0,
                frame is Some <==> wraps > 0,
                frame matches Some(f) ==> f@.len() == SCREEN_PIXELS,
                self.vram == before.vram,
                self.oam == before.oam,
                self.regs == before.regs,
                *int_flag & flag0 == flag0,
                *int_flag | 3 == flag0 | 3,
                start_pos == before.frame_pos() - cycles,
                start_pos < VBLANK_START <= self.frame_pos() - self.current_mode_cycles + wraps * FRAME_DOTS
                    ==> *int_flag & INT_VBLANK == INT_VBLANK,
                before.regs.vblank_stat_int && start_pos < VBLANK_START <= self.frame_pos()
                    - self.current_mode_cycles + wraps * FRAME_DOTS ==> *int_flag & INT_STAT == INT_STAT,
                frame is Some && before.regs.oam_stat_int ==> *int_flag & INT_STAT == INT_STAT,
                advanced ==> self.frame_pos() - self.current_mode_cycles + wraps * FRAME_DOTS
                    > before.frame_pos() - before.current_mode_cycles,
                !advanced ==> *self == before,
                before.wf_loose(),
                advanced ==> self.frame_pos() - self.current_mode_cycles + wraps * FRAME_DOTS
                    >= before.frame_pos() - before.current_mode_cycles + before.mode_limit(),
                before.current_mode == PPUMode::PixelPut && advanced && self.frame_pos()
                    - self.current_mode_cycles + wraps * FRAME_DOTS <= before.frame_pos()
                    - before.current_mode_cycles + before.mode_limit() + 300 ==> line_rendered(
                    &before,
                    self.screen@,
                ),
                before.regs.hblank_stat_int && before.current_mode == PPUMode::PixelPut && self.frame_pos()
                    - self.current_mode_cycles + wraps * FRAME_DOTS > before.frame_pos()
                    - before.current_mode_cycles ==> *int_flag & INT_STAT == INT_STAT,
                before.regs.ly_stat_int && 1 <= before.regs.ly_compare < 154 && start_pos
                    < before.regs.ly_compare * LINE_TOTAL_DOTS <= self.frame_pos() - self.current_mode_cycles
                    + wraps * FRAME_DOTS ==> *int_flag & INT_STAT == INT_STAT,
                frame matches Some(f) ==> (f@ == self.screen@ || self.frame_pos() - self.current_mode_cycles
                    + wraps * FRAME_DOTS >= FRAME_DOTS + OAM_SCAN_DOTS + PIXEL_PUT_MIN_DOTS),
                self.frame_pos() - self.current_mode_cycles + wraps * FRAME_DOTS >= before.frame_pos()
                    - before.current_mode_cycles,
                before.frame_pos() - before.current_mode_cycles <= start_pos,
            decreases self.current_mode_cycles,
        {
            let ghost flag1 = *int_flag;
            let ghost prev = *self;
            let ghost was_advanced = advanced;
            let ghost wraps_prev = wraps;
            let wrapped = self.advance_mode(int_flag);
            proof {
                if was_advanced && prev.current_mode == PPUMode::PixelPut && before.current_mode
                    == PPUMode::PixelPut {
                    let msp = prev.frame_pos() - prev.current_mode_cycles + wraps_prev * FRAME_DOTS;
                    let msb = before.frame_pos() - before.current_mode_cycles;
                    assert(msp == prev.current_y * 456 + 80 + wraps_prev * 70224);
                    assert(msb == before.current_y * 456 + 80);
                    assert(msp >= msb + 172);
                    assert(prev.current_y + 154 * wraps_prev >= before.current_y + 1) by (nonlinear_arith)
                        requires
                            prev.current_y * 456 + wraps_prev * 70224 > before.current_y * 456,
                    ;
                    assert(msp >= before.current_y * 456 + 536);
                }
                advanced = true;
                lemma_or_chain(flag0, flag1, *int_flag);
                if flag1 & INT_VBLANK == INT_VBLANK {
                    lemma_bit_stays(flag1, *int_flag, INT_VBLANK);
                }
                if flag1 & INT_STAT == INT_STAT {
                    lemma_bit_stays(flag1, *int_flag, INT_STAT);
                }
            }
            if wrapped {
                frame = Some(copy_screen(&self.screen));
                proof {
                    wraps = wraps + 1;
                }
            }
            proof {
                let ms_prev = prev.frame_pos() - prev.current_mode_cycles + wraps_prev * FRAME_DOTS;
                let ms_new = self.frame_pos() - self.current_mode_cycles + wraps * FRAME_DOTS;
                let bound = before.frame_pos() - before.current_mode_cycles + before.mode_limit() + 300;
                assert(ms_new == ms_prev + prev.mode_limit());
                if before.current_mode == PPUMode::PixelPut && ms_new <= bound {
                    if !was_advanced {
                        assert(prev == before);
                        assert(line_rendered(&before, self.screen@));
                    } else if prev.current_mode != PPUMode::PixelPut {
                        assert(self.screen == prev.screen);
                        assert(line_rendered(&before, prev.screen@));
                    } else {
                        assert(ms_new >= before.current_y * 456 + 536 + 172);
                        assert(false);
                    }
                }
            }
        }
        proof {
            assert(0 <= self.frame_pos() < FRAME_DOTS);
            lemma_fundamental_div_mod_converse(total, FRAME_DOTS as int, wraps, self.frame_pos());
            if before.current_mode == PPUMode::PixelPut && advanced && line_rendered(&before, self.screen@) {
                lemma_line_rendered_same(before, *old(self), self.screen@);
            }
            if wraps == 0 && self.frame_pos() >= VBLANK_START {
                assert(self.current_mode == PPUMode::VBlank);
            }
        }
        frame
    }
}

/// A well-formed PPU is somewhere inside the frame.
pub proof fn lemma_frame_pos_bound(p: PPU)
    requires
        p.wf(),
    ensures
        0 <= p.frame_pos() < FRAME_DOTS,
{
}

/// The only well-formed state at the start of a visible line is its OAM scan with no dot
/// counted yet.
pub proof fn lemma_line_start(p: PPU, y: int)
    requires
        p.wf(),
        0 <= y < 144,
        p.frame_pos() == y * LINE_TOTAL_DOTS,
    ensures
        p.current_mode == PPUMode::OAMScan,
        p.current_y == y,
        p.current_mode_cycles == 0,
{
}

/// A scanline of OAM scan, pixel output and horizontal blank with no sprite penalty takes
/// 456 dots: 456 dots after the start of a visible line, the next line starts.
pub proof fn law_scanline_456(before: PPU, after: PPU)
    requires
        before.wf(),
        after.wf(),
        before.current_mode == PPUMode::OAMScan,
        before.current_mode_cycles == 0,
        before.current_y + 1 < 144,
        after.frame_pos() == (before.frame_pos() + LINE_TOTAL_DOTS) % (FRAME_DOTS as int),
    ensures
        after.current_mode == PPUMode::OAMScan,
        after.current_y == before.current_y + 1,
        after.current_mode_cycles == 0,
{
    lemma_small_mod(((before.current_y + 1) * LINE_TOTAL_DOTS) as nat, FRAME_DOTS as nat);
    lemma_line_start(after, before.current_y + 1);
}

/// A frame of 144 visible and 10 blank lines takes 70224 dots and yields exactly one
/// finished frame: from the start of a frame, fewer dots yield none, and 70224 dots yield
/// one and end at the start of the next frame.
pub proof fn law_frame_70224(before: PPU, after: PPU, cycles: int, produced: bool)
    requires
        before.wf(),
        after.wf(),
        before.current_mode == PPUMode::OAMScan,
        before.current_y == 0,
        before.current_mode_cycles == 0,
        0 <= cycles <= FRAME_DOTS,
        after.frame_pos() == (before.frame_pos() + cycles) % (FRAME_DOTS as int),
        produced == (before.frame_pos() + cycles >= FRAME_DOTS),
    ensures
        cycles < FRAME_DOTS ==> !produced,
        cycles == FRAME_DOTS ==> {
            &&& produced
            &&& after.current_mode == PPUMode::OAMScan
            &&& after.current_y == 0
            &&& after.current_mode_cycles == 0
        },
{
    if cycles == FRAME_DOTS {
        vstd::arithmetic::div_mod::lemma_mod_self_0(FRAME_DOTS as int);
        lemma_line_start(after, 0);
    }
}

/// One call of `run_cycles` on an enabled PPU: `c` dots on, and `some` tells whether a
/// frame came back.
pub open spec fn frame_step(o: PPU, n: PPU, c: int, some: bool) -> bool {
    &&& o.wf()
    &&& n.wf()
    &&& o.regs.ppu_enabled
    &&& n.regs == o.regs
    &&& n.frame_pos() == (o.frame_pos() + c) % (FRAME_DOTS as int)
    &&& some == (o.frame_pos() + c >= FRAME_DOTS)
}

/// The dots of the first `i` calls.
pub open spec fn dots_before(cs: Seq<int>, i: int) -> int
    decreases i,
{
    if i <= 0 {
        0
    } else {
        dots_before(cs, i - 1) + cs[i - 1]
    }
}

/// `ps[i + 1]` is what call `i`, of `cs[i]` dots, left of `ps[i]`, and `somes[i]` whether it
/// returned a frame.
pub open spec fn frame_calls(ps: Seq<PPU>, cs: Seq<int>, somes: Seq<bool>) -> bool {
    &&& ps.len() == cs.len() + 1
    &&& somes.len() == cs.len()
    &&& forall|i: int| 0 <= i < cs.len() ==> #[trigger] frame_step(ps[i], ps[i + 1], cs[i], somes[i])
    &&& forall|i: int| 0 <= i < cs.len() ==> #[trigger] cs[i] > 0
}

proof fn lemma_dots_mono(cs: Seq<int>, i: int, j: int)
    requires
        0 <= i <= j <= cs.len(),
        forall|k: int| 0 <= k < cs.len() ==> #[trigger] cs[k] > 0,
    ensures
        dots_before(cs, i) <= dots_before(cs, j),
        i < j ==> dots_before(cs, i) < dots_before(cs, j),
    decreases j - i,
{
    if i < j {
        lemma_dots_mono(cs, i, j - 1);
    }
}

proof fn lemma_calls_pos(ps: Seq<PPU>, cs: Seq<int>, somes: Seq<bool>, i: int)
    requires
        frame_calls(ps, cs, somes),
        ps[0].frame_pos() + dots_before(cs, cs.len() as int) <= FRAME_DOTS,
        0 <= i <= cs.len(),
        cs.len() > 0,
    ensures
        ps[i].wf(),
        ps[i].frame_pos() == (ps[0].frame_pos() + dots_before(cs, i)) % (FRAME_DOTS as int),
        forall|j: int|
            0 <= j < i ==> somes[j] == (ps[0].frame_pos() + dots_before(cs, j + 1) == FRAME_DOTS),
    decreases i,
{
    let z: int = 0;
    assert(frame_step(ps[z], ps[z + 1], cs[z], somes[z]));
    lemma_frame_pos_bound(ps[0]);
    lemma_small_mod(ps[0].frame_pos() as nat, FRAME_DOTS as nat);
    if i > 0 {
        lemma_calls_pos(ps, cs, somes, i - 1);
        let k = i - 1;
        assert(frame_step(ps[k], ps[k + 1], cs[k], somes[k]));
        lemma_dots_mono(cs, i, cs.len() as int);
        lemma_dots_mono(cs, i - 1, i);
        let before = ps[0].frame_pos() + dots_before(cs, i - 1);
        assert(before < FRAME_DOTS);
        assert(before >= 0) by {
            lemma_dots_mono(cs, 0, i - 1);
        }
        lemma_small_mod(before as nat, FRAME_DOTS as nat);
        let after = ps[0].frame_pos() + dots_before(cs, i);
        if after < FRAME_DOTS {
            lemma_small_mod(after as nat, FRAME_DOTS as nat);
        } else {
            vstd::arithmetic::div_mod::lemma_mod_self_0(FRAME_DOTS as int);
        }
    }
}

/// Over any run of calls of positive dots: starting a visible line's OAM scan (line + 1
/// below 144), calls that add up to 456 dots return no frame and end at the next line's
/// OAM scan; starting a frame, calls that add up to 70224 dots return exactly one frame,
/// at the last call, and end at the start of the next frame.
pub proof fn law_line_and_frame_calls(ps: Seq<PPU>, cs: Seq<int>, somes: Seq<bool>)
    requires
        frame_calls(ps, cs, somes),
        cs.len() > 0,
        ps[0].current_mode == PPUMode::OAMScan,
        ps[0].current_mode_cycles == 0,
    ensures
        dots_before(cs, cs.len() as int) == LINE_TOTAL_DOTS && ps[0].current_y + 1 < 144 ==> {
            &&& forall|j: int| 0 <= j < cs.len() ==> !somes[j]
            &&& ps.last().current_mode == PPUMode::OAMScan
            &&& ps.last().current_y == ps[0].current_y + 1
            &&& ps.last().current_mode_cycles == 0
        },
        dots_before(cs, cs.len() as int) == FRAME_DOTS && ps[0].current_y == 0 ==> {
            &&& forall|j: int| 0 <= j < cs.len() - 1 ==> !somes[j]
            &&& somes.last()
            &&& ps.last().current_mode == PPUMode::OAMScan
            &&& ps.last().current_y == 0
            &&& ps.last().current_mode_cycles == 0
        },
{
    let n = cs.len() as int;
    let total = dots_before(cs, n);
    if total == LINE_TOTAL_DOTS && ps[0].current_y + 1 < 144 {
        lemma_calls_pos(ps, cs, somes, n);
        assert forall|j: int| 0 <= j < n implies !somes[j] by {
            lemma_dots_mono(cs, j + 1, n);
        }
        lemma_small_mod(((ps[0].current_y + 1) * LINE_TOTAL_DOTS) as nat, FRAME_DOTS as nat);
        lemma_line_start(ps[n], ps[0].current_y + 1);
    }
    if total == FRAME_DOTS && ps[0].current_y == 0 {
        lemma_calls_pos(ps, cs, somes, n);
        assert forall|j: int| 0 <= j < n - 1 implies !somes[j] by {
            lemma_dots_mono(cs, j + 1, n);
        }
        vstd::arithmetic::div_mod::lemma_mod_self_0(FRAME_DOTS as int);
        lemma_line_start(ps[n], 0);
    }
}

/// Reading the LCD control register gives back what was last written to it.
pub proof fn law_lcdc_round_trip(before: PPU, after: PPU, v: u8)
    requires
        after.regs.ppu_enabled == (v & 0x80 != 0),
        after.regs.window_tilemap_offset == (v & 0x40 != 0),
        after.regs.window_enable == (v & 0x20 != 0),
        after.regs.bg_window_tiledata_offset == (v & 0x10 != 0),
        after.regs.bg_tilemap_offset == (v & 0x08 != 0),
        after.regs.obj_size_is_8x16 == (v & 0x04 != 0),
        after.regs.obj_enable == (v & 0x02 != 0),
        after.regs.bg_window_priority == (v & 0x01 != 0),
    ensures
        after.lcdc() == v,
{
    assert(((if v & 0x80 != 0 { 0x80u8 } else { 0u8 }) | (if v & 0x40 != 0 { 0x40u8 } else { 0u8 })
        | (if v & 0x20 != 0 { 0x20u8 } else { 0u8 }) | (if v & 0x10 != 0 { 0x10u8 } else { 0u8 })
        | (if v & 0x08 != 0 { 0x08u8 } else { 0u8 }) | (if v & 0x04 != 0 { 0x04u8 } else { 0u8 })
        | (if v & 0x02 != 0 { 0x02u8 } else { 0u8 }) | (if v & 0x01 != 0 { 0x01u8 } else { 0u8 }))
        == v) by (bit_vector);
}

/// Video memory read while pixels are being put out gives the undefined value whatever it
/// holds; read in horizontal blank it gives the stored byte.
pub proof fn law_vram_lockout(p: PPU, addr: u16)
    requires
        p.wf(),
    ensures
        p.current_mode == PPUMode::PixelPut ==> p.vram_read(addr) == UNDEFINED_READ,
        p.current_mode == PPUMode::HBlank ==> p.vram_read(addr) == p.vram.read_spec(addr),
{
}

} // verus!
