use vstd::prelude::*;

use crate::banked_memory::{BankedMemory, UNDEFINED_READ};
use crate::game_carts::{get_cart, padded_rom, GameCart, MIN_ROM_SIZE, ROM_SIZE_LIMIT};
use crate::input::InputKey;
use crate::io_reg;
use crate::opcodes::{dispatched, opcode_effect, run_opcode, undefined_opcode};
use crate::ppu::{lemma_frame_pos_bound, rgb_of, Color, PPU, PPUMode, FRAME_DOTS, OAM_SIZE, SCREEN_PIXELS};
use vstd::arithmetic::div_mod::lemma_small_mod;
use crate::registers::{high_byte, low_byte, pair, split, Registers};

verus! {

/// The hardware model being emulated.
#[derive(Debug, Clone, Copy, PartialEq, Eq, Structural)]
pub enum SystemType {
    DMG,
}

pub const ROM_END: u16 = 0x7fff;
pub const BOOTROM_SIZE: u16 = 0x100;
pub const VRAM_START: u16 = 0x8000;
pub const VRAM_END: u16 = 0x9fff;
pub const CART_RAM_START: u16 = 0xa000;
pub const CART_RAM_END: u16 = 0xbfff;
pub const WRAM_START: u16 = 0xc000;
pub const WRAM_END: u16 = 0xdfff;
pub const ECHO_WRAM_START: u16 = 0xe000;
pub const ECHO_WRAM_END: u16 = 0xfdff;
pub const OAM_START: u16 = 0xfe00;
pub const OAM_END: u16 = 0xfe9f;
pub const IO_REG_START: u16 = 0xff00;
pub const IO_REG_END: u16 = 0xff7f;
pub const HRAM_START: u16 = 0xff80;
pub const HRAM_END: u16 = 0xfffe;
pub const IE_ADDRESS: u16 = 0xffff;
pub const WRAM_SIZE: u16 = 0x2000;
pub const HRAM_SIZE: usize = 0x80;
pub const BUTTONS: usize = 8;

pub const INT_VBLANK: u8 = 0x1;
pub const INT_STAT: u8 = 0x2;
pub const INT_TIMER: u8 = 0x4;
pub const INT_SERIAL: u8 = 0x8;
pub const INT_GAMEPAD: u8 = 0x10;

/// The cycles of one emulated frame.
pub const FRAME_CYCLES: i32 = 70224;
/// What one bus access costs.
pub const BUS_CYCLES: u32 = 4;
/// A bound on the cycles that one step may have charged before an instruction runs.
pub const STEP_CYCLES_START: u32 = 1000;

/// Interrupt, timer, input and DMA state of the machine.
pub struct OtherState {
    pub bootrom_enabled: bool,
    pub ime_next_cycle: bool,
    pub int_enable: u8,
    pub int_flag: u8,
    pub halted: bool,
    pub instrs_run: u64,
    pub counter_div: u16,
    pub counter_tima: u8,
    pub counter_tma: u8,
    pub counter_tac: u8,
    pub joypad_io_state: u8,
    pub oam_dma_running: bool,
    pub oam_dma_start_addr: u16,
    pub oam_dma_cur_addr: u8,
    pub input_keys: Vec<InputKey>,
}

impl OtherState {
    pub fn new() -> (r: OtherState)
        ensures
            r.bootrom_enabled,
            !r.ime_next_cycle,
            r.int_enable == 0,
            r.int_flag == 0,
            !r.halted,
            !r.oam_dma_running,
            r.oam_dma_cur_addr == 0,
            r.oam_dma_start_addr == 0,
            r.input_keys@.len() == BUTTONS,
            r.counter_div == 0,
    {
        let mut input_keys: Vec<InputKey> = Vec::new();
        let mut i: usize = 0;
        while i < BUTTONS
            invariant
                i <= BUTTONS,
                input_keys@.len() == i,
            decreases BUTTONS - i,
        {
            input_keys.push(InputKey::new());
            i = i + 1;
        }
        OtherState {
            bootrom_enabled: true,
            ime_next_cycle: false,
            int_enable: 0,
            int_flag: 0,
            halted: false,
            instrs_run: 0,
            counter_div: 0,
            counter_tima: 0,
            counter_tma: 0,
            counter_tac: 0,
            joypad_io_state: 0,
            oam_dma_running: false,
            oam_dma_start_addr: 0,
            oam_dma_cur_addr: 0,
            input_keys,
        }
    }

    pub open spec fn wf(&self) -> bool {
        &&& self.input_keys@.len() == BUTTONS
        &&& self.oam_dma_cur_addr <= OAM_SIZE
        &&& self.oam_dma_start_addr <= 0xff00
        &&& self.oam_dma_start_addr % 256 == 0
        &&& self.oam_dma_running ==> self.oam_dma_cur_addr < OAM_SIZE
    }
}

/// The whole machine: CPU registers, video, cartridge, memories and interrupt state.
pub struct Gameboy {
    pub reg: Registers,
    pub ppu: PPU,
    pub bootrom_data: Vec<u8>,
    pub rom: GameCart,
    pub wram: BankedMemory,
    pub hram: Vec<u8>,
    pub pc: u16,
    pub sp: u16,
    pub ime: bool,
    pub cycles_pending: u32,
    pub cycles_run: u64,
    pub display_frame_cycles: i32,
    pub other_state: OtherState,
}

impl Gameboy {
    pub open spec fn wf(&self) -> bool {
        &&& self.ppu.wf()
        &&& self.rom.wf()
        &&& self.wram.wf()
        &&& self.wram.size() == WRAM_SIZE
        &&& !self.wram.is_read_only()
        &&& self.hram@.len() == HRAM_SIZE
        &&& self.bootrom_data@.len() == BOOTROM_SIZE
        &&& self.other_state.wf()
    }

    /// The CPU-side state agrees: registers, PC, SP and the interrupt master enable.
    pub open spec fn cpu_same(&self, o: &Gameboy) -> bool {
        &&& self.reg == o.reg
        &&& self.pc == o.pc
        &&& self.sp == o.sp
        &&& self.ime == o.ime
    }

    /// Everything that the bus reaches agrees.
    pub open spec fn mem_same(&self, o: &Gameboy) -> bool {
        &&& self.ppu == o.ppu
        &&& self.rom == o.rom
        &&& self.wram == o.wram
        &&& self.hram == o.hram
        &&& self.bootrom_data == o.bootrom_data
        &&& self.other_state == o.other_state
    }

    /// The bookkeeping of the frame driver agrees.
    pub open spec fn books_same(&self, o: &Gameboy) -> bool {
        &&& self.cycles_run == o.cycles_run
        &&& self.display_frame_cycles == o.display_frame_cycles
    }

    /// What a read of `addr` returns, without DMA masking.
    pub open spec fn read_raw_spec(&self, addr: u16) -> u8 {
        if addr <= ROM_END {
            if self.other_state.bootrom_enabled && addr < BOOTROM_SIZE {
                self.bootrom_data@[addr as int]
            } else {
                self.rom.read_spec(addr)
            }
        } else if addr <= VRAM_END {
            self.ppu.vram_read((addr - VRAM_START) as u16)
        } else if addr <= CART_RAM_END {
            self.rom.read_spec(addr)
        } else if addr <= WRAM_END {
            self.wram.read_spec((addr - WRAM_START) as u16)
        } else if addr <= ECHO_WRAM_END {
            self.wram.read_spec((addr - ECHO_WRAM_START) as u16)
        } else if addr <= OAM_END {
            self.ppu.oam_read((addr - OAM_START) as u16)
        } else if addr < IO_REG_START {
            UNDEFINED_READ
        } else if addr <= IO_REG_END {
            io_reg::io_read_spec(self, addr as u8)
        } else if addr <= HRAM_END {
            self.hram@[addr - HRAM_START]
        } else {
            self.other_state.int_enable
        }
    }

    /// What the CPU reads at `addr`: while OAM DMA runs, everything below the I/O
    /// registers reads as undefined.
    pub open spec fn read_spec(&self, addr: u16) -> u8 {
        if self.other_state.oam_dma_running && addr < IO_REG_START {
            UNDEFINED_READ
        } else {
            self.read_raw_spec(addr)
        }
    }

    /// How a write of `v` at `addr` changes what the bus reaches; CPU state and the frame
    /// driver's bookkeeping stay.
    pub open spec fn bus_written(&self, n: &Gameboy, addr: u16, v: u8) -> bool {
        &&& n.cpu_same(self)
        &&& n.books_same(self)
        &&& n.bootrom_data == self.bootrom_data
        &&& if addr <= ROM_END || (CART_RAM_START <= addr <= CART_RAM_END) {
            &&& self.rom.write_relation(&n.rom, addr, v)
            &&& n.rom.mapper() == self.rom.mapper()
            &&& n.ppu == self.ppu
            &&& n.wram == self.wram
            &&& n.hram == self.hram
            &&& n.other_state == self.other_state
        } else if addr <= VRAM_END {
            &&& n.ppu.vram.same_shape(&self.ppu.vram)
            &&& n.ppu.vram.bank() == self.ppu.vram.bank()
            &&& n.ppu.vram.data() == if self.ppu.current_mode == PPUMode::PixelPut {
                self.ppu.vram.data()
            } else {
                self.ppu.vram.data_after_write((addr - VRAM_START) as u16, v)
            }
            &&& n.ppu.regs == self.ppu.regs
            &&& n.ppu.oam == self.ppu.oam
            &&& n.ppu.screen == self.ppu.screen
            &&& n.ppu.same_timing(&self.ppu)
            &&& n.rom == self.rom
            &&& n.wram == self.wram
            &&& n.hram == self.hram
            &&& n.other_state == self.other_state
        } else if WRAM_START <= addr <= ECHO_WRAM_END {
            let off = if addr <= WRAM_END {
                (addr - WRAM_START) as u16
            } else {
                (addr - ECHO_WRAM_START) as u16
            };
            &&& n.wram.same_shape(&self.wram)
            &&& n.wram.bank() == self.wram.bank()
            &&& n.wram.data() == self.wram.data_after_write(off, v)
            &&& n.ppu == self.ppu
            &&& n.rom == self.rom
            &&& n.hram == self.hram
            &&& n.other_state == self.other_state
        } else if addr <= OAM_END {
            &&& n.ppu.oam@ == if self.ppu.oam_open() {
                self.ppu.oam@.update(addr - OAM_START, v)
            } else {
                self.ppu.oam@
            }
            &&& n.ppu.regs == self.ppu.regs
            &&& n.ppu.vram == self.ppu.vram
            &&& n.ppu.screen == self.ppu.screen
            &&& n.ppu.same_timing(&self.ppu)
            &&& n.rom == self.rom
            &&& n.wram == self.wram
            &&& n.hram == self.hram
            &&& n.other_state == self.other_state
        } else if addr < IO_REG_START {
            n.mem_same(self)
        } else if addr <= IO_REG_END {
            io_reg::io_written(self, n, addr as u8, v)
        } else if addr <= HRAM_END {
            &&& n.hram@ == self.hram@.update(addr - HRAM_START, v)
            &&& n.ppu == self.ppu
            &&& n.rom == self.rom
            &&& n.wram == self.wram
            &&& n.other_state == self.other_state
        } else {
            &&& n.other_state == OtherState { int_enable: v, ..self.other_state }
            &&& n.ppu == self.ppu
            &&& n.rom == self.rom
            &&& n.wram == self.wram
            &&& n.hram == self.hram
        }
    }

    /// A bus write as the CPU makes it: while OAM DMA runs, writes below the I/O registers
    /// are dropped.
    pub open spec fn cpu_written(&self, n: &Gameboy, addr: u16, v: u8) -> bool {
        if self.other_state.oam_dma_running && addr < IO_REG_START {
            &&& n.cpu_same(self)
            &&& n.books_same(self)
            &&& n.mem_same(self)
        } else {
            self.bus_written(n, addr, v)
        }
    }

    /// Builds a powered-on machine from a ROM image and a 256-byte boot ROM.
    pub fn new(system_type: SystemType, rom_data: Vec<u8>, bootrom_data: Vec<u8>) -> (r: Gameboy)
        requires
            MIN_ROM_SIZE <= rom_data@.len() < ROM_SIZE_LIMIT,
            bootrom_data@.len() == BOOTROM_SIZE,
        ensures
            r.wf(),
            r.pc == 0,
            r.sp == 0,
            !r.ime,
            r.cycles_pending == 0,
            r.other_state.bootrom_enabled,
            forall|a: u16| a < BOOTROM_SIZE ==> r.read_spec(a) == bootrom_data@[a as int],
            forall|a: u16| BOOTROM_SIZE <= a <= ROM_END ==> r.read_spec(a) == padded_rom(rom_data@)[a as int],
    {
        let r = Gameboy {
            reg: Registers::new(),
            ppu: PPU::new(system_type),
            rom: get_cart(rom_data),
            bootrom_data,
            wram: BankedMemory::new_empty(false, 1, WRAM_SIZE, false, String::from_str("dmg wram")),
            hram: vec![0u8; HRAM_SIZE],
            pc: 0,
            sp: 0,
            ime: false,
            cycles_pending: 0,
            cycles_run: 0,
            display_frame_cycles: 0,
            other_state: OtherState::new(),
        };
        r
    }

    pub fn read_byte_raw(&self, addr: u16) -> (r: u8)
        requires
            self.wf(),
        ensures
            r == self.read_raw_spec(addr),
    {
        if addr <= ROM_END {
            if self.other_state.bootrom_enabled && addr < BOOTROM_SIZE {
                self.bootrom_data[addr as usize]
            } else {
                self.rom.read_byte(addr)
            }
        } else if addr <= VRAM_END {
            self.ppu.read_vram_byte(addr - VRAM_START)
        } else if addr <= CART_RAM_END {
            self.rom.read_byte(addr)
        } else if addr <= WRAM_END {
            self.wram.read_byte(addr - WRAM_START)
        } else if addr <= ECHO_WRAM_END {
            self.wram.read_byte(addr - ECHO_WRAM_START)
        } else if addr <= OAM_END {
            self.ppu.read_oam_byte(addr - OAM_START)
        } else if addr < IO_REG_START {
            UNDEFINED_READ
        } else if addr <= IO_REG_END {
            io_reg::read_byte(self, addr as u8)
        } else if addr <= HRAM_END {
            self.hram[(addr - HRAM_START) as usize]
        } else {
            self.other_state.int_enable
        }
    }

    /// A CPU read: costs one bus access.
    pub fn read_byte(&mut self, addr: u16) -> (r: u8)
        requires
            old(self).wf(),
            old(self).cycles_pending <= u32::MAX - BUS_CYCLES,
        ensures
            r == old(self).read_spec(addr),
            final(self).cycles_pending == old(self).cycles_pending + BUS_CYCLES,
            final(self).wf(),
            final(self).cpu_same(old(self)),
            final(self).mem_same(old(self)),
            final(self).books_same(old(self)),
    {
        self.cycles_pending = self.cycles_pending + BUS_CYCLES;
        if self.other_state.oam_dma_running && addr < IO_REG_START {
            return UNDEFINED_READ;
        }
        self.read_byte_raw(addr)
    }

    pub fn write_byte_raw(&mut self, addr: u16, value: u8)
        requires
            old(self).wf(),
        ensures
            final(self).wf(),
            final(self).cycles_pending == old(self).cycles_pending,
            old(self).bus_written(final(self), addr, value),
    {
        if addr <= ROM_END {
            self.rom.write_byte(addr, value);
        } else if addr <= VRAM_END {
            self.ppu.write_vram_byte(addr - VRAM_START, value);
        } else if addr <= CART_RAM_END {
            self.rom.write_byte(addr, value);
        } else if addr <= WRAM_END {
            self.wram.write_byte(addr - WRAM_START, value);
        } else if addr <= ECHO_WRAM_END {
            self.wram.write_byte(addr - ECHO_WRAM_START, value);
        } else if addr <= OAM_END {
            self.ppu.write_oam_byte(addr - OAM_START, value);
        } else if addr < IO_REG_START {
        } else if addr <= IO_REG_END {
            io_reg::write_byte(self, addr as u8, value);
        } else if addr <= HRAM_END {
            self.hram.set((addr - HRAM_START) as usize, value);
        } else {
            self.other_state.int_enable = value;
        }
    }

    /// A CPU write: costs one bus access.
    pub fn write_byte(&mut self, addr: u16, value: u8)
        requires
            old(self).wf(),
            old(self).cycles_pending <= u32::MAX - BUS_CYCLES,
        ensures
            final(self).wf(),
            final(self).cycles_pending == old(self).cycles_pending + BUS_CYCLES,
            old(self).cpu_written(final(self), addr, value),
    {
        self.cycles_pending = self.cycles_pending + BUS_CYCLES;
        if self.other_state.oam_dma_running && addr < IO_REG_START {
            return;
        }
        self.write_byte_raw(addr, value);
    }
}

/// `b` is `a` after the CPU wrote the two bytes of `v` at `addr` and `addr + 1`, low byte
/// first.
pub open spec fn wrote_short(a: Gameboy, b: Gameboy, addr: u16, v: u16) -> bool {
    exists|mid: Gameboy|
        #![trigger a.cpu_written(&mid, addr, low_byte(v))]
        a.cpu_written(&mid, addr, low_byte(v)) && mid.cpu_written(&b, addr.wrapping_add(1), high_byte(v))
}

/// The stack writes of a push land neither on the I/O registers nor on IE.
pub open spec fn stack_safe(sp: u16) -> bool {
    (2 <= sp <= IO_REG_START) || HRAM_START + 2 <= sp
}

/// The vector of the highest-priority interrupt pending in `p`.
pub open spec fn vector_of(p: u8) -> u16 {
    if p & INT_VBLANK != 0 {
        0x40
    } else if p & INT_STAT != 0 {
        0x48
    } else if p & INT_TIMER != 0 {
        0x50
    } else if p & INT_SERIAL != 0 {
        0x58
    } else {
        0x60
    }
}

/// The flag bit of the highest-priority interrupt pending in `p`.
pub open spec fn bit_of(p: u8) -> u8 {
    if p & INT_VBLANK != 0 {
        INT_VBLANK
    } else if p & INT_STAT != 0 {
        INT_STAT
    } else if p & INT_TIMER != 0 {
        INT_TIMER
    } else if p & INT_SERIAL != 0 {
        INT_SERIAL
    } else {
        INT_GAMEPAD
    }
}

impl Gameboy {
    /// The interrupts both enabled and requested.
    pub open spec fn pending(&self) -> u8 {
        (self.other_state.int_enable & self.other_state.int_flag & 0x1f) as u8
    }

    pub fn read_byte_inc_pc(&mut self) -> (r: u8)
        requires
            old(self).wf(),
            old(self).cycles_pending <= u32::MAX - BUS_CYCLES,
        ensures
            r == old(self).read_spec(old(self).pc),
            final(self).pc == old(self).pc.wrapping_add(1),
            final(self).cycles_pending == old(self).cycles_pending + BUS_CYCLES,
            final(self).wf(),
            final(self).reg == old(self).reg,
            final(self).sp == old(self).sp,
            final(self).ime == old(self).ime,
            final(self).mem_same(old(self)),
            final(self).books_same(old(self)),
    {
        let value = self.read_byte(self.pc);
        self.pc = self.pc.wrapping_add(1);
        value
    }

    pub fn read_short(&mut self, addr: u16) -> (r: u16)
        requires
            old(self).wf(),
            old(self).cycles_pending <= u32::MAX - 2 * BUS_CYCLES,
        ensures
            r == pair(old(self).read_spec(addr.wrapping_add(1)), old(self).read_spec(addr)),
            final(self).cycles_pending == old(self).cycles_pending + 2 * BUS_CYCLES,
            final(self).wf(),
            final(self).cpu_same(old(self)),
            final(self).mem_same(old(self)),
            final(self).books_same(old(self)),
    {
        let lo = self.read_byte(addr);
        let hi = self.read_byte(addr.wrapping_add(1));
        crate::registers::join(hi, lo)
    }

    pub fn read_short_inc_pc(&mut self) -> (r: u16)
        requires
            old(self).wf(),
            old(self).cycles_pending <= u32::MAX - 2 * BUS_CYCLES,
        ensures
            r == pair(
                old(self).read_spec(old(self).pc.wrapping_add(1)),
                old(self).read_spec(old(self).pc),
            ),
            final(self).pc == old(self).pc.wrapping_add(2),
            final(self).cycles_pending == old(self).cycles_pending + 2 * BUS_CYCLES,
            final(self).wf(),
            final(self).reg == old(self).reg,
            final(self).sp == old(self).sp,
            final(self).ime == old(self).ime,
            final(self).mem_same(old(self)),
            final(self).books_same(old(self)),
    {
        let lo = self.read_byte_inc_pc();
        let hi = self.read_byte_inc_pc();
        crate::registers::join(hi, lo)
    }

    pub fn write_short(&mut self, addr: u16, value: u16)
        requires
            old(self).wf(),
            old(self).cycles_pending <= u32::MAX - 2 * BUS_CYCLES,
        ensures
            final(self).wf(),
            final(self).cycles_pending == old(self).cycles_pending + 2 * BUS_CYCLES,
            final(self).cpu_same(old(self)),
            final(self).books_same(old(self)),
            wrote_short(*old(self), *final(self), addr, value),
    {
        let (hi, lo) = split(value);
        self.write_byte(addr, lo);
        let ghost mid = *self;
        self.write_byte(addr.wrapping_add(1), hi);
        assert(old(self).cpu_written(&mid, addr, low_byte(value)));
        assert(mid.cpu_written(&*self, addr.wrapping_add(1), high_byte(value)));
    }

    pub fn push_short(&mut self, value: u16)
        requires
            old(self).wf(),
            old(self).cycles_pending <= u32::MAX - 2 * BUS_CYCLES,
        ensures
            final(self).wf(),
            final(self).cycles_pending == old(self).cycles_pending + 2 * BUS_CYCLES,
            final(self).sp == old(self).sp.wrapping_sub(2),
            final(self).reg == old(self).reg,
            final(self).pc == old(self).pc,
            final(self).ime == old(self).ime,
            final(self).books_same(old(self)),
            wrote_short(
                Gameboy { sp: old(self).sp.wrapping_sub(2), cycles_pending: old(self).cycles_pending, ..*old(self) },
                *final(self),
                old(self).sp.wrapping_sub(2),
                value,
            ),
            stack_safe(old(self).sp) ==> final(self).other_state.int_flag == old(self).other_state.int_flag,
            stack_safe(old(self).sp) ==> final(self).other_state.int_enable == old(self).other_state.int_enable,
    {
        self.sp = self.sp.wrapping_sub(2);
        self.write_short(self.sp, value);
    }

    pub fn pop_short(&mut self) -> (r: u16)
        requires
            old(self).wf(),
            old(self).cycles_pending <= u32::MAX - 2 * BUS_CYCLES,
        ensures
            r == pair(old(self).read_spec(old(self).sp.wrapping_add(1)), old(self).read_spec(old(self).sp)),
            final(self).sp == old(self).sp.wrapping_add(2),
            final(self).cycles_pending == old(self).cycles_pending + 2 * BUS_CYCLES,
            final(self).wf(),
            final(self).reg == old(self).reg,
            final(self).pc == old(self).pc,
            final(self).ime == old(self).ime,
            final(self).mem_same(old(self)),
            final(self).books_same(old(self)),
    {
        let value = self.read_short(self.sp);
        self.sp = self.sp.wrapping_add(2);
        value
    }
}

/// What servicing interrupts does to `o`, giving `n`.
pub open spec fn interrupt_step(o: &Gameboy, n: &Gameboy) -> bool {
    &&& n.wf()
    &&& n.books_same(o)
    &&& n.reg == o.reg
    &&& n.ppu.same_timing(&o.ppu)
    &&& n.other_state.ime_next_cycle == o.other_state.ime_next_cycle
    &&& n.other_state.halted == (o.other_state.halted && o.pending() == 0)
    &&& o.pending() == 0 ==> {
        &&& n.cpu_same(o)
        &&& n.mem_same(o)
        &&& n.cycles_pending == o.cycles_pending
    }
    &&& o.pending() != 0 && !o.ime ==> {
        &&& n.cpu_same(o)
        &&& n.other_state == OtherState { halted: false, ..o.other_state }
        &&& n.cycles_pending == o.cycles_pending
        &&& n.ppu == o.ppu
        &&& n.rom == o.rom
        &&& n.wram == o.wram
        &&& n.hram == o.hram
        &&& n.bootrom_data == o.bootrom_data
    }
    &&& o.pending() != 0 && o.ime ==> exists|m: Gameboy|
        #![trigger wrote_short(Gameboy { sp: o.sp.wrapping_sub(2), cycles_pending: (o.cycles_pending + 8) as u32, other_state: OtherState { halted: false, ..o.other_state }, ..*o }, m, o.sp.wrapping_sub(2), o.pc)]
        wrote_short(
            Gameboy { sp: o.sp.wrapping_sub(2), cycles_pending: (o.cycles_pending + 8) as u32, other_state: OtherState { halted: false, ..o.other_state }, ..*o },
            m,
            o.sp.wrapping_sub(2),
            o.pc,
        ) && *n == (Gameboy {
            pc: vector_of(o.pending()),
            ime: false,
            cycles_pending: n.cycles_pending,
            other_state: OtherState { int_flag: m.other_state.int_flag & !bit_of(o.pending()), ..m.other_state },
            ..m
        })
    &&& o.pending() != 0 && o.ime ==> {
        &&& n.pc == vector_of(o.pending())
        &&& !n.ime
        &&& n.sp == o.sp.wrapping_sub(2)
        &&& n.cycles_pending == o.cycles_pending + 20
        &&& stack_safe(o.sp) ==> n.other_state.int_flag == o.other_state.int_flag & !bit_of(o.pending())
    }
    &&& o.cycles_pending <= n.cycles_pending <= o.cycles_pending + 20
}

/// Services interrupts: any pending interrupt ends HALT, and with IME set the
/// highest-priority one is taken: PC is pushed, IME cleared, its IF bit cleared, and PC set
/// to its vector.
pub fn process_interrupts(gb: &mut Gameboy)
    requires
        old(gb).wf(),
        old(gb).cycles_pending <= STEP_CYCLES_START,
    ensures
        interrupt_step(old(gb), final(gb)),
{
    let pending = gb.other_state.int_enable & gb.other_state.int_flag & 0x1f;
    if pending != 0 {
        gb.other_state.halted = false;
        let (vector, bit): (u16, u8) = if pending & INT_VBLANK != 0 {
            (0x40, INT_VBLANK)
        } else if pending & INT_STAT != 0 {
            (0x48, INT_STAT)
        } else if pending & INT_TIMER != 0 {
            (0x50, INT_TIMER)
        } else if pending & INT_SERIAL != 0 {
            (0x58, INT_SERIAL)
        } else {
            (0x60, INT_GAMEPAD)
        };
        if gb.ime {
            gb.cycles_pending = gb.cycles_pending + 8;
            let ghost before_push = *gb;
            gb.push_short(gb.pc);
            let ghost m = *gb;
            proof {
                let s = Gameboy { sp: before_push.sp.wrapping_sub(2), cycles_pending: before_push.cycles_pending, ..before_push };
                lemma_short_keeps_control(s, *gb, before_push.sp.wrapping_sub(2), before_push.pc);
                assert(s == Gameboy { sp: old(gb).sp.wrapping_sub(2), cycles_pending: (old(gb).cycles_pending + 8) as u32, other_state: OtherState { halted: false, ..old(gb).other_state }, ..*old(gb) });
            }
            gb.cycles_pending = gb.cycles_pending + 4;
            gb.ime = false;
            gb.other_state.int_flag = gb.other_state.int_flag & !bit;
            gb.pc = vector;
        }
    }
}

/// The divider counts every cycle; TIMA, TMA and TAC are kept as plain storage.
pub fn process_timers(gb: &mut Gameboy)
    ensures
        final(gb).other_state.counter_div == old(gb).other_state.counter_div.wrapping_add(
            old(gb).cycles_pending as u16,
        ),
        final(gb).other_state == (OtherState { counter_div: final(gb).other_state.counter_div, ..old(gb).other_state }),
        final(gb).cpu_same(old(gb)),
        final(gb).books_same(old(gb)),
        final(gb).cycles_pending == old(gb).cycles_pending,
        final(gb).ppu == old(gb).ppu,
        final(gb).rom == old(gb).rom,
        final(gb).wram == old(gb).wram,
        final(gb).hram == old(gb).hram,
        final(gb).bootrom_data == old(gb).bootrom_data,
{
    gb.other_state.counter_div = gb.other_state.counter_div.wrapping_add(gb.cycles_pending as u16);
}

/// How far an OAM DMA at byte `cur` gets in `cycles` cycles: one byte every four cycles, up
/// to the whole 160-byte block.
pub open spec fn dma_progress(cur: int, cycles: int) -> int {
    if cur + cycles / 4 > OAM_SIZE {
        OAM_SIZE as int
    } else {
        cur + cycles / 4
    }
}

/// The source of an OAM DMA lies below object memory.
pub open spec fn dma_source_ok(gb: &Gameboy) -> bool {
    gb.other_state.oam_dma_start_addr as int + OAM_SIZE <= OAM_START
}

/// What running OAM DMA for the cycles of a step does to `o`, giving `n`.
pub open spec fn dma_step(o: &Gameboy, n: &Gameboy) -> bool {
    let cur0 = o.other_state.oam_dma_cur_addr;
    let cur1 = n.other_state.oam_dma_cur_addr;
    &&& n.wf()
    &&& n.cpu_same(o)
    &&& n.books_same(o)
    &&& n.cycles_pending == o.cycles_pending
    &&& cur1 == dma_progress(cur0 as int, o.cycles_pending as int)
    &&& n.other_state.oam_dma_running == (cur1 < OAM_SIZE)
    &&& n.other_state.oam_dma_start_addr == o.other_state.oam_dma_start_addr
    &&& n.ppu.oam@.len() == OAM_SIZE
    &&& n.ppu.same_timing(&o.ppu)
    &&& n.ppu.regs == o.ppu.regs
    &&& n.ppu.vram == o.ppu.vram
    &&& n.other_state.int_flag == o.other_state.int_flag
    &&& n.other_state.ime_next_cycle == o.other_state.ime_next_cycle
    &&& n.other_state.halted == o.other_state.halted
    &&& n.other_state.counter_div == o.other_state.counter_div
    &&& n.ppu.screen == o.ppu.screen
    &&& n.rom == o.rom
    &&& n.wram == o.wram
    &&& n.hram == o.hram
    &&& n.bootrom_data == o.bootrom_data
    &&& dma_source_ok(o) ==> forall|i: int|
        cur0 <= i < cur1 ==> n.ppu.oam@[i] == o.read_raw_spec(
            (o.other_state.oam_dma_start_addr + i) as u16,
        )
    &&& forall|i: int| 0 <= i < cur0 ==> n.ppu.oam@[i] == o.ppu.oam@[i]
}

/// Runs OAM DMA for the cycles of this step, one byte every four cycles, through the raw
/// bus so that its own masking does not stop it.
pub fn process_oam_dma(gb: &mut Gameboy)
    requires
        old(gb).wf(),
        old(gb).other_state.oam_dma_running,
    ensures
        dma_step(old(gb), final(gb)),
{
    let steps: u32 = gb.cycles_pending / 4;
    let mut n: u32 = 0;
    let ghost g0 = *gb;
    let start: u16 = gb.other_state.oam_dma_start_addr;
    while n < steps
        invariant
            gb.wf(),
            g0.wf(),
            g0 == *old(gb),
            n <= steps,
            steps == g0.cycles_pending / 4,
            gb.cpu_same(&g0),
            gb.books_same(&g0),
            gb.cycles_pending == g0.cycles_pending,
            gb.other_state.oam_dma_start_addr == start,
            start == g0.other_state.oam_dma_start_addr,
            gb.other_state.oam_dma_cur_addr == dma_progress(
                g0.other_state.oam_dma_cur_addr as int,
                4 * n as int,
            ),
            gb.other_state.oam_dma_running == (gb.other_state.oam_dma_cur_addr < OAM_SIZE),
            gb.rom == g0.rom,
            gb.wram == g0.wram,
            gb.hram == g0.hram,
            gb.bootrom_data == g0.bootrom_data,
            gb.ppu.vram == g0.ppu.vram,
            gb.ppu.screen == g0.ppu.screen,
            gb.ppu.regs == g0.ppu.regs,
            gb.ppu.same_timing(&g0.ppu),
            gb.other_state.bootrom_enabled == g0.other_state.bootrom_enabled,
            gb.other_state.int_enable == g0.other_state.int_enable,
            gb.other_state.int_flag == g0.other_state.int_flag,
            gb.other_state.joypad_io_state == g0.other_state.joypad_io_state,
            gb.other_state.counter_div == g0.other_state.counter_div,
            gb.other_state.counter_tima == g0.other_state.counter_tima,
            gb.other_state.counter_tma == g0.other_state.counter_tma,
            gb.other_state.counter_tac == g0.other_state.counter_tac,
            gb.other_state.ime_next_cycle == g0.other_state.ime_next_cycle,
            gb.other_state.halted == g0.other_state.halted,
            dma_source_ok(&g0) ==> forall|i: int|
                g0.other_state.oam_dma_cur_addr <= i < gb.other_state.oam_dma_cur_addr
                    ==> gb.ppu.oam@[i] == g0.read_raw_spec((start + i) as u16),
            forall|i: int|
                0 <= i < g0.other_state.oam_dma_cur_addr ==> gb.ppu.oam@[i] == g0.ppu.oam@[i],
        decreases steps - n,
    {
        if !gb.other_state.oam_dma_running {
            proof {
                assert(dma_progress(g0.other_state.oam_dma_cur_addr as int, 4 * n as int) == OAM_SIZE);
                assert(dma_progress(g0.other_state.oam_dma_cur_addr as int, g0.cycles_pending as int) == OAM_SIZE);
            }
            return;
        }
        let cur: u8 = gb.other_state.oam_dma_cur_addr;
        let to_write = gb.read_byte_raw(start + cur as u16);
        proof {
            if dma_source_ok(&g0) {
                assert(gb.read_raw_spec((start + cur) as u16) == g0.read_raw_spec((start + cur) as u16));
            }
        }
        gb.ppu.write_oam_byte_raw(cur as u16, to_write);
        gb.other_state.oam_dma_cur_addr = cur + 1;
        gb.other_state.oam_dma_running = cur + 1 < 0xa0;
        n = n + 1;
    }
}

/// Latches input edges: each of the eight buttons that changed is copied in and requests
/// the joypad interrupt; entries 8 to 12 toggle debug views of the PPU when pressed.
pub fn handle_input(gb: &mut Gameboy, input_keys: &Vec<InputKey>)
    requires
        old(gb).wf(),
        input_keys@.len() <= 13,
    ensures
        input_handled(old(gb), final(gb), input_keys@),
{
    let ghost g0 = *gb;
    let mut i: usize = 0;
    proof {
        assert(g0.other_state.int_flag | 0 == g0.other_state.int_flag) by (bit_vector);
    }
    let mut raised: u8 = 0;
    while i < input_keys.len()
        invariant
            i <= input_keys@.len() <= 13,
            gb.wf(),
            gb.cpu_same(&g0),
            gb.books_same(&g0),
            gb.cycles_pending == g0.cycles_pending,
            raised == 0 || raised == INT_GAMEPAD,
            gb.other_state.int_flag == g0.other_state.int_flag | raised,
            (raised == INT_GAMEPAD) == exists|j: int|
                0 <= j < BUTTONS && j < i && #[trigger] input_keys@[j].state_just_changed,
            forall|j: int|
                0 <= j < BUTTONS ==> gb.other_state.input_keys@[j] == if j < i
                    && input_keys@[j].state_just_changed {
                    input_keys@[j]
                } else {
                    g0.other_state.input_keys@[j]
                },
        decreases input_keys@.len() - i,
    {
        let key = input_keys[i];
        if key.get_state_just_changed() {
            if i == 8 {
                if key.get_held() {
                    gb.ppu.regs.dbg_tilemap_bg_swap = !gb.ppu.regs.dbg_tilemap_bg_swap;
                }
            } else if i == 9 {
                if key.get_held() {
                    gb.ppu.regs.dbg_tiledata_bg_swap = !gb.ppu.regs.dbg_tiledata_bg_swap;
                }
            } else if i == 10 {
                if key.get_held() {
                    gb.ppu.regs.dbg_tilemap_win_swap = !gb.ppu.regs.dbg_tilemap_win_swap;
                }
            } else if i == 11 {
                if key.get_held() {
                    gb.ppu.regs.dbg_tiledata_win_swap = !gb.ppu.regs.dbg_tiledata_win_swap;
                }
            } else if i == 12 {
                if key.get_held() {
                    gb.ppu.regs.dbg_win_toggle = !gb.ppu.regs.dbg_win_toggle;
                }
            } else {
                proof {
                    let f = g0.other_state.int_flag;
                    assert((f | 0) | 0x10 == f | 0x10 && (f | 0x10) | 0x10 == f | 0x10) by (bit_vector);
                }
                raised = INT_GAMEPAD;
                gb.other_state.int_flag = gb.other_state.int_flag | INT_GAMEPAD;
                gb.other_state.input_keys.set(i, key);
            }
        }
        i = i + 1;
    }
}

/// What a fatal stop reports: the opcode and the CPU state where it stood.
pub struct CrashReport {
    pub opcode: u8,
    pub pc: u16,
    pub sp: u16,
    pub af: u16,
    pub bc: u16,
    pub de: u16,
    pub hl: u16,
    pub cycles_run: u64,
}

/// How one step of the frame driver ended.
pub enum StepOutcome {
    Continue,
    Frame(Vec<u32>),
    Crash(CrashReport),
}

/// Resolves the delayed enable of EI: IME becomes set at the start of the step after EI.
pub fn latch_ime(gb: &mut Gameboy)
    ensures
        final(gb).ime == (old(gb).ime || old(gb).other_state.ime_next_cycle),
        final(gb).other_state == (OtherState { ime_next_cycle: false, ..old(gb).other_state }),
        final(gb).reg == old(gb).reg,
        final(gb).pc == old(gb).pc,
        final(gb).sp == old(gb).sp,
        final(gb).cycles_pending == old(gb).cycles_pending,
        final(gb).books_same(old(gb)),
        final(gb).ppu == old(gb).ppu,
        final(gb).rom == old(gb).rom,
        final(gb).wram == old(gb).wram,
        final(gb).hram == old(gb).hram,
        final(gb).bootrom_data == old(gb).bootrom_data,
{
    if gb.other_state.ime_next_cycle {
        gb.other_state.ime_next_cycle = false;
        gb.ime = true;
    }
}

/// What is left of the frame: the dots until the PPU finishes it, plus the budget that
/// ends it while the PPU is off.
pub open spec fn frame_measure(gb: &Gameboy) -> int {
    (FRAME_DOTS - gb.ppu.frame_pos()) + gb.display_frame_cycles
}

/// The machine ready to dispatch: one bus access charged, PC past the opcode unless
/// halted, and the delayed IME enable resolved.
pub open spec fn fetched(o: &Gameboy) -> Gameboy {
    Gameboy {
        pc: if o.other_state.halted {
            o.pc
        } else {
            o.pc.wrapping_add(1)
        },
        cycles_pending: 4,
        ime: o.ime || o.other_state.ime_next_cycle,
        other_state: OtherState {
            ime_next_cycle: false,
            instrs_run: o.other_state.instrs_run.wrapping_add(1),
            ..o.other_state
        },
        ..*o
    }
}

/// The opcode a step runs: the byte at PC, or a NOP while halted.
pub open spec fn fetched_opcode(o: &Gameboy) -> u8 {
    if o.other_state.halted {
        0
    } else {
        o.read_spec(o.pc)
    }
}

/// The machine with the cycles of this step added to the running total.
pub open spec fn booked(b: &Gameboy) -> Gameboy {
    Gameboy { cycles_run: b.cycles_run.wrapping_add(b.cycles_pending as u64), ..*b }
}

/// What ticking the PPU, the divider and OAM DMA by the step's cycles does to `o`, giving
/// `n` and the outcome `r`. While the PPU is off the frame budget counts down, and a
/// single white pixel comes back when it runs out; otherwise the PPU moves by the cycles,
/// and a finished frame is the screen as it stands.
pub open spec fn tick_rel(o: &Gameboy, n: &Gameboy, r: StepOutcome) -> bool {
    let cyc = o.cycles_pending;
    let on = o.ppu.regs.ppu_enabled;
    if !on && o.display_frame_cycles - cyc <= 0 {
        &&& match r {
            StepOutcome::Frame(f) => f@ == seq![rgb_of(Color::White)],
            _ => false,
        }
        &&& *n == Gameboy { display_frame_cycles: FRAME_CYCLES, ..*o }
    } else {
        &&& n.cpu_same(o)
        &&& n.cycles_pending == cyc
        &&& n.cycles_run == o.cycles_run
        &&& n.rom == o.rom
        &&& n.wram == o.wram
        &&& n.hram == o.hram
        &&& n.bootrom_data == o.bootrom_data
        &&& n.display_frame_cycles == if on {
            o.display_frame_cycles as int
        } else {
            o.display_frame_cycles - cyc
        }
        &&& n.ppu.regs == o.ppu.regs
        &&& n.ppu.vram == o.ppu.vram
        &&& on ==> n.ppu.frame_pos() == (o.ppu.frame_pos() + cyc) % (FRAME_DOTS as int)
        &&& !on ==> n.ppu.same_timing(&o.ppu) && n.ppu.screen == o.ppu.screen
        &&& n.other_state.int_flag & o.other_state.int_flag == o.other_state.int_flag
        &&& match r {
            StepOutcome::Frame(f) => {
                &&& on
                &&& o.ppu.frame_pos() + cyc >= FRAME_DOTS
                &&& f@ == n.ppu.screen@
                &&& n.other_state == OtherState { int_flag: n.other_state.int_flag, ..o.other_state }
            },
            StepOutcome::Continue => {
                &&& !(on && o.ppu.frame_pos() + cyc >= FRAME_DOTS)
                &&& n.other_state.counter_div == o.other_state.counter_div.wrapping_add(cyc as u16)
                &&& o.other_state.oam_dma_running ==> n.other_state.oam_dma_cur_addr == dma_progress(
                    o.other_state.oam_dma_cur_addr as int,
                    cyc as int,
                )
                &&& !o.other_state.oam_dma_running ==> n.other_state.oam_dma_cur_addr
                    == o.other_state.oam_dma_cur_addr && !n.other_state.oam_dma_running
            },
            StepOutcome::Crash(_) => false,
        }
    }
}

/// Fetches the opcode (unless halted) and resolves the delayed IME enable.
fn fetch(gb: &mut Gameboy) -> (op: u8)
    requires
        old(gb).wf(),
    ensures
        op == fetched_opcode(old(gb)),
        *final(gb) == fetched(old(gb)),
        final(gb).wf(),
{
    gb.other_state.instrs_run = gb.other_state.instrs_run.wrapping_add(1);
    gb.cycles_pending = 0;
    let mut opcode: u8 = 0;
    if !gb.other_state.halted {
        opcode = gb.read_byte_inc_pc();
    } else {
        gb.cycles_pending = gb.cycles_pending + 4;
    }
    latch_ime(gb);
    opcode
}

/// Ticks the PPU, the divider and OAM DMA by the cycles of this step.
fn tick(gb: &mut Gameboy) -> (r: StepOutcome)
    requires
        old(gb).wf(),
        0 < old(gb).display_frame_cycles <= FRAME_CYCLES,
        4 <= old(gb).cycles_pending <= 100,
    ensures
        final(gb).wf(),
        0 < final(gb).display_frame_cycles <= FRAME_CYCLES,
        tick_rel(old(gb), final(gb), r),
        r is Continue ==> frame_measure(final(gb)) < frame_measure(old(gb)),
{
    let c: u32 = gb.cycles_pending;
    proof {
        lemma_frame_pos_bound(gb.ppu);
    }
    if !gb.ppu.is_enabled() {
        gb.display_frame_cycles = gb.display_frame_cycles - c as i32;
        if gb.display_frame_cycles <= 0 {
            gb.display_frame_cycles = FRAME_CYCLES;
            let blank = vec![Color::White.rgb()];
            assert(blank@ =~= seq![rgb_of(Color::White)]);
            return StepOutcome::Frame(blank);
        }
    }
    let ghost ppu_before = gb.ppu;
    let frame = gb.ppu.run_cycles(c, &mut gb.other_state.int_flag);
    match frame {
        Some(f) => {
            return StepOutcome::Frame(f);
        },
        None => {},
    }
    proof {
        if ppu_before.regs.ppu_enabled {
            lemma_small_mod((ppu_before.frame_pos() + c) as nat, FRAME_DOTS as nat);
        }
    }
    let ghost after_ppu = *gb;
    process_timers(gb);
    if gb.other_state.oam_dma_running {
        process_oam_dma(gb);
    }
    StepOutcome::Continue
}

/// What one step of the frame driver does to `o`, giving `n` and outcome `r`: an
/// undefined opcode stops it right after the fetch; otherwise the opcode runs, interrupts
/// are serviced, and the PPU, divider and OAM DMA tick.
pub open spec fn step_rel(o: &Gameboy, n: &Gameboy, r: StepOutcome) -> bool {
    &&& n.wf()
    &&& 0 < n.display_frame_cycles <= FRAME_CYCLES
    &&& r is Continue ==> frame_measure(n) < frame_measure(o)
    &&& (r is Crash) <==> undefined_opcode(fetched_opcode(o))
    &&& r matches StepOutcome::Crash(c) ==> {
        &&& c.opcode == fetched_opcode(o)
        &&& c.pc == o.pc
        &&& *n == fetched(o)
    }
    &&& !(r is Crash) ==> exists|b: Gameboy, c: Gameboy|
        #![trigger opcode_effect(&fetched(o), &b, fetched_opcode(o)), interrupt_step(&booked(&b), &c)]
        opcode_effect(&fetched(o), &b, fetched_opcode(o)) && interrupt_step(&booked(&b), &c)
            && tick_rel(&c, n, r)
}

/// Each state of `states` is reached from the one before by a step that continues.
pub open spec fn continued(states: Seq<Gameboy>) -> bool {
    forall|i: int|
        0 <= i < states.len() - 1 ==> #[trigger] step_rel(&states[i], &states[i + 1], StepOutcome::Continue)
}

/// The step outcome that a result of `run_frame` stands for.
pub open spec fn outcome_of(r: Result<Vec<u32>, CrashReport>) -> StepOutcome {
    match r {
        Ok(f) => StepOutcome::Frame(f),
        Err(c) => StepOutcome::Crash(c),
    }
}

/// What latching the buttons does to `o`, giving `n`.
pub open spec fn input_handled(o: &Gameboy, n: &Gameboy, input_keys: Seq<InputKey>) -> bool {
    &&& n.wf()
    &&& n.cpu_same(o)
    &&& n.books_same(o)
    &&& n.cycles_pending == o.cycles_pending
    &&& forall|i: int|
        0 <= i < BUTTONS ==> n.other_state.input_keys@[i] == if i < input_keys.len()
            && input_keys[i].state_just_changed {
            input_keys[i]
        } else {
            o.other_state.input_keys@[i]
        }
    &&& n.other_state.int_flag == if exists|i: int|
        0 <= i < BUTTONS && i < input_keys.len() && #[trigger] input_keys[i].state_just_changed {
        o.other_state.int_flag | INT_GAMEPAD
    } else {
        o.other_state.int_flag
    }
}

/// One step of the frame driver: fetch (unless halted), resolve the delayed IME enable,
/// run the opcode, service interrupts, then tick the PPU, the divider and OAM DMA by the
/// cycles used. An undefined opcode stops the step right after its fetch.
pub fn step(gb: &mut Gameboy) -> (r: StepOutcome)
    requires
        old(gb).wf(),
        0 < old(gb).display_frame_cycles <= FRAME_CYCLES,
    ensures
        step_rel(old(gb), final(gb), r),
{
    let opcode = fetch(gb);
    if !run_opcode(gb, opcode) {
        return StepOutcome::Crash(
            CrashReport {
                opcode,
                pc: gb.pc.wrapping_sub(1),
                sp: gb.sp,
                af: gb.reg.get_af(),
                bc: gb.reg.get_bc(),
                de: gb.reg.get_de(),
                hl: gb.reg.get_hl(),
                cycles_run: gb.cycles_run,
            },
        );
    }
    let ghost b = *gb;
    gb.cycles_run = gb.cycles_run.wrapping_add(gb.cycles_pending as u64);
    assert(*gb == booked(&b));
    process_interrupts(gb);
    let ghost c = *gb;
    proof {
        lemma_frame_pos_bound(old(gb).ppu);
        assert(gb.ppu.frame_pos() == old(gb).ppu.frame_pos());
    }
    let r = tick(gb);
    assert(opcode_effect(&fetched(old(gb)), &b, fetched_opcode(old(gb))) && interrupt_step(&booked(&b), &c));
    r
}

/// Runs the machine until the PPU finishes a frame, or until an undefined opcode stops it.
/// While the PPU is off, a blank one-pixel white frame comes back after 70224 cycles. The
/// buttons are latched first, the frame budget is reset, and then steps run: every step but
/// the last continues, and the last gives the result.
pub fn run_frame(gb: &mut Gameboy, input_keys: &Vec<InputKey>) -> (r: Result<Vec<u32>, CrashReport>)
    requires
        old(gb).wf(),
        input_keys@.len() <= 13,
    ensures
        final(gb).wf(),
        exists|h: Gameboy, states: Seq<Gameboy>|
            #![trigger input_handled(old(gb), &h, input_keys@), continued(states)]
            input_handled(old(gb), &h, input_keys@) && states.len() >= 1 && states[0] == (Gameboy {
                display_frame_cycles: FRAME_CYCLES,
                ..h
            }) && continued(states) && step_rel(&states.last(), final(gb), outcome_of(r)),
        r matches Ok(f) ==> (f@ == seq![rgb_of(Color::White)] && !final(gb).ppu.regs.ppu_enabled) || (
        f@.len() == SCREEN_PIXELS && f@ == final(gb).ppu.screen@),
        r matches Err(c) ==> {
            &&& undefined_opcode(c.opcode)
            &&& c.opcode == final(gb).read_spec(c.pc)
            &&& final(gb).pc == c.pc.wrapping_add(1)
        },
{
    handle_input(gb, input_keys);
    let ghost h = *gb;
    gb.display_frame_cycles = FRAME_CYCLES;
    let ghost start = *gb;
    assert(start == Gameboy { display_frame_cycles: FRAME_CYCLES, ..h });
    let ghost mut states: Seq<Gameboy> = seq![start];
    loop
        invariant
            gb.wf(),
            0 < gb.display_frame_cycles <= FRAME_CYCLES,
            input_handled(old(gb), &h, input_keys@),
            start == (Gameboy { display_frame_cycles: FRAME_CYCLES, ..h }),
            states.len() >= 1,
            states[0] == start,
            states.last() == *gb,
            continued(states),
        decreases frame_measure(gb),
    {
        proof {
            lemma_frame_pos_bound(gb.ppu);
        }
        let ghost before = *gb;
        let r = step(gb);
        match r {
            StepOutcome::Continue => {
                proof {
                    let old_states = states;
                    states = states.push(*gb);
                    assert forall|i: int| 0 <= i < states.len() - 1 implies #[trigger] step_rel(&states[i], &states[i + 1], StepOutcome::Continue) by {
                        if i < old_states.len() - 1 {
                            assert(states[i] == old_states[i] && states[i + 1] == old_states[i + 1]);
                        }
                    }
                }
            },
            StepOutcome::Frame(f) => {
                assert(outcome_of(Ok(f)) == StepOutcome::Frame(f));
                return Ok(f);
            },
            StepOutcome::Crash(c) => {
                assert(gb.read_spec(c.pc) == before.read_spec(before.pc));
                assert(outcome_of(Err(c)) == StepOutcome::Crash(c));
                return Err(c);
            },
        }
    }
}

/// With all five interrupts enabled and requested and IME set, servicing takes VBlank: PC
/// goes to 0x40, IME is cleared, and only bit 0 of IF is cleared.
pub proof fn law_interrupt_priority(before: Gameboy, after: Gameboy)
    requires
        before.other_state.int_flag == 0x1f,
        before.other_state.int_enable == 0x1f,
        before.ime,
        stack_safe(before.sp),
        interrupt_step(&before, &after),
    ensures
        after.pc == 0x40,
        !after.ime,
        after.other_state.int_flag == 0x1e,
{
    assert(0x1fu8 & 0x1fu8 & 0x1f == 0x1f) by (bit_vector);
    assert(0x1fu8 & 0x1 != 0) by (bit_vector);
    assert(0x1fu8 & !0x1u8 == 0x1e) by (bit_vector);
}

/// EI takes effect one instruction late: an interrupt pending right after EI runs is not
/// serviced in that step, and is serviced in the next one if still pending, whatever
/// instruction other than DI runs there.
pub proof fn law_ei_delay(a: Gameboy, b: Gameboy, c: Gameboy, d: Gameboy, e: Gameboy, f: Gameboy, op: u8)
    requires
        !a.ime,
        dispatched(&a, &b, 0xfb),
        interrupt_step(&b, &c),
        d.ime == (c.ime || c.other_state.ime_next_cycle),
        dispatched(&d, &e, op),
        op != 0xf3,
        interrupt_step(&e, &f),
        e.pending() != 0,
    ensures
        c.cpu_same(&b),
        !c.ime,
        c.other_state.ime_next_cycle,
        f.pc == vector_of(e.pending()),
        !f.ime,
{
}

/// A full 160-byte OAM DMA takes 640 cycles: after 640 it has stopped and object memory
/// holds the 160 source bytes in order; with fewer cycles it is still running.
pub proof fn law_dma_full_block(before: Gameboy, after: Gameboy)
    requires
        before.wf(),
        before.other_state.oam_dma_running,
        before.other_state.oam_dma_cur_addr == 0,
        dma_source_ok(&before),
        dma_step(&before, &after),
    ensures
        before.cycles_pending >= 640 ==> {
            &&& !after.other_state.oam_dma_running
            &&& forall|i: int|
                0 <= i < OAM_SIZE ==> after.ppu.oam@[i] == before.read_raw_spec(
                    (before.other_state.oam_dma_start_addr + i) as u16,
                )
        },
        before.cycles_pending < 640 ==> after.other_state.oam_dma_running,
{
}

/// The interrupt control latches agree (pending IME enable and HALT), and the PPU is at
/// the same point of its scanline state machine.
pub open spec fn keeps_control(o: &Gameboy, n: &Gameboy) -> bool {
    &&& n.other_state.ime_next_cycle == o.other_state.ime_next_cycle
    &&& n.other_state.halted == o.other_state.halted
    &&& n.ppu.same_timing(&o.ppu)
}

/// A CPU write changes neither the pending IME enable nor HALT.
pub proof fn lemma_written_keeps_control(a: Gameboy, b: Gameboy, addr: u16, v: u8)
    requires
        a.cpu_written(&b, addr, v),
    ensures
        keeps_control(&a, &b),
{
}

/// Two CPU writes change neither the pending IME enable nor HALT.
pub proof fn lemma_short_keeps_control(a: Gameboy, b: Gameboy, addr: u16, v: u16)
    requires
        wrote_short(a, b, addr, v),
    ensures
        keeps_control(&a, &b),
{
    let mid = choose|mid: Gameboy|
        #![trigger a.cpu_written(&mid, addr, low_byte(v))]
        a.cpu_written(&mid, addr, low_byte(v)) && mid.cpu_written(&b, addr.wrapping_add(1), high_byte(v));
    lemma_written_keeps_control(a, mid, addr, low_byte(v));
    lemma_written_keeps_control(mid, b, addr.wrapping_add(1), high_byte(v));
}

} // verus!
