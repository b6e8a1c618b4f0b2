use vstd::prelude::*;

use crate::banked_memory::{BankedMemory, UNDEFINED_READ};
use vstd::arithmetic::div_mod::lemma_small_mod;

verus! {

pub const ROM_BANK_SIZE: u16 = 0x4000;
pub const RAM_BANK_SIZE: u16 = 0x2000;
pub const HEADER_MAPPER: usize = 0x147;
pub const HEADER_RAM_SIZE: usize = 0x149;
/// The smallest ROM image accepted: one that holds the cartridge header.
pub const MIN_ROM_SIZE: usize = 0x150;
/// The size of two 16 KiB banks, which every cartridge's ROM is padded to at least.
pub const TWO_BANKS: usize = 0x8000;
/// One past the largest ROM image whose bank count fits in 16 bits.
pub const ROM_SIZE_LIMIT: usize = 0x3fff_0000;

/// The length of a ROM image padded to whole 16 KiB banks, and to two banks at least.
pub open spec fn padded_len(len: int) -> int {
    if len <= 0x8000 {
        0x8000
    } else {
        ((len + 0x3fff) / 0x4000) * 0x4000
    }
}

/// A ROM image padded with 0xFF to whole banks: what the cartridge reads past the image's
/// end.
pub open spec fn padded_rom(rom: Seq<u8>) -> Seq<u8> {
    Seq::new(padded_len(rom.len() as int) as nat, |i: int| if i < rom.len() { rom[i] } else { 0xffu8 })
}

/// Pads a ROM image with 0xFF to whole 16 KiB banks, two at least.
fn pad_rom(rom: &Vec<u8>) -> (r: Vec<u8>)
    requires
        rom@.len() < ROM_SIZE_LIMIT,
    ensures
        r@ == padded_rom(rom@),
        TWO_BANKS <= r@.len() <= ROM_SIZE_LIMIT,
        r@.len() % 0x4000 == 0,
{
    let len = rom.len();
    let target: usize = if len <= TWO_BANKS {
        TWO_BANKS
    } else {
        ((len + 0x3fff) / 0x4000) * 0x4000
    };
    let mut r: Vec<u8> = Vec::new();
    let mut i: usize = 0;
    while i < target
        invariant
            i <= target,
            target == padded_len(len as int),
            len == rom@.len(),
            r@.len() == i,
            forall|j: int| 0 <= j < i ==> r@[j] == if j < len { rom@[j] } else { 0xffu8 },
        decreases target - i,
    {
        if i < len {
            r.push(rom[i]);
        } else {
            r.push(0xff);
        }
        i = i + 1;
    }
    assert(r@ =~= padded_rom(rom@));
    r
}

#[derive(Debug, Clone, Copy, PartialEq, Eq, Structural)]
pub enum MapperType {
    NoMapper,
    MBC1,
    MBC3,
}

/// The mapper that header byte 0x147 names; an unknown code is treated as MBC1.
pub open spec fn mapper_of(code: u8) -> MapperType {
    if code == 0 {
        MapperType::NoMapper
    } else if 0x0f <= code <= 0x13 {
        MapperType::MBC3
    } else {
        MapperType::MBC1
    }
}

/// The cartridge RAM that header byte 0x149 declares, as (bank count, bank size); a bank
/// count of zero means no RAM.
pub open spec fn ram_shape_of(code: u8) -> (u16, u16) {
    if code == 1 {
        (1, 0x800)
    } else if code == 2 {
        (1, 0x2000)
    } else if code == 3 {
        (4, 0x2000)
    } else {
        (0, 0)
    }
}

/// The bank that a written ROM-bank value selects before wrapping: its low bits, with zero
/// read as one.
pub open spec fn rom_select(value: u8, mask: u8) -> u16 {
    if value & mask == 0 {
        1
    } else {
        (value & mask) as u16
    }
}

/// A RAM-enable write turns RAM on exactly when its low nibble is 0xA.
pub open spec fn ram_enable_value(value: u8) -> bool {
    value & 0x0f == 0x0a
}

/// The registers of an MBC1 mapper.
pub struct MBC1Registers {
    pub ram_enabled: bool,
    pub cur_rom_bank_5b: u8,
    pub ram_rom_bank_2b: u8,
    pub banking_mode: bool,
}

impl MBC1Registers {
    pub fn new() -> (r: MBC1Registers)
        ensures
            !r.ram_enabled,
            r.cur_rom_bank_5b == 1,
            r.ram_rom_bank_2b == 0,
            !r.banking_mode,
    {
        MBC1Registers { ram_enabled: false, cur_rom_bank_5b: 1, ram_rom_bank_2b: 0, banking_mode: false }
    }

    pub open spec fn new_spec() -> MBC1Registers {
        MBC1Registers { ram_enabled: false, cur_rom_bank_5b: 1, ram_rom_bank_2b: 0, banking_mode: false }
    }

    pub open spec fn wf(&self) -> bool {
        1 <= self.cur_rom_bank_5b < 32 && self.ram_rom_bank_2b < 4
    }

    /// The bank seen at 0x4000-0x7FFF, before wrapping.
    pub open spec fn high_bank(&self) -> int {
        self.ram_rom_bank_2b as int * 32 + self.cur_rom_bank_5b as int
    }

    /// The bank seen at 0x0000-0x3FFF, before wrapping.
    pub open spec fn low_bank(&self) -> int {
        if self.banking_mode {
            self.ram_rom_bank_2b as int * 32
        } else {
            0
        }
    }

    /// The selected cartridge RAM bank.
    pub open spec fn ram_bank(&self) -> int {
        if self.banking_mode {
            self.ram_rom_bank_2b as int
        } else {
            0
        }
    }
}

/// What a cartridge RAM read at `offset` returns.
pub open spec fn cart_ram_read(ram: Option<BankedMemory>, enabled: bool, offset: u16) -> u8 {
    match ram {
        Some(m) => if enabled {
            m.read_spec(offset)
        } else {
            UNDEFINED_READ
        },
        None => UNDEFINED_READ,
    }
}

/// The cartridge RAM after a write of `value` at `offset`: only enabled RAM changes.
pub open spec fn cart_ram_written(
    before: Option<BankedMemory>,
    after: Option<BankedMemory>,
    enabled: bool,
    offset: u16,
    value: u8,
) -> bool {
    match before {
        Some(b) => match after {
            Some(a) => {
                &&& a.wf()
                &&& a.same_shape(&b)
                &&& a.bank() == b.bank()
                &&& a.data() == if enabled {
                    b.data_after_write(offset, value)
                } else {
                    b.data()
                }
            },
            None => false,
        },
        None => after is None,
    }
}

pub open spec fn ram_wf(ram: Option<BankedMemory>) -> bool {
    match ram {
        Some(m) => m.wf() && !m.is_read_only(),
        None => true,
    }
}

/// A cartridge without a mapper: 32 KiB of ROM and no RAM.
pub struct NoMapperCart {
    pub rom_data: Vec<u8>,
}

impl NoMapperCart {
    pub fn new(rom_data: Vec<u8>) -> (r: NoMapperCart)
        requires
            MIN_ROM_SIZE <= rom_data@.len() < ROM_SIZE_LIMIT,
        ensures
            r.rom_data@ == padded_rom(rom_data@),
            r.wf(),
    {
        NoMapperCart { rom_data: pad_rom(&rom_data) }
    }

    pub open spec fn wf(&self) -> bool {
        self.rom_data@.len() >= TWO_BANKS
    }

    pub open spec fn read_spec(&self, addr: u16) -> u8 {
        if addr < 0x8000 {
            self.rom_data@[addr as int]
        } else {
            UNDEFINED_READ
        }
    }

    pub fn read_byte(&self, addr: u16) -> (r: u8)
        requires
            self.wf(),
        ensures
            r == self.read_spec(addr),
    {
        if addr < 0x8000 {
            self.rom_data[addr as usize]
        } else {
            UNDEFINED_READ
        }
    }
}

/// An MBC1 cartridge. The ROM is seen through two windows onto the same bytes, one for
/// 0x0000-0x3FFF and one for 0x4000-0x7FFF.
pub struct MBC1Cart {
    pub regs: MBC1Registers,
    pub rom_low: BankedMemory,
    pub rom_high: BankedMemory,
    pub cart_ram: Option<BankedMemory>,
}

impl MBC1Cart {
    pub open spec fn wf(&self) -> bool {
        &&& self.regs.wf()
        &&& self.rom_low.wf()
        &&& self.rom_high.wf()
        &&& self.rom_low.size() == ROM_BANK_SIZE
        &&& self.rom_low.count() == self.rom_low.data().len() / 0x4000
        &&& self.rom_high.same_shape(&self.rom_low)
        &&& self.rom_low.is_read_only()
        &&& self.rom_high.data() == self.rom_low.data()
        &&& self.rom_low.bank() == self.regs.low_bank() % self.rom_low.count() as int
        &&& self.rom_high.bank() == self.regs.high_bank() % self.rom_low.count() as int
        &&& ram_wf(self.cart_ram)
        &&& self.cart_ram matches Some(m) ==> m.bank() == self.regs.ram_bank() % m.count() as int
    }

    pub open spec fn read_spec(&self, addr: u16) -> u8 {
        if addr < 0x4000 {
            self.rom_low.read_spec(addr)
        } else if addr < 0x8000 {
            self.rom_high.read_spec((addr - 0x4000) as u16)
        } else if 0xa000 <= addr < 0xc000 {
            cart_ram_read(self.cart_ram, self.regs.ram_enabled, (addr - 0xa000) as u16)
        } else {
            UNDEFINED_READ
        }
    }

    /// How a write of `value` at `addr` changes the cartridge.
    pub open spec fn write_relation(&self, after: &MBC1Cart, addr: u16, value: u8) -> bool {
        &&& after.wf()
        &&& after.rom_low.data() == self.rom_low.data()
        &&& after.rom_low.count() == self.rom_low.count()
        &&& if addr < 0x2000 {
            &&& after.regs == MBC1Registers { ram_enabled: ram_enable_value(value), ..self.regs }
            &&& after.cart_ram == self.cart_ram
        } else if addr < 0x4000 {
            &&& after.regs == MBC1Registers {
                cur_rom_bank_5b: rom_select(value, 0x1f) as u8,
                ..self.regs
            }
            &&& cart_ram_data_same(self.cart_ram, after.cart_ram)
        } else if addr < 0x6000 {
            &&& after.regs == MBC1Registers { ram_rom_bank_2b: value & 0x03, ..self.regs }
            &&& cart_ram_data_same(self.cart_ram, after.cart_ram)
        } else if addr < 0x8000 {
            &&& after.regs == MBC1Registers { banking_mode: value & 0x01 == 1, ..self.regs }
            &&& cart_ram_data_same(self.cart_ram, after.cart_ram)
        } else if 0xa000 <= addr < 0xc000 {
            &&& after.regs == self.regs
            &&& cart_ram_written(
                self.cart_ram,
                after.cart_ram,
                self.regs.ram_enabled,
                (addr - 0xa000) as u16,
                value,
            )
        } else {
            &&& after.regs == self.regs
            &&& after.cart_ram == self.cart_ram
        }
    }
}

impl MBC1Cart {
    pub fn new(rom_data: Vec<u8>) -> (r: MBC1Cart)
        requires
            MIN_ROM_SIZE <= rom_data@.len() < ROM_SIZE_LIMIT,
        ensures
            r.wf(),
            r.rom_low.data() == padded_rom(rom_data@),
            r.rom_low.count() == padded_rom(rom_data@).len() / 0x4000,
            r.regs == MBC1Registers::new_spec(),
            r.rom_low.bank() == 0,
            r.rom_high.bank() == 1,
            cart_ram_matches(r.cart_ram, rom_data@[HEADER_RAM_SIZE as int]),
    {
        let ram_code = rom_data[HEADER_RAM_SIZE];
        let rom = pad_rom(&rom_data);
        let count: u16 = (rom.len() / 0x4000) as u16;
        let copy = rom.clone();
        assert(copy@ =~= rom@);
        let rom_low = BankedMemory::new_from_arr(true, count, ROM_BANK_SIZE, copy, String::from_str("rom_low"));
        let mut rom_high = BankedMemory::new_from_arr(true, count, ROM_BANK_SIZE, rom, String::from_str("rom_high"));
        rom_high.switch_bank(1);
        let cart_ram = make_cart_ram(ram_code);
        proof {
            lemma_small_mod(0, count as nat);
            lemma_small_mod(1, count as nat);
        }
        proof {
            lemma_ram_bank_zero(cart_ram);
        }
        MBC1Cart { regs: MBC1Registers::new(), rom_low, rom_high, cart_ram }
    }

    /// Points the ROM windows and the RAM at the banks that the registers select.
    fn update_banks(&mut self)
        requires
            old(self).regs.wf(),
            old(self).rom_low.wf(),
            old(self).rom_high.wf(),
            old(self).rom_high.same_shape(&old(self).rom_low),
            ram_wf(old(self).cart_ram),
        ensures
            final(self).regs == old(self).regs,
            final(self).rom_low.same_shape(&old(self).rom_low),
            final(self).rom_high.same_shape(&old(self).rom_high),
            final(self).rom_low.data() == old(self).rom_low.data(),
            final(self).rom_high.data() == old(self).rom_high.data(),
            final(self).rom_low.wf(),
            final(self).rom_high.wf(),
            final(self).rom_low.bank() == final(self).regs.low_bank() % old(self).rom_low.count() as int,
            final(self).rom_high.bank() == final(self).regs.high_bank() % old(self).rom_low.count() as int,
            ram_wf(final(self).cart_ram),
            cart_ram_data_same(old(self).cart_ram, final(self).cart_ram),
            final(self).cart_ram matches Some(m) ==> m.bank() == final(self).regs.ram_bank() % m.count() as int,
    {
        let upper: u16 = self.regs.ram_rom_bank_2b as u16;
        let high: u16 = upper * 32 + self.regs.cur_rom_bank_5b as u16;
        let low: u16 = if self.regs.banking_mode { upper * 32 } else { 0 };
        let ram_bank: u16 = if self.regs.banking_mode { upper } else { 0 };
        self.rom_high.switch_bank(high);
        self.rom_low.switch_bank(low);
        match &mut self.cart_ram {
            Some(m) => {
                m.switch_bank(ram_bank);
            },
            None => {},
        }
    }

    pub fn read_byte(&self, addr: u16) -> (r: u8)
        requires
            self.wf(),
        ensures
            r == self.read_spec(addr),
    {
        if addr < 0x4000 {
            self.rom_low.read_byte(addr)
        } else if addr < 0x8000 {
            self.rom_high.read_byte(addr - 0x4000)
        } else if 0xa000 <= addr && addr < 0xc000 {
            read_cart_ram(&self.cart_ram, self.regs.ram_enabled, addr - 0xa000)
        } else {
            UNDEFINED_READ
        }
    }

    pub fn write_byte(&mut self, addr: u16, value: u8)
        requires
            old(self).wf(),
        ensures
            old(self).write_relation(final(self), addr, value),
    {
        if addr < 0x2000 {
            self.regs.ram_enabled = value & 0x0f == 0x0a;
        } else if addr < 0x4000 {
            let v = value & 0x1f;
            assert(v < 32) by (bit_vector)
                requires
                    v == value & 0x1f,
            ;
            self.regs.cur_rom_bank_5b = if v == 0 {
                1
            } else {
                v
            };
            self.update_banks();
        } else if addr < 0x6000 {
            let v = value & 0x03;
            assert(v < 4) by (bit_vector)
                requires
                    v == value & 0x03,
            ;
            self.regs.ram_rom_bank_2b = v;
            self.update_banks();
        } else if addr < 0x8000 {
            self.regs.banking_mode = value & 0x01 == 1;
            self.update_banks();
        } else if 0xa000 <= addr && addr < 0xc000 {
            write_cart_ram(&mut self.cart_ram, self.regs.ram_enabled, addr - 0xa000, value);
        }
    }
}

/// The cartridge RAM has the shape that header code `code` declares, and is zeroed.
pub open spec fn cart_ram_matches(ram: Option<BankedMemory>, code: u8) -> bool {
    match ram {
        Some(m) => {
            &&& ram_shape_of(code).0 > 0
            &&& m.count() == ram_shape_of(code).0
            &&& m.size() == ram_shape_of(code).1
            &&& m.bank() == 0
            &&& forall|i: int| 0 <= i < m.data().len() ==> m.data()[i] == 0
        },
        None => ram_shape_of(code).0 == 0,
    }
}

proof fn lemma_ram_bank_zero(ram: Option<BankedMemory>)
    requires
        ram_wf(ram),
    ensures
        ram matches Some(m) ==> 0int % m.count() as int == 0,
{
    if let Some(m) = ram {
        lemma_small_mod(0, m.count() as nat);
    }
}

/// Builds the cartridge RAM that header code `code` declares.
fn make_cart_ram(code: u8) -> (r: Option<BankedMemory>)
    ensures
        ram_wf(r),
        cart_ram_matches(r, code),
{
    let (count, size): (u16, u16) = if code == 1 {
        (1, 0x800)
    } else if code == 2 {
        (1, 0x2000)
    } else if code == 3 {
        (4, 0x2000)
    } else {
        (0, 0)
    };
    if count == 0 {
        None
    } else {
        Some(BankedMemory::new_empty(false, count, size, false, String::from_str("cart_ram")))
    }
}

fn read_cart_ram(ram: &Option<BankedMemory>, enabled: bool, offset: u16) -> (r: u8)
    requires
        ram_wf(*ram),
    ensures
        r == cart_ram_read(*ram, enabled, offset),
{
    match ram {
        Some(m) => if enabled {
            m.read_byte(offset)
        } else {
            UNDEFINED_READ
        },
        None => UNDEFINED_READ,
    }
}

fn write_cart_ram(ram: &mut Option<BankedMemory>, enabled: bool, offset: u16, value: u8)
    requires
        ram_wf(*old(ram)),
    ensures
        ram_wf(*final(ram)),
        cart_ram_written(*old(ram), *final(ram), enabled, offset, value),
{
    match ram {
        Some(m) => {
            if enabled {
                m.write_byte(offset, value);
            }
        },
        None => {},
    }
}

/// The cartridge RAM keeps its shape and its bytes; only the selected bank may differ.
pub open spec fn cart_ram_data_same(before: Option<BankedMemory>, after: Option<BankedMemory>) -> bool {
    match before {
        Some(b) => match after {
            Some(a) => a.same_shape(&b) && a.data() == b.data(),
            None => false,
        },
        None => after is None,
    }
}

/// An MBC3 cartridge. Its real-time clock is not modelled: writes to the clock latch are
/// accepted and ignored.
pub struct MBC3Cart {
    pub ram_timer_enabled: bool,
    pub rom_bank_number_7b: u8,
    pub ram_bank_number_2b: u8,
    pub rom_high: BankedMemory,
    pub rom_data: Vec<u8>,
    pub cart_ram: Option<BankedMemory>,
}

impl MBC3Cart {
    pub open spec fn wf(&self) -> bool {
        &&& 1 <= self.rom_bank_number_7b < 128
        &&& self.ram_bank_number_2b < 4
        &&& self.rom_high.wf()
        &&& self.rom_high.size() == ROM_BANK_SIZE
        &&& self.rom_high.is_read_only()
        &&& self.rom_high.data() == self.rom_data@
        &&& self.rom_high.count() == self.rom_data@.len() / 0x4000
        &&& self.rom_data@.len() >= TWO_BANKS
        &&& self.rom_high.bank() == self.rom_bank_number_7b as int % self.rom_high.count() as int
        &&& ram_wf(self.cart_ram)
        &&& self.cart_ram matches Some(m) ==> m.bank() == self.ram_bank_number_2b as int % m.count() as int
    }

    pub open spec fn read_spec(&self, addr: u16) -> u8 {
        if addr < 0x4000 {
            self.rom_data@[addr as int]
        } else if addr < 0x8000 {
            self.rom_high.read_spec((addr - 0x4000) as u16)
        } else if 0xa000 <= addr < 0xc000 {
            cart_ram_read(self.cart_ram, self.ram_timer_enabled, (addr - 0xa000) as u16)
        } else {
            UNDEFINED_READ
        }
    }

    pub open spec fn write_relation(&self, after: &MBC3Cart, addr: u16, value: u8) -> bool {
        &&& after.wf()
        &&& after.rom_data == self.rom_data
        &&& after.rom_high.count() == self.rom_high.count()
        &&& if addr < 0x2000 {
            &&& after.ram_timer_enabled == ram_enable_value(value)
            &&& after.rom_bank_number_7b == self.rom_bank_number_7b
            &&& after.ram_bank_number_2b == self.ram_bank_number_2b
            &&& after.cart_ram == self.cart_ram
        } else if addr < 0x4000 {
            &&& after.ram_timer_enabled == self.ram_timer_enabled
            &&& after.rom_bank_number_7b == rom_select(value, 0x7f)
            &&& after.ram_bank_number_2b == self.ram_bank_number_2b
            &&& after.cart_ram == self.cart_ram
        } else if addr < 0x6000 {
            &&& after.ram_timer_enabled == self.ram_timer_enabled
            &&& after.rom_bank_number_7b == self.rom_bank_number_7b
            &&& after.ram_bank_number_2b == value & 0x03
            &&& cart_ram_data_same(self.cart_ram, after.cart_ram)
        } else if 0xa000 <= addr < 0xc000 {
            &&& after.ram_timer_enabled == self.ram_timer_enabled
            &&& after.rom_bank_number_7b == self.rom_bank_number_7b
            &&& after.ram_bank_number_2b == self.ram_bank_number_2b
            &&& cart_ram_written(
                self.cart_ram,
                after.cart_ram,
                self.ram_timer_enabled,
                (addr - 0xa000) as u16,
                value,
            )
        } else {
            &&& after.ram_timer_enabled == self.ram_timer_enabled
            &&& after.rom_bank_number_7b == self.rom_bank_number_7b
            &&& after.ram_bank_number_2b == self.ram_bank_number_2b
            &&& after.cart_ram == self.cart_ram
        }
    }
}

impl MBC3Cart {
    pub fn new(rom_data: Vec<u8>) -> (r: MBC3Cart)
        requires
            MIN_ROM_SIZE <= rom_data@.len() < ROM_SIZE_LIMIT,
        ensures
            r.wf(),
            r.rom_data@ == padded_rom(rom_data@),
            r.rom_high.count() == padded_rom(rom_data@).len() / 0x4000,
            !r.ram_timer_enabled,
            r.rom_bank_number_7b == 1,
            r.ram_bank_number_2b == 0,
            r.rom_high.bank() == 1,
            cart_ram_matches(r.cart_ram, rom_data@[HEADER_RAM_SIZE as int]),
    {
        let ram_code = rom_data[HEADER_RAM_SIZE];
        let rom_data = pad_rom(&rom_data);
        let count: u16 = (rom_data.len() / 0x4000) as u16;
        let copy = rom_data.clone();
        assert(copy@ =~= rom_data@);
        let mut rom_high = BankedMemory::new_from_arr(true, count, ROM_BANK_SIZE, copy, String::from_str("rom_high"));
        rom_high.switch_bank(1);
        let cart_ram = make_cart_ram(ram_code);
        proof {
            lemma_small_mod(1, count as nat);
            lemma_ram_bank_zero(cart_ram);
        }
        MBC3Cart {
            ram_timer_enabled: false,
            rom_bank_number_7b: 1,
            ram_bank_number_2b: 0,
            rom_high,
            rom_data,
            cart_ram,
        }
    }

    pub fn read_byte(&self, addr: u16) -> (r: u8)
        requires
            self.wf(),
        ensures
            r == self.read_spec(addr),
    {
        if addr < 0x4000 {
            self.rom_data[addr as usize]
        } else if addr < 0x8000 {
            self.rom_high.read_byte(addr - 0x4000)
        } else if 0xa000 <= addr && addr < 0xc000 {
            read_cart_ram(&self.cart_ram, self.ram_timer_enabled, addr - 0xa000)
        } else {
            UNDEFINED_READ
        }
    }

    pub fn write_byte(&mut self, addr: u16, value: u8)
        requires
            old(self).wf(),
        ensures
            old(self).write_relation(final(self), addr, value),
    {
        if addr < 0x2000 {
            self.ram_timer_enabled = value & 0x0f == 0x0a;
        } else if addr < 0x4000 {
            let v = value & 0x7f;
            assert(v < 128) by (bit_vector)
                requires
                    v == value & 0x7f,
            ;
            self.rom_bank_number_7b = if v == 0 {
                1
            } else {
                v
            };
            self.rom_high.switch_bank(self.rom_bank_number_7b as u16);
        } else if addr < 0x6000 {
            let v = value & 0x03;
            assert(v < 4) by (bit_vector)
                requires
                    v == value & 0x03,
            ;
            self.ram_bank_number_2b = v;
            match &mut self.cart_ram {
                Some(m) => {
                    m.switch_bank(v as u16);
                },
                None => {},
            }
        } else if 0xa000 <= addr && addr < 0xc000 {
            write_cart_ram(&mut self.cart_ram, self.ram_timer_enabled, addr - 0xa000, value);
        }
    }
}

/// A cartridge, by the kind of mapper it carries.
pub enum GameCart {
    NoMapper(NoMapperCart),
    MBC1(MBC1Cart),
    MBC3(MBC3Cart),
}

impl GameCart {
    pub open spec fn wf(&self) -> bool {
        match self {
            GameCart::NoMapper(c) => c.wf(),
            GameCart::MBC1(c) => c.wf(),
            GameCart::MBC3(c) => c.wf(),
        }
    }

    pub open spec fn mapper(&self) -> MapperType {
        match self {
            GameCart::NoMapper(_) => MapperType::NoMapper,
            GameCart::MBC1(_) => MapperType::MBC1,
            GameCart::MBC3(_) => MapperType::MBC3,
        }
    }

    pub open spec fn read_spec(&self, addr: u16) -> u8 {
        match self {
            GameCart::NoMapper(c) => c.read_spec(addr),
            GameCart::MBC1(c) => c.read_spec(addr),
            GameCart::MBC3(c) => c.read_spec(addr),
        }
    }

    pub fn new(mapper_type: MapperType, rom_data: Vec<u8>) -> (r: GameCart)
        requires
            MIN_ROM_SIZE <= rom_data@.len() < ROM_SIZE_LIMIT,
        ensures
            r.wf(),
            r.mapper() == mapper_type,
            r.fresh(mapper_type, rom_data@),
            forall|a: u16| a < 0x8000 ==> r.read_spec(a) == padded_rom(rom_data@)[a as int],
            forall|a: u16| 0xa000 <= a < 0xc000 ==> r.read_spec(a) == UNDEFINED_READ,
    {
        match mapper_type {
            MapperType::NoMapper => GameCart::NoMapper(NoMapperCart::new(rom_data)),
            MapperType::MBC1 => {
                let c = MBC1Cart::new(rom_data);
                assert forall|a: u16| a < 0x8000 implies c.read_spec(a) == padded_rom(rom_data@)[a as int] by {
                    if a >= 0x4000 {
                        assert(c.rom_high.bank() == 1);
                        assert(1 * 0x4000 + (a - 0x4000) == a);
                    }
                }
                GameCart::MBC1(c)
            },
            MapperType::MBC3 => {
                let c = MBC3Cart::new(rom_data);
                assert forall|a: u16| a < 0x8000 implies c.read_spec(a) == padded_rom(rom_data@)[a as int] by {
                    if a >= 0x4000 {
                        assert(c.rom_high.bank() == 1);
                        assert(1 * 0x4000 + (a - 0x4000) == a);
                    }
                }
                GameCart::MBC3(c)
            },
        }
    }

    pub fn read_byte(&self, addr: u16) -> (r: u8)
        requires
            self.wf(),
        ensures
            r == self.read_spec(addr),
    {
        match self {
            GameCart::NoMapper(c) => c.read_byte(addr),
            GameCart::MBC1(c) => c.read_byte(addr),
            GameCart::MBC3(c) => c.read_byte(addr),
        }
    }

    pub fn write_byte(&mut self, addr: u16, value: u8)
        requires
            old(self).wf(),
        ensures
            final(self).wf(),
            final(self).mapper() == old(self).mapper(),
            old(self).write_relation(final(self), addr, value),
    {
        match self {
            GameCart::NoMapper(_) => {},
            GameCart::MBC1(c) => c.write_byte(addr, value),
            GameCart::MBC3(c) => c.write_byte(addr, value),
        }
    }

    /// Reads cartridge RAM at `offset` from its start.
    pub fn read_cart_ram_byte(&self, offset: u16) -> (r: u8)
        requires
            self.wf(),
            offset < 0x2000,
        ensures
            r == self.read_spec((0xa000 + offset) as u16),
    {
        self.read_byte(0xa000 + offset)
    }

    /// Writes cartridge RAM at `offset` from its start.
    pub fn write_cart_ram_byte(&mut self, offset: u16, value: u8)
        requires
            old(self).wf(),
            offset < 0x2000,
        ensures
            final(self).wf(),
            old(self).write_relation(final(self), (0xa000 + offset) as u16, value),
    {
        self.write_byte(0xa000 + offset, value)
    }

    pub fn get_mapper(&self) -> (r: MapperType)
        ensures
            r == self.mapper(),
    {
        match self {
            GameCart::NoMapper(_) => MapperType::NoMapper,
            GameCart::MBC1(_) => MapperType::MBC1,
            GameCart::MBC3(_) => MapperType::MBC3,
        }
    }

    /// The cartridge as freshly built from `rom` with mapper `mapper`: the ROM padded to
    /// whole banks, the
    /// mapper registers at power-on (bank 1 at 0x4000, RAM disabled), and the RAM that
    /// header byte 0x149 declares, zeroed.
    pub open spec fn fresh(&self, mapper: MapperType, rom: Seq<u8>) -> bool {
        match self {
            GameCart::NoMapper(c) => mapper == MapperType::NoMapper && c.rom_data@ == padded_rom(rom),
            GameCart::MBC1(c) => {
                &&& mapper == MapperType::MBC1
                &&& c.rom_low.data() == padded_rom(rom)
                &&& c.rom_low.count() == padded_rom(rom).len() / 0x4000
                &&& c.regs == MBC1Registers::new_spec()
                &&& cart_ram_matches(c.cart_ram, rom[HEADER_RAM_SIZE as int])
            },
            GameCart::MBC3(c) => {
                &&& mapper == MapperType::MBC3
                &&& c.rom_data@ == padded_rom(rom)
                &&& c.rom_high.count() == padded_rom(rom).len() / 0x4000
                &&& !c.ram_timer_enabled
                &&& c.rom_bank_number_7b == 1
                &&& c.ram_bank_number_2b == 0
                &&& cart_ram_matches(c.cart_ram, rom[HEADER_RAM_SIZE as int])
            },
        }
    }

    pub open spec fn write_relation(&self, after: &GameCart, addr: u16, value: u8) -> bool {
        match self {
            GameCart::NoMapper(c) => *after == *self,
            GameCart::MBC1(c) => match after {
                GameCart::MBC1(a) => c.write_relation(a, addr, value),
                _ => false,
            },
            GameCart::MBC3(c) => match after {
                GameCart::MBC3(a) => c.write_relation(a, addr, value),
                _ => false,
            },
        }
    }
}

/// The cartridge that a ROM image describes: header byte 0x147 picks the mapper and byte
/// 0x149 the size of its RAM.
pub fn get_cart(rom_data: Vec<u8>) -> (r: GameCart)
    requires
        MIN_ROM_SIZE <= rom_data@.len() < ROM_SIZE_LIMIT,
    ensures
        r.wf(),
        r.mapper() == mapper_of(rom_data@[HEADER_MAPPER as int]),
        r.fresh(mapper_of(rom_data@[HEADER_MAPPER as int]), rom_data@),
        forall|a: u16| a < 0x8000 ==> r.read_spec(a) == padded_rom(rom_data@)[a as int],
        forall|a: u16| 0xa000 <= a < 0xc000 ==> r.read_spec(a) == UNDEFINED_READ,
{
    let code = rom_data[HEADER_MAPPER];
    let mapper = if code == 0 {
        MapperType::NoMapper
    } else if 0x0f <= code && code <= 0x13 {
        MapperType::MBC3
    } else {
        MapperType::MBC1
    };
    GameCart::new(mapper, rom_data)
}

/// A write of 0 to the ROM-bank register selects bank 1, and any value selects its low five
/// bits taken modulo the bank count.
pub proof fn law_mbc1_rom_bank_select(before: MBC1Cart, after: MBC1Cart, addr: u16, value: u8)
    requires
        before.wf(),
        before.write_relation(&after, addr, value),
        0x2000 <= addr < 0x4000,
        before.regs.ram_rom_bank_2b == 0,
    ensures
        after.rom_high.bank() == rom_select(value, 0x1f) as int % before.rom_low.count() as int,
        value & 0x1f == 0 ==> after.rom_high.bank() == 1int % before.rom_low.count() as int,
        forall|o: u16|
            o < 0x4000 ==> #[trigger] after.read_spec((0x4000 + o) as u16) == before.rom_low.data()[(
            rom_select(value, 0x1f) as int % before.rom_low.count() as int) * 0x4000 + o],
        forall|o: u16| o < 0x4000 ==> #[trigger] after.read_spec(o) == before.read_spec(o),
{
}

} // verus!
