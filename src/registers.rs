use vstd::prelude::*;

verus! {

pub const FLAG_Z: u8 = 0x80;
pub const FLAG_N: u8 = 0x40;
pub const FLAG_H: u8 = 0x20;
pub const FLAG_C: u8 = 0x10;

/// The byte that the four flags pack into: Z, N, H, C in bits 7 to 4, the low nibble clear.
pub open spec fn pack_flags(z: bool, n: bool, h: bool, c: bool) -> u8 {
    ((if z { 0x80u8 } else { 0u8 }) | (if n { 0x40u8 } else { 0u8 }) | (if h { 0x20u8 } else {
        0u8
    }) | (if c { 0x10u8 } else { 0u8 })) as u8
}

/// A 16-bit pair from its high and low bytes.
pub open spec fn pair(hi: u8, lo: u8) -> u16 {
    (hi as int * 256 + lo as int) as u16
}

/// The CPU's eight 8-bit registers. F is held as its four flags, so its low nibble is zero
/// by construction.
pub struct Registers {
    pub a: u8,
    pub b: u8,
    pub c: u8,
    pub d: u8,
    pub e: u8,
    pub h: u8,
    pub l: u8,
    pub flag_z: bool,
    pub flag_n: bool,
    pub flag_h: bool,
    pub flag_c: bool,
}

impl Registers {
    pub open spec fn z(&self) -> bool {
        self.flag_z
    }

    pub open spec fn n(&self) -> bool {
        self.flag_n
    }

    pub open spec fn hf(&self) -> bool {
        self.flag_h
    }

    pub open spec fn cf(&self) -> bool {
        self.flag_c
    }

    pub open spec fn f(&self) -> u8 {
        pack_flags(self.flag_z, self.flag_n, self.flag_h, self.flag_c)
    }

    pub open spec fn af(&self) -> u16 {
        pair(self.a, self.f())
    }

    pub open spec fn bc(&self) -> u16 {
        pair(self.b, self.c)
    }

    pub open spec fn de(&self) -> u16 {
        pair(self.d, self.e)
    }

    pub open spec fn hl(&self) -> u16 {
        pair(self.h, self.l)
    }

    /// The same registers with the flags replaced.
    pub open spec fn with_flags(&self, z: bool, n: bool, h: bool, c: bool) -> Registers {
        Registers { flag_z: z, flag_n: n, flag_h: h, flag_c: c, ..*self }
    }

    pub fn new() -> (r: Registers)
        ensures
            r.a == 0 && r.b == 0 && r.c == 0 && r.d == 0 && r.e == 0 && r.h == 0 && r.l == 0,
            r.f() == 0,
            !r.z() && !r.n() && !r.hf() && !r.cf(),
    {
        let r = Registers {
            a: 0,
            b: 0,
            c: 0,
            d: 0,
            e: 0,
            h: 0,
            l: 0,
            flag_z: false,
            flag_n: false,
            flag_h: false,
            flag_c: false,
        };
        proof {
            lemma_pack_none();
        }
        r
    }

    pub fn get_f(&self) -> (r: u8)
        ensures
            r == self.f(),
            r & 0x0f == 0,
    {
        let z: u8 = if self.flag_z { FLAG_Z } else { 0 };
        let n: u8 = if self.flag_n { FLAG_N } else { 0 };
        let h: u8 = if self.flag_h { FLAG_H } else { 0 };
        let c: u8 = if self.flag_c { FLAG_C } else { 0 };
        let r = z | n | h | c;
        assert(r & 0x0f == 0) by (bit_vector)
            requires
                r == z | n | h | c,
                z == 0x80 || z == 0,
                n == 0x40 || n == 0,
                h == 0x20 || h == 0,
                c == 0x10 || c == 0,
        ;
        r
    }

    pub fn set_f(&mut self, value: u8)
        ensures
            final(self).f() == value & 0xf0,
            final(self).z() == (value & FLAG_Z != 0),
            final(self).n() == (value & FLAG_N != 0),
            final(self).hf() == (value & FLAG_H != 0),
            final(self).cf() == (value & FLAG_C != 0),
            final(self).a == old(self).a && final(self).b == old(self).b,
            final(self).c == old(self).c && final(self).d == old(self).d,
            final(self).e == old(self).e && final(self).h == old(self).h,
            final(self).l == old(self).l,
    {
        self.flag_z = value & FLAG_Z != 0;
        self.flag_n = value & FLAG_N != 0;
        self.flag_h = value & FLAG_H != 0;
        self.flag_c = value & FLAG_C != 0;
        proof {
            lemma_pack_unpack(value);
        }
    }

    pub fn get_af(&self) -> (r: u16)
        ensures
            r == self.af(),
    {
        let f = self.get_f();
        join(self.a, f)
    }

    pub fn get_bc(&self) -> (r: u16)
        ensures
            r == self.bc(),
    {
        join(self.b, self.c)
    }

    pub fn get_de(&self) -> (r: u16)
        ensures
            r == self.de(),
    {
        join(self.d, self.e)
    }

    pub fn get_hl(&self) -> (r: u16)
        ensures
            r == self.hl(),
    {
        join(self.h, self.l)
    }

    pub fn set_af(&mut self, value: u16)
        ensures
            final(self).a == high_byte(value),
            final(self).f() == low_byte(value) & 0xf0,
            final(self).z() == (low_byte(value) & FLAG_Z != 0),
            final(self).n() == (low_byte(value) & FLAG_N != 0),
            final(self).hf() == (low_byte(value) & FLAG_H != 0),
            final(self).cf() == (low_byte(value) & FLAG_C != 0),
            final(self).b == old(self).b && final(self).c == old(self).c,
            final(self).d == old(self).d && final(self).e == old(self).e,
            final(self).h == old(self).h && final(self).l == old(self).l,
    {
        let (hi, lo) = split(value);
        self.a = hi;
        self.set_f(lo);
    }

    pub fn set_bc(&mut self, value: u16)
        ensures
            *final(self) == (Registers { b: high_byte(value), c: low_byte(value), ..*old(self) }),
            final(self).bc() == value,
    {
        let (hi, lo) = split(value);
        self.b = hi;
        self.c = lo;
    }

    pub fn set_de(&mut self, value: u16)
        ensures
            *final(self) == (Registers { d: high_byte(value), e: low_byte(value), ..*old(self) }),
            final(self).de() == value,
    {
        let (hi, lo) = split(value);
        self.d = hi;
        self.e = lo;
    }

    pub fn set_hl(&mut self, value: u16)
        ensures
            *final(self) == (Registers { h: high_byte(value), l: low_byte(value), ..*old(self) }),
            final(self).hl() == value,
    {
        let (hi, lo) = split(value);
        self.h = hi;
        self.l = lo;
    }

    pub fn unset_all_flags(&mut self)
        ensures
            *final(self) == old(self).with_flags(false, false, false, false),
            final(self).f() == 0,
    {
        self.flag_z = false;
        self.flag_n = false;
        self.flag_h = false;
        self.flag_c = false;
        proof {
            lemma_pack_none();
        }
    }

    pub fn get_flag_z(&self) -> (r: bool)
        ensures
            r == self.z(),
    {
        self.flag_z
    }

    pub fn get_flag_n(&self) -> (r: bool)
        ensures
            r == self.n(),
    {
        self.flag_n
    }

    pub fn get_flag_h(&self) -> (r: bool)
        ensures
            r == self.hf(),
    {
        self.flag_h
    }

    pub fn get_flag_c(&self) -> (r: bool)
        ensures
            r == self.cf(),
    {
        self.flag_c
    }

    pub fn set_flag_z(&mut self)
        ensures
            *final(self) == old(self).with_flags(true, old(self).n(), old(self).hf(), old(self).cf()),
    {
        self.flag_z = true;
    }

    pub fn set_flag_n(&mut self)
        ensures
            *final(self) == old(self).with_flags(old(self).z(), true, old(self).hf(), old(self).cf()),
    {
        self.flag_n = true;
    }

    pub fn set_flag_h(&mut self)
        ensures
            *final(self) == old(self).with_flags(old(self).z(), old(self).n(), true, old(self).cf()),
    {
        self.flag_h = true;
    }

    pub fn set_flag_c(&mut self)
        ensures
            *final(self) == old(self).with_flags(old(self).z(), old(self).n(), old(self).hf(), true),
    {
        self.flag_c = true;
    }

    pub fn unset_flag_z(&mut self)
        ensures
            *final(self) == old(self).with_flags(false, old(self).n(), old(self).hf(), old(self).cf()),
    {
        self.flag_z = false;
    }

    pub fn unset_flag_n(&mut self)
        ensures
            *final(self) == old(self).with_flags(old(self).z(), false, old(self).hf(), old(self).cf()),
    {
        self.flag_n = false;
    }

    pub fn unset_flag_h(&mut self)
        ensures
            *final(self) == old(self).with_flags(old(self).z(), old(self).n(), false, old(self).cf()),
    {
        self.flag_h = false;
    }

    pub fn unset_flag_c(&mut self)
        ensures
            *final(self) == old(self).with_flags(old(self).z(), old(self).n(), old(self).hf(), false),
    {
        self.flag_c = false;
    }

    /// Sets all four flags at once.
    pub fn put_flags(&mut self, z: bool, n: bool, h: bool, c: bool)
        ensures
            *final(self) == old(self).with_flags(z, n, h, c),
    {
        self.flag_z = z;
        self.flag_n = n;
        self.flag_h = h;
        self.flag_c = c;
    }
}

pub open spec fn high_byte(v: u16) -> u8 {
    (v as int / 256) as u8
}

pub open spec fn low_byte(v: u16) -> u8 {
    (v as int % 256) as u8
}

/// Joins a high and a low byte into a 16-bit value.
pub fn join(hi: u8, lo: u8) -> (r: u16)
    ensures
        r == pair(hi, lo),
        high_byte(r) == hi,
        low_byte(r) == lo,
{
    let r = ((hi as u16) << 8u16) | lo as u16;
    assert(r == hi as u16 * 256 + lo as u16) by (bit_vector)
        requires
            r == ((hi as u16) << 8u16) | lo as u16,
    ;
    r
}

/// Splits a 16-bit value into its high and low bytes.
pub fn split(v: u16) -> (r: (u8, u8))
    ensures
        r.0 == high_byte(v),
        r.1 == low_byte(v),
        pair(r.0, r.1) == v,
{
    let hi = (v >> 8u16) as u8;
    let lo = (v & 0xff) as u8;
    assert(hi == v / 256 && lo == v % 256) by (bit_vector)
        requires
            hi == (v >> 8u16) as u8,
            lo == (v & 0xff) as u8,
    ;
    (hi, lo)
}

proof fn lemma_pack_none()
    ensures
        pack_flags(false, false, false, false) == 0,
{
    assert((0u8 | 0u8 | 0u8 | 0u8) == 0u8) by (bit_vector);
}

proof fn lemma_pack_unpack(value: u8)
    ensures
        pack_flags(value & 0x80 != 0, value & 0x40 != 0, value & 0x20 != 0, value & 0x10 != 0)
            == value & 0xf0,
{
    assert(((if value & 0x80 != 0 { 0x80u8 } else { 0u8 }) | (if value & 0x40 != 0 {
        0x40u8
    } else {
        0u8
    }) | (if value & 0x20 != 0 { 0x20u8 } else { 0u8 }) | (if value & 0x10 != 0 {
        0x10u8
    } else {
        0u8
    })) == value & 0xf0) by (bit_vector);
}

} // verus!
