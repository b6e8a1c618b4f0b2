use vstd::prelude::*;

use crate::registers::Registers;

verus! {

pub open spec fn bit(c: bool) -> int {
    if c {
        1
    } else {
        0
    }
}

/// The 8-bit sum `a + b + c`, wrapped.
pub open spec fn add_result(a: u8, b: u8, c: bool) -> u8 {
    ((a + b + bit(c)) % 256) as u8
}

/// Carry out of the low nibble of `a + b + c`.
pub open spec fn add_half(a: u8, b: u8, c: bool) -> bool {
    a % 16 + b % 16 + bit(c) >= 16
}

/// Carry out of bit 7 of `a + b + c`.
pub open spec fn add_carry(a: u8, b: u8, c: bool) -> bool {
    a + b + bit(c) >= 256
}

/// The 8-bit difference `a - b - c`, wrapped.
pub open spec fn sub_result(a: u8, b: u8, c: bool) -> u8 {
    ((a - b - bit(c) + 256) % 256) as u8
}

/// Borrow into the low nibble of `a - b - c`.
pub open spec fn sub_half(a: u8, b: u8, c: bool) -> bool {
    a % 16 < b % 16 + bit(c)
}

/// Borrow out of `a - b - c`.
pub open spec fn sub_carry(a: u8, b: u8, c: bool) -> bool {
    a < b + bit(c)
}

/// The registers after ALU operation `op` (ADD, ADC, SUB, SBC, AND, XOR, OR, CP in that
/// order) of A with `x`.
pub open spec fn alu_spec(op: u8, r: Registers, x: u8) -> Registers {
    let a = r.a;
    let c = r.flag_c;
    if op == 0 {
        Registers {
            a: add_result(a, x, false),
            flag_z: add_result(a, x, false) == 0,
            flag_n: false,
            flag_h: add_half(a, x, false),
            flag_c: add_carry(a, x, false),
            ..r
        }
    } else if op == 1 {
        Registers {
            a: add_result(a, x, c),
            flag_z: add_result(a, x, c) == 0,
            flag_n: false,
            flag_h: add_half(a, x, c),
            flag_c: add_carry(a, x, c),
            ..r
        }
    } else if op == 2 {
        Registers {
            a: sub_result(a, x, false),
            flag_z: sub_result(a, x, false) == 0,
            flag_n: true,
            flag_h: sub_half(a, x, false),
            flag_c: sub_carry(a, x, false),
            ..r
        }
    } else if op == 3 {
        Registers {
            a: sub_result(a, x, c),
            flag_z: sub_result(a, x, c) == 0,
            flag_n: true,
            flag_h: sub_half(a, x, c),
            flag_c: sub_carry(a, x, c),
            ..r
        }
    } else if op == 4 {
        Registers { a: a & x, flag_z: a & x == 0, flag_n: false, flag_h: true, flag_c: false, ..r }
    } else if op == 5 {
        Registers { a: a ^ x, flag_z: a ^ x == 0, flag_n: false, flag_h: false, flag_c: false, ..r }
    } else if op == 6 {
        Registers { a: a | x, flag_z: a | x == 0, flag_n: false, flag_h: false, flag_c: false, ..r }
    } else {
        Registers {
            flag_z: sub_result(a, x, false) == 0,
            flag_n: true,
            flag_h: sub_half(a, x, false),
            flag_c: sub_carry(a, x, false),
            ..r
        }
    }
}

pub fn add8(a: u8, b: u8, c: bool) -> (r: (u8, bool, bool))
    ensures
        r.0 == add_result(a, b, c),
        r.1 == add_half(a, b, c),
        r.2 == add_carry(a, b, c),
{
    let ci: u16 = if c { 1 } else { 0 };
    let sum: u16 = a as u16 + b as u16 + ci;
    let half: u16 = (a % 16) as u16 + (b % 16) as u16 + ci;
    ((sum % 256) as u8, half >= 16, sum >= 256)
}

pub fn sub8(a: u8, b: u8, c: bool) -> (r: (u8, bool, bool))
    ensures
        r.0 == sub_result(a, b, c),
        r.1 == sub_half(a, b, c),
        r.2 == sub_carry(a, b, c),
{
    let ci: u16 = if c { 1 } else { 0 };
    let diff: u16 = a as u16 + 256 - b as u16 - ci;
    (((diff % 256) as u8), ((a % 16) as u16) < (b % 16) as u16 + ci, (a as u16) < b as u16 + ci)
}

/// Applies ALU operation `op` to A and `x`.
pub fn alu_apply(op: u8, r: &mut Registers, x: u8)
    ensures
        *final(r) == alu_spec(op, *old(r), x),
{
    let a = r.a;
    let c = r.flag_c;
    if op == 0 || op == 1 {
        let (v, h, cy) = add8(a, x, op == 1 && c);
        *r = Registers { a: v, flag_z: v == 0, flag_n: false, flag_h: h, flag_c: cy, ..*r };
    } else if op == 2 || op == 3 {
        let (v, h, cy) = sub8(a, x, op == 3 && c);
        *r = Registers { a: v, flag_z: v == 0, flag_n: true, flag_h: h, flag_c: cy, ..*r };
    } else if op == 4 {
        *r = Registers { a: a & x, flag_z: a & x == 0, flag_n: false, flag_h: true, flag_c: false, ..*r };
    } else if op == 5 {
        *r = Registers { a: a ^ x, flag_z: a ^ x == 0, flag_n: false, flag_h: false, flag_c: false, ..*r };
    } else if op == 6 {
        *r = Registers { a: a | x, flag_z: a | x == 0, flag_n: false, flag_h: false, flag_c: false, ..*r };
    } else {
        let (v, h, cy) = sub8(a, x, false);
        *r = Registers { flag_z: v == 0, flag_n: true, flag_h: h, flag_c: cy, ..*r };
    }
}

/// INC of an 8-bit operand: C is kept.
pub open spec fn inc_spec(r: Registers, v: u8) -> Registers {
    Registers {
        flag_z: add_result(v, 1, false) == 0,
        flag_n: false,
        flag_h: add_half(v, 1, false),
        ..r
    }
}

/// DEC of an 8-bit operand: C is kept.
pub open spec fn dec_spec(r: Registers, v: u8) -> Registers {
    Registers {
        flag_z: sub_result(v, 1, false) == 0,
        flag_n: true,
        flag_h: sub_half(v, 1, false),
        ..r
    }
}

/// The result and carry of CB-prefixed shift or rotate `op` (RLC, RRC, RL, RR, SLA, SRA,
/// SWAP, SRL in that order) of `v` with carry-in `c`.
pub open spec fn shift_spec(op: u8, v: u8, c: bool) -> (u8, bool) {
    if op == 0 {
        (((v * 2) % 256 + v / 128) as u8, v >= 128)
    } else if op == 1 {
        ((v / 2 + (v % 2) * 128) as u8, v % 2 == 1)
    } else if op == 2 {
        (((v * 2) % 256 + bit(c)) as u8, v >= 128)
    } else if op == 3 {
        ((v / 2 + bit(c) * 128) as u8, v % 2 == 1)
    } else if op == 4 {
        (((v * 2) % 256) as u8, v >= 128)
    } else if op == 5 {
        ((v / 2 + (v / 128) * 128) as u8, v % 2 == 1)
    } else if op == 6 {
        (((v % 16) * 16 + v / 16) as u8, false)
    } else {
        ((v / 2) as u8, v % 2 == 1)
    }
}

pub fn shift(op: u8, v: u8, c: bool) -> (r: (u8, bool))
    ensures
        r == shift_spec(op, v, c),
{
    let w: u16 = v as u16;
    let ci: u16 = if c { 1 } else { 0 };
    if op == 0 {
        (((w * 2) % 256 + w / 128) as u8, v >= 128)
    } else if op == 1 {
        ((w / 2 + (w % 2) * 128) as u8, v % 2 == 1)
    } else if op == 2 {
        (((w * 2) % 256 + ci) as u8, v >= 128)
    } else if op == 3 {
        ((w / 2 + ci * 128) as u8, v % 2 == 1)
    } else if op == 4 {
        (((w * 2) % 256) as u8, v >= 128)
    } else if op == 5 {
        ((w / 2 + (w / 128) * 128) as u8, v % 2 == 1)
    } else if op == 6 {
        (((w % 16) * 16 + w / 16) as u8, false)
    } else {
        ((w / 2) as u8, v % 2 == 1)
    }
}

/// DAA: corrects A after a BCD addition or subtraction, as N, H and C describe it.
pub open spec fn daa_spec(r: Registers) -> Registers {
    let a = r.a;
    let (a1, c1) = if !r.flag_n {
        if r.flag_c || a > 0x99 {
            (((a + 0x60) % 256) as u8, true)
        } else {
            (a, r.flag_c)
        }
    } else {
        if r.flag_c {
            (((a - 0x60 + 256) % 256) as u8, r.flag_c)
        } else {
            (a, r.flag_c)
        }
    };
    let a2 = if !r.flag_n {
        if r.flag_h || a1 % 16 > 9 {
            ((a1 + 6) % 256) as u8
        } else {
            a1
        }
    } else {
        if r.flag_h {
            ((a1 - 6 + 256) % 256) as u8
        } else {
            a1
        }
    };
    Registers { a: a2, flag_z: a2 == 0, flag_h: false, flag_c: c1, ..r }
}

/// Whether byte `x` is two valid packed BCD digits.
pub open spec fn is_bcd(x: u8) -> bool {
    x % 16 <= 9 && x / 16 <= 9
}

/// The number that a packed BCD byte stands for.
pub open spec fn bcd_value(x: u8) -> int {
    (x / 16) * 10 + x % 16
}

/// A after ADD A, y from A = x and then DAA, written over the two bytes alone.
spec fn add_daa_a(x: u8, y: u8) -> u8 {
    let s = ((x + y) % 256) as u8;
    let a1 = if x + y >= 256 || s > 0x99 {
        ((s + 0x60) % 256) as u8
    } else {
        s
    };
    if x % 16 + y % 16 >= 16 || a1 % 16 > 9 {
        ((a1 + 6) % 256) as u8
    } else {
        a1
    }
}

/// C after ADD A, y from A = x and then DAA.
spec fn add_daa_c(x: u8, y: u8) -> bool {
    x + y >= 256 || ((x + y) % 256) as u8 > 0x99
}

proof fn lemma_add_daa_bcd(x: u8, y: u8)
    by (bit_vector)
    requires
        x % 16 <= 9,
        x / 16 <= 9,
        y % 16 <= 9,
        y / 16 <= 9,
    ensures
        add_daa_a(x, y) % 16 <= 9,
        add_daa_a(x, y) / 16 <= 9,
        (add_daa_a(x, y) / 16) * 10 + add_daa_a(x, y) % 16 == ((x / 16) * 10 + x % 16 + (y / 16) * 10
            + y % 16) % 100,
        add_daa_c(x, y) == ((x / 16) * 10 + x % 16 + (y / 16) * 10 + y % 16 >= 100),
{
}

/// Adding two packed BCD bytes with ADD and then applying DAA gives the packed BCD form of
/// their decimal sum modulo 100, with C set exactly when that sum reaches 100.
pub proof fn law_daa_after_add(x: u8, y: u8, r: Registers)
    requires
        is_bcd(x),
        is_bcd(y),
        r.a == x,
    ensures
        is_bcd(daa_spec(alu_spec(0, r, y)).a),
        bcd_value(daa_spec(alu_spec(0, r, y)).a) == (bcd_value(x) + bcd_value(y)) % 100,
        daa_spec(alu_spec(0, r, y)).flag_c == (bcd_value(x) + bcd_value(y) >= 100),
{
    lemma_add_daa_bcd(x, y);
    assert(daa_spec(alu_spec(0, r, y)).a == add_daa_a(x, y));
    assert(daa_spec(alu_spec(0, r, y)).flag_c == add_daa_c(x, y));
}

/// DAA right after `ADD A, y` from A = `x`, both packed BCD, leaves the packed BCD form of
/// their decimal sum modulo 100 in A, sets C exactly when that sum reaches 100, Z exactly
/// when A is zero, and clears N and H.
pub proof fn law_daa_bcd_sum(x: u8, y: u8, r: Registers)
    requires
        is_bcd(x),
        is_bcd(y),
        r.a == add_result(x, y, false),
        !r.flag_n,
        r.flag_h == add_half(x, y, false),
        r.flag_c == add_carry(x, y, false),
    ensures
        is_bcd(daa_spec(r).a),
        bcd_value(daa_spec(r).a) == (bcd_value(x) + bcd_value(y)) % 100,
        daa_spec(r).flag_c == (bcd_value(x) + bcd_value(y) >= 100),
        daa_spec(r).flag_z == (daa_spec(r).a == 0),
        !daa_spec(r).flag_n,
        !daa_spec(r).flag_h,
{
    let r0 = Registers { a: x, ..r };
    law_daa_after_add(x, y, r0);
    assert(alu_spec(0, r0, y).a == r.a);
    assert(daa_spec(r).a == daa_spec(alu_spec(0, r0, y)).a);
    assert(daa_spec(r).flag_c == daa_spec(alu_spec(0, r0, y)).flag_c);
}

/// SUB A, A gives zero whatever A held: Z and N set, H and C clear.
pub proof fn law_sub_a_a(r: Registers)
    ensures
        alu_spec(2, r, r.a).a == 0,
        alu_spec(2, r, r.a).flag_z,
        alu_spec(2, r, r.a).flag_n,
        !alu_spec(2, r, r.a).flag_h,
        !alu_spec(2, r, r.a).flag_c,
{
}

pub fn daa_apply(r: &mut Registers)
    ensures
        *final(r) == daa_spec(*old(r)),
{
    let mut a: u16 = r.a as u16;
    let mut c = r.flag_c;
    if !r.flag_n {
        if r.flag_c || a > 0x99 {
            a = (a + 0x60) % 256;
            c = true;
        }
        if r.flag_h || a % 16 > 9 {
            a = (a + 6) % 256;
        }
    } else {
        if r.flag_c {
            a = (a + 256 - 0x60) % 256;
        }
        if r.flag_h {
            a = (a + 256 - 6) % 256;
        }
    }
    let v = a as u8;
    *r = Registers { a: v, flag_z: v == 0, flag_h: false, flag_c: c, ..*r };
}

} // verus!
