use crate::mem::{lemma_high_free, lemma_two_writes, wrote, wrote2, Mem, MemView};
use crate::reg::{
    af_word, bit, gf, gr, grr, half, hi, lo, set_af, set_flags, sr, srr, with_half, word, Reg, CY,
    D, H, N, U, Z,
};
use vstd::prelude::*;

verus! {

// ---------------------------------------------------------------------------
// Results of the arithmetic and shift primitives, on plain bytes.
// ---------------------------------------------------------------------------

/// 8-bit wrapping sum.
pub open spec fn add8(a: int, b: int) -> u8 {
    ((a + b) % 256) as u8
}

/// 8-bit wrapping difference.
pub open spec fn sub8(a: int, b: int) -> u8 {
    ((a - b) % 256) as u8
}

/// 16-bit wrapping sum.
pub open spec fn add16(a: int, b: int) -> u16 {
    ((a + b) % 65536) as u16
}

/// The byte that encodes a signed offset in two's complement.
pub open spec fn byte_of(sn: i8) -> u8 {
    if sn < 0 {
        (sn + 256) as u8
    } else {
        sn as u8
    }
}

fn byte_of_exec(sn: i8) -> (u: u8)
    ensures
        u == byte_of(sn),
{
    if sn < 0 {
        (sn as i16 + 256) as u8
    } else {
        sn as u8
    }
}

/// Adds a signed offset to a 16-bit value, wrapping.
fn offset16(v: u16, sn: i8) -> (r: u16)
    ensures
        r == add16(v as int, sn as int),
{
    if sn >= 0 {
        v.wrapping_add(sn as u16)
    } else {
        v.wrapping_sub((0 - sn as i16) as u16)
    }
}

pub open spec fn carry_in(af: u16) -> int {
    if bit(af, CY) {
        1
    } else {
        0
    }
}

/// Rotate left, the old bit 7 going to bit 0.
pub open spec fn rlc8(x: u8) -> u8 {
    ((x as int * 2) % 256 + x as int / 128) as u8
}

/// Rotate left through the carry `c`.
pub open spec fn rl8(x: u8, c: int) -> u8 {
    ((x as int * 2) % 256 + c) as u8
}

/// Rotate right, the old bit 0 going to bit 7.
pub open spec fn rrc8(x: u8) -> u8 {
    (x as int / 2 + (x as int % 2) * 128) as u8
}

/// Rotate right through the carry `c`.
pub open spec fn rr8(x: u8, c: int) -> u8 {
    (x as int / 2 + c * 128) as u8
}

/// Arithmetic shift left.
pub open spec fn sla8(x: u8) -> u8 {
    ((x as int * 2) % 256) as u8
}

/// Arithmetic shift right: bit 7 is kept.
pub open spec fn sra8(x: u8) -> u8 {
    (x as int / 2 + (x as int / 128) * 128) as u8
}

/// Logical shift right.
pub open spec fn srl8(x: u8) -> u8 {
    (x as int / 2) as u8
}

/// Exchange of the two nibbles.
pub open spec fn swap8(x: u8) -> u8 {
    ((x as int % 16) * 16 + x as int / 16) as u8
}

/// Accumulator after the decimal adjustment, given the N, H and CY flags.
pub open spec fn daa_a(a: u8, n: bool, h: bool, cy: bool) -> u8 {
    if n {
        let a1 = if cy {
            sub8(a as int, 0x60)
        } else {
            a
        };
        if h {
            sub8(a1 as int, 0x6)
        } else {
            a1
        }
    } else {
        let a1 = if cy || a > 0x99 {
            add8(a as int, 0x60)
        } else {
            a
        };
        if h || a1 % 16 > 9 {
            add8(a1 as int, 0x6)
        } else {
            a1
        }
    }
}

/// Carry after the decimal adjustment.
pub open spec fn daa_cy(a: u8, n: bool, cy: bool) -> bool {
    if n {
        cy
    } else {
        cy || a > 0x99
    }
}

/// The AF word after an operation that writes flags only.
pub open spec fn with_flags(af: u16, z: bool, n: bool, h: bool, cy: bool) -> u16 {
    af_word(hi(af), lo(af), z, n, h, cy)
}

// ---------------------------------------------------------------------------
// AF after the accumulator operations
// ---------------------------------------------------------------------------

/// AF after `ADD A, n`.
pub open spec fn add_af(af: u16, n: u8) -> u16 {
    af_word(
        add8(hi(af) as int, n as int),
        lo(af),
        add8(hi(af) as int, n as int) == 0,
        false,
        n as int % 16 + hi(af) as int % 16 > 15,
        n as int + hi(af) as int > 255,
    )
}

/// AF after `ADC A, n`.
pub open spec fn adc_af(af: u16, n: u8) -> u16 {
    af_word(
        add8(hi(af) as int + n as int, carry_in(af)),
        lo(af),
        add8(hi(af) as int + n as int, carry_in(af)) == 0,
        false,
        n as int % 16 + hi(af) as int % 16 + carry_in(af) > 15,
        n as int + hi(af) as int + carry_in(af) > 255,
    )
}

/// AF after `SUB n`.
pub open spec fn sub_af(af: u16, n: u8) -> u16 {
    af_word(
        sub8(hi(af) as int, n as int),
        lo(af),
        sub8(hi(af) as int, n as int) == 0,
        true,
        n % 16 > hi(af) % 16,
        n > hi(af),
    )
}

/// AF after `SBC A, n`.
pub open spec fn sbc_af(af: u16, n: u8) -> u16 {
    af_word(
        sub8(hi(af) as int - n as int, carry_in(af)),
        lo(af),
        sub8(hi(af) as int - n as int, carry_in(af)) == 0,
        true,
        n as int % 16 + carry_in(af) > hi(af) as int % 16,
        n as int + carry_in(af) > hi(af) as int,
    )
}

/// AF after `AND n`.
pub open spec fn and_af(af: u16, n: u8) -> u16 {
    af_word(
        hi(af) & n,
        lo(af),
        hi(af) & n == 0,
        false,
        true,
        false,
    )
}

/// AF after `XOR n`.
pub open spec fn xor_af(af: u16, n: u8) -> u16 {
    af_word(
        hi(af) ^ n,
        lo(af),
        hi(af) ^ n == 0,
        false,
        false,
        false,
    )
}

/// AF after `OR n`.
pub open spec fn or_af(af: u16, n: u8) -> u16 {
    af_word(
        hi(af) | n,
        lo(af),
        hi(af) | n == 0,
        false,
        false,
        false,
    )
}

/// AF after `CP n`.
pub open spec fn cp_af(af: u16, n: u8) -> u16 {
    with_flags(
        af,
        hi(af) == n,
        true,
        n % 16 > hi(af) % 16,
        n > hi(af),
    )
}

fn cy_in(af: &Reg) -> (c: u8)
    ensures
        c as int == carry_in(af@),
{
    if gf((af, CY)) {
        1
    } else {
        0
    }
}

// ---------------------------------------------------------------------------
// 8-bit loads
// ---------------------------------------------------------------------------

pub fn ld_r_n(r: (&mut Reg, bool), n: u8) -> (t: bool)
    ensures
        t,
        final(r.0)@ == with_half(old(r.0)@, r.1, n),
{
    sr(r, n);
    true
}

// ---------------------------------------------------------------------------
// 16-bit loads
// ---------------------------------------------------------------------------

pub fn ld_rr_nn(rr: &mut Reg, nn: u16) -> (t: bool)
    ensures
        t,
        final(rr)@ == nn,
{
    srr(rr, nn);
    true
}

/// `LD HL, SP+s8`: `rr1 = rr2 + sn`; Z and N cleared, H and CY from the
/// unsigned addition of the low byte.
pub fn ld_rr_rrpsn(f: &mut Reg, rr1: &mut Reg, rr2: &Reg, sn: i8) -> (t: bool)
    ensures
        t,
        final(rr1)@ == add16(rr2@ as int, sn as int),
        final(f)@ == with_flags(
            old(f)@,
            false,
            false,
            rr2@ as int % 16 + byte_of(sn) as int % 16 > 15,
            rr2@ as int % 256 + byte_of(sn) as int > 255,
        ),
{
    let tmp = grr(rr2);
    let u = byte_of_exec(sn);
    let h = tmp % 16 + (u % 16) as u16 > 15;
    let c = tmp % 256 + u as u16 > 255;
    set_flags(f, false, false, h, c);
    srr(rr1, offset16(tmp, sn));
    true
}

// ---------------------------------------------------------------------------
// 8-bit arithmetic on the accumulator
// ---------------------------------------------------------------------------

pub fn add_n(af: &mut Reg, n: u8) -> (t: bool)
    ensures
        t,
        final(af)@ == add_af(old(af)@, n),
{
    let tmp = gr((af, U));
    let result = tmp.wrapping_add(n);
    set_af(af, result, result == 0, false, n % 16 + tmp % 16 > 15, n as u16 + tmp as u16 > 255);
    true
}

pub fn adc_n(af: &mut Reg, n: u8) -> (t: bool)
    ensures
        t,
        final(af)@ == adc_af(old(af)@, n),
{
    let tmp = gr((af, U));
    let c = cy_in(af);
    let result = tmp.wrapping_add(n).wrapping_add(c);
    set_af(
        af,
        result,
        result == 0,
        false,
        n % 16 + tmp % 16 + c > 15,
        n as u16 + tmp as u16 + c as u16 > 255,
    );
    true
}

pub fn sub_n(af: &mut Reg, n: u8) -> (t: bool)
    ensures
        t,
        final(af)@ == sub_af(old(af)@, n),
{
    let tmp = gr((af, U));
    let result = tmp.wrapping_sub(n);
    set_af(af, result, result == 0, true, n % 16 > tmp % 16, n > tmp);
    true
}

pub fn sbc_n(af: &mut Reg, n: u8) -> (t: bool)
    ensures
        t,
        final(af)@ == sbc_af(old(af)@, n),
{
    let tmp = gr((af, U));
    let c = cy_in(af);
    let result = tmp.wrapping_sub(n).wrapping_sub(c);
    set_af(af, result, result == 0, true, n % 16 + c > tmp % 16, n as u16 + c as u16 > tmp as u16);
    true
}

pub fn and_n(af: &mut Reg, n: u8) -> (t: bool)
    ensures
        t,
        final(af)@ == and_af(old(af)@, n),
{
    let result = gr((af, U)) & n;
    set_af(af, result, result == 0, false, true, false);
    true
}

pub fn xor_n(af: &mut Reg, n: u8) -> (t: bool)
    ensures
        t,
        final(af)@ == xor_af(old(af)@, n),
{
    let result = gr((af, U)) ^ n;
    set_af(af, result, result == 0, false, false, false);
    true
}

pub fn or_n(af: &mut Reg, n: u8) -> (t: bool)
    ensures
        t,
        final(af)@ == or_af(old(af)@, n),
{
    let result = gr((af, U)) | n;
    set_af(af, result, result == 0, false, false, false);
    true
}

/// Compare: the flags of `SUB n`, the accumulator unchanged.
pub fn cp_n(af: &mut Reg, n: u8) -> (t: bool)
    ensures
        t,
        final(af)@ == cp_af(old(af)@, n),
{
    let tmp = gr((af, U));
    set_flags(af, tmp.wrapping_sub(n) == 0, true, n % 16 > tmp % 16, n > tmp);
    true
}

/// Increment of an 8-bit register other than A; CY is kept.
pub fn inc_r(f: &mut Reg, r: (&mut Reg, bool)) -> (t: bool)
    ensures
        t,
        final(r.0)@ == with_half(old(r.0)@, r.1, add8(half(old(r.0)@, r.1) as int, 1)),
        final(f)@ == with_flags(
            old(f)@,
            add8(half(old(r.0)@, r.1) as int, 1) == 0,
            false,
            half(old(r.0)@, r.1) % 16 == 15,
            bit(old(f)@, CY),
        ),
{
    let tmp = gr((r.0, r.1));
    let result = tmp.wrapping_add(1);
    sr(r, result);
    let c = gf((f, CY));
    set_flags(f, result == 0, false, tmp % 16 == 15, c);
    true
}

/// Increment of the accumulator; CY is kept.
pub fn inc(af: &mut Reg) -> (t: bool)
    ensures
        t,
        final(af)@ == af_word(
            add8(hi(old(af)@) as int, 1),
            lo(old(af)@),
            add8(hi(old(af)@) as int, 1) == 0,
            false,
            hi(old(af)@) % 16 == 15,
            bit(old(af)@, CY),
        ),
{
    let tmp = gr((af, U));
    let result = tmp.wrapping_add(1);
    let c = gf((af, CY));
    set_af(af, result, result == 0, false, tmp % 16 == 15, c);
    true
}

/// Decrement of an 8-bit register other than A; CY is kept.
pub fn dec_r(f: &mut Reg, r: (&mut Reg, bool)) -> (t: bool)
    ensures
        t,
        final(r.0)@ == with_half(old(r.0)@, r.1, sub8(half(old(r.0)@, r.1) as int, 1)),
        final(f)@ == with_flags(
            old(f)@,
            sub8(half(old(r.0)@, r.1) as int, 1) == 0,
            true,
            half(old(r.0)@, r.1) % 16 == 0,
            bit(old(f)@, CY),
        ),
{
    let tmp = gr((r.0, r.1));
    let result = tmp.wrapping_sub(1);
    sr(r, result);
    let c = gf((f, CY));
    set_flags(f, result == 0, true, tmp % 16 == 0, c);
    true
}

/// Decrement of the accumulator; CY is kept.
pub fn dec(af: &mut Reg) -> (t: bool)
    ensures
        t,
        final(af)@ == af_word(
            sub8(hi(old(af)@) as int, 1),
            lo(old(af)@),
            sub8(hi(old(af)@) as int, 1) == 0,
            true,
            hi(old(af)@) % 16 == 0,
            bit(old(af)@, CY),
        ),
{
    let tmp = gr((af, U));
    let result = tmp.wrapping_sub(1);
    let c = gf((af, CY));
    set_af(af, result, result == 0, true, tmp % 16 == 0, c);
    true
}

/// Complement of the accumulator; N and H set.
pub fn cpl(af: &mut Reg) -> (t: bool)
    ensures
        t,
        final(af)@ == af_word(
            (255 - hi(old(af)@)) as u8,
            lo(old(af)@),
            bit(old(af)@, Z),
            true,
            true,
            bit(old(af)@, CY),
        ),
{
    let result = 255 - gr((af, U));
    let z = gf((af, Z));
    let c = gf((af, CY));
    set_af(af, result, z, true, true, c);
    true
}

/// Set carry; N and H cleared.
pub fn scf(f: &mut Reg) -> (t: bool)
    ensures
        t,
        final(f)@ == with_flags(old(f)@, bit(old(f)@, Z), false, false, true),
{
    let z = gf((f, Z));
    set_flags(f, z, false, false, true);
    true
}

/// Complement carry; N and H cleared.
pub fn ccf(f: &mut Reg) -> (t: bool)
    ensures
        t,
        final(f)@ == with_flags(old(f)@, bit(old(f)@, Z), false, false, !bit(old(f)@, CY)),
{
    let z = gf((f, Z));
    let result = !gf((f, CY));
    set_flags(f, z, false, false, result);
    true
}

fn daa8(a: u8, n: bool, h: bool, cy: bool) -> (r: (u8, bool))
    ensures
        r.0 == daa_a(a, n, h, cy),
        r.1 == daa_cy(a, n, cy),
{
    if n {
        let a1 = if cy {
            a.wrapping_sub(0x60)
        } else {
            a
        };
        let a2 = if h {
            a1.wrapping_sub(0x6)
        } else {
            a1
        };
        (a2, cy)
    } else {
        let c1 = cy || a > 0x99;
        let a1 = if c1 {
            a.wrapping_add(0x60)
        } else {
            a
        };
        let a2 = if h || a1 % 16 > 9 {
            a1.wrapping_add(0x6)
        } else {
            a1
        };
        (a2, c1)
    }
}

/// Decimal adjustment of the accumulator after a BCD addition or
/// subtraction: Z and CY updated, H cleared, N kept.
pub fn daa(af: &mut Reg) -> (t: bool)
    ensures
        t,
        final(af)@ == af_word(
            daa_a(hi(old(af)@), bit(old(af)@, N), bit(old(af)@, H), bit(old(af)@, CY)),
            lo(old(af)@),
            daa_a(hi(old(af)@), bit(old(af)@, N), bit(old(af)@, H), bit(old(af)@, CY)) == 0,
            bit(old(af)@, N),
            false,
            daa_cy(hi(old(af)@), bit(old(af)@, N), bit(old(af)@, CY)),
        ),
{
    let a = gr((af, U));
    let n = gf((af, N));
    let h = gf((af, H));
    let c0 = gf((af, CY));
    let (tmp, c) = daa8(a, n, h, c0);
    set_af(af, tmp, tmp == 0, n, false, c);
    true
}

// ---------------------------------------------------------------------------
// Jumps
// ---------------------------------------------------------------------------

/// Absolute jump when `cc` holds; the result says whether it was taken.
pub fn jp_cc_nn(pc: &mut Reg, cc: bool, nn: u16) -> (t: bool)
    ensures
        t == cc,
        final(pc)@ == (if cc { nn } else { old(pc)@ }),
{
    if cc {
        srr(pc, nn);
        return true;
    }
    false
}

/// Relative jump by the signed offset `sn` when `cc` holds.
pub fn jr_cc_sn(pc: &mut Reg, cc: bool, sn: i8) -> (t: bool)
    ensures
        t == cc,
        final(pc)@ == (if cc { add16(old(pc)@ as int, sn as int) } else { old(pc)@ }),
{
    if cc {
        let v = offset16(grr(pc), sn);
        srr(pc, v);
        return true;
    }
    false
}

// ---------------------------------------------------------------------------
// 16-bit arithmetic
// ---------------------------------------------------------------------------

pub fn inc_rr(rr: &mut Reg) -> (t: bool)
    ensures
        t,
        final(rr)@ == add16(old(rr)@ as int, 1),
{
    let v = grr(rr).wrapping_add(1);
    srr(rr, v);
    true
}

pub fn dec_rr(rr: &mut Reg) -> (t: bool)
    ensures
        t,
        final(rr)@ == add16(old(rr)@ as int, -1),
{
    let v = grr(rr).wrapping_sub(1);
    srr(rr, v);
    true
}

/// `ADD HL, rr`: N cleared, H from bit 11, CY from bit 15, Z kept.
pub fn add_rr_nn(af: &mut Reg, rr: &mut Reg, nn: u16) -> (t: bool)
    ensures
        t,
        final(rr)@ == add16(old(rr)@ as int, nn as int),
        final(af)@ == with_flags(
            old(af)@,
            bit(old(af)@, Z),
            false,
            nn as int % 4096 + old(rr)@ as int % 4096 > 4095,
            nn as int + old(rr)@ as int > 65535,
        ),
{
    let tmp = grr(rr);
    srr(rr, tmp.wrapping_add(nn));
    let z = gf((af, Z));
    set_flags(af, z, false, nn % 4096 + tmp % 4096 > 4095, nn as u32 + tmp as u32 > 65535);
    true
}

/// `ADD SP, s8`: Z and N cleared, H and CY from the low-byte addition.
pub fn add_rr_sn(af: &mut Reg, rr: &mut Reg, sn: i8) -> (t: bool)
    ensures
        t,
        final(rr)@ == add16(old(rr)@ as int, sn as int),
        final(af)@ == with_flags(
            old(af)@,
            false,
            false,
            old(rr)@ as int % 16 + byte_of(sn) as int % 16 > 15,
            old(rr)@ as int % 256 + byte_of(sn) as int > 255,
        ),
{
    let tmp = grr(rr);
    let u = byte_of_exec(sn);
    srr(rr, offset16(tmp, sn));
    set_flags(af, false, false, tmp % 16 + (u % 16) as u16 > 15, tmp % 256 + u as u16 > 255);
    true
}

// ---------------------------------------------------------------------------
// Rotations of the accumulator
// ---------------------------------------------------------------------------

/// `RLCA` (with `res_z`, Z forced to 0) or `RLC A` (Z from the result).
pub fn rlca(af: &mut Reg, res_z: bool) -> (t: bool)
    ensures
        t,
        final(af)@ == af_word(
            rlc8(hi(old(af)@)),
            lo(old(af)@),
            !res_z && rlc8(hi(old(af)@)) == 0,
            false,
            false,
            hi(old(af)@) >= 128,
        ),
{
    let tmp = gr((af, U));
    let result = (tmp % 128) * 2 + tmp / 128;
    set_af(af, result, !res_z && result == 0, false, false, tmp >= 128);
    true
}

pub fn rla(af: &mut Reg, res_z: bool) -> (t: bool)
    ensures
        t,
        final(af)@ == af_word(
            rl8(hi(old(af)@), carry_in(old(af)@)),
            lo(old(af)@),
            !res_z && rl8(hi(old(af)@), carry_in(old(af)@)) == 0,
            false,
            false,
            hi(old(af)@) >= 128,
        ),
{
    let tmp = gr((af, U));
    let c = cy_in(af);
    let result = (tmp % 128) * 2 + c;
    set_af(af, result, !res_z && result == 0, false, false, tmp >= 128);
    true
}

pub fn rrca(af: &mut Reg, res_z: bool) -> (t: bool)
    ensures
        t,
        final(af)@ == af_word(
            rrc8(hi(old(af)@)),
            lo(old(af)@),
            !res_z && rrc8(hi(old(af)@)) == 0,
            false,
            false,
            hi(old(af)@) % 2 == 1,
        ),
{
    let tmp = gr((af, U));
    let result = tmp / 2 + (tmp % 2) * 128;
    set_af(af, result, !res_z && result == 0, false, false, tmp % 2 == 1);
    true
}

pub fn rra(af: &mut Reg, res_z: bool) -> (t: bool)
    ensures
        t,
        final(af)@ == af_word(
            rr8(hi(old(af)@), carry_in(old(af)@)),
            lo(old(af)@),
            !res_z && rr8(hi(old(af)@), carry_in(old(af)@)) == 0,
            false,
            false,
            hi(old(af)@) % 2 == 1,
        ),
{
    let tmp = gr((af, U));
    let c = cy_in(af);
    let result = tmp / 2 + c * 128;
    set_af(af, result, !res_z && result == 0, false, false, tmp % 2 == 1);
    true
}

// ---------------------------------------------------------------------------
// Prefixed rotations and shifts of a register other than A
// ---------------------------------------------------------------------------

pub fn rlc_r(af: &mut Reg, r: (&mut Reg, bool)) -> (t: bool)
    ensures
        t,
        final(r.0)@ == with_half(old(r.0)@, r.1, rlc8(half(old(r.0)@, r.1))),
        final(af)@ == with_flags(
            old(af)@,
            rlc8(half(old(r.0)@, r.1)) == 0,
            false,
            false,
            half(old(r.0)@, r.1) >= 128,
        ),
{
    let tmp = gr((r.0, r.1));
    let result = (tmp % 128) * 2 + tmp / 128;
    set_flags(af, result == 0, false, false, tmp >= 128);
    sr(r, result);
    true
}

pub fn rl_r(af: &mut Reg, r: (&mut Reg, bool)) -> (t: bool)
    ensures
        t,
        final(r.0)@ == with_half(old(r.0)@, r.1, rl8(half(old(r.0)@, r.1), carry_in(old(af)@))),
        final(af)@ == with_flags(
            old(af)@,
            rl8(half(old(r.0)@, r.1), carry_in(old(af)@)) == 0,
            false,
            false,
            half(old(r.0)@, r.1) >= 128,
        ),
{
    let tmp = gr((r.0, r.1));
    let c = cy_in(af);
    let result = (tmp % 128) * 2 + c;
    set_flags(af, result == 0, false, false, tmp >= 128);
    sr(r, result);
    true
}

pub fn rrc_r(af: &mut Reg, r: (&mut Reg, bool)) -> (t: bool)
    ensures
        t,
        final(r.0)@ == with_half(old(r.0)@, r.1, rrc8(half(old(r.0)@, r.1))),
        final(af)@ == with_flags(
            old(af)@,
            rrc8(half(old(r.0)@, r.1)) == 0,
            false,
            false,
            half(old(r.0)@, r.1) % 2 == 1,
        ),
{
    let tmp = gr((r.0, r.1));
    let result = tmp / 2 + (tmp % 2) * 128;
    set_flags(af, result == 0, false, false, tmp % 2 == 1);
    sr(r, result);
    true
}

pub fn rr_r(af: &mut Reg, r: (&mut Reg, bool)) -> (t: bool)
    ensures
        t,
        final(r.0)@ == with_half(old(r.0)@, r.1, rr8(half(old(r.0)@, r.1), carry_in(old(af)@))),
        final(af)@ == with_flags(
            old(af)@,
            rr8(half(old(r.0)@, r.1), carry_in(old(af)@)) == 0,
            false,
            false,
            half(old(r.0)@, r.1) % 2 == 1,
        ),
{
    let tmp = gr((r.0, r.1));
    let c = cy_in(af);
    let result = tmp / 2 + c * 128;
    set_flags(af, result == 0, false, false, tmp % 2 == 1);
    sr(r, result);
    true
}

pub fn sla_r(af: &mut Reg, r: (&mut Reg, bool)) -> (t: bool)
    ensures
        t,
        final(r.0)@ == with_half(old(r.0)@, r.1, sla8(half(old(r.0)@, r.1))),
        final(af)@ == with_flags(
            old(af)@,
            sla8(half(old(r.0)@, r.1)) == 0,
            false,
            false,
            half(old(r.0)@, r.1) >= 128,
        ),
{
    let tmp = gr((r.0, r.1));
    let result = (tmp % 128) * 2;
    set_flags(af, result == 0, false, false, tmp >= 128);
    sr(r, result);
    true
}

pub fn sra_r(af: &mut Reg, r: (&mut Reg, bool)) -> (t: bool)
    ensures
        t,
        final(r.0)@ == with_half(old(r.0)@, r.1, sra8(half(old(r.0)@, r.1))),
        final(af)@ == with_flags(
            old(af)@,
            sra8(half(old(r.0)@, r.1)) == 0,
            false,
            false,
            half(old(r.0)@, r.1) % 2 == 1,
        ),
{
    let tmp = gr((r.0, r.1));
    let result = tmp / 2 + (tmp / 128) * 128;
    set_flags(af, result == 0, false, false, tmp % 2 == 1);
    sr(r, result);
    true
}

pub fn srl_r(af: &mut Reg, r: (&mut Reg, bool)) -> (t: bool)
    ensures
        t,
        final(r.0)@ == with_half(old(r.0)@, r.1, srl8(half(old(r.0)@, r.1))),
        final(af)@ == with_flags(
            old(af)@,
            srl8(half(old(r.0)@, r.1)) == 0,
            false,
            false,
            half(old(r.0)@, r.1) % 2 == 1,
        ),
{
    let tmp = gr((r.0, r.1));
    let result = tmp / 2;
    set_flags(af, result == 0, false, false, tmp % 2 == 1);
    sr(r, result);
    true
}

pub fn swap_r(af: &mut Reg, r: (&mut Reg, bool)) -> (t: bool)
    ensures
        t,
        final(r.0)@ == with_half(old(r.0)@, r.1, swap8(half(old(r.0)@, r.1))),
        final(af)@ == with_flags(old(af)@, swap8(half(old(r.0)@, r.1)) == 0, false, false, false),
{
    let tmp = gr((r.0, r.1));
    let result = (tmp % 16) * 16 + tmp / 16;
    set_flags(af, result == 0, false, false, false);
    sr(r, result);
    true
}

// ---------------------------------------------------------------------------
// Bit operations
// ---------------------------------------------------------------------------

/// `BIT`: Z set iff the bits of `msk` are clear in `n`; N cleared, H set,
/// CY kept. Only the flags change.
pub fn bit_msk_n(af: &mut Reg, msk: u8, n: u8) -> (t: bool)
    ensures
        t,
        final(af)@ == with_flags(old(af)@, n & msk == 0, false, true, bit(old(af)@, CY)),
{
    let c = gf((af, CY));
    set_flags(af, n & msk == 0, false, true, c);
    true
}

/// Value after `RES`: the bits of `msk` cleared.
pub open spec fn res8(x: u8, msk: u8) -> u8 {
    x & !msk
}

/// Value after `SET`: the bits of `msk` set.
pub open spec fn set8(x: u8, msk: u8) -> u8 {
    x | msk
}

pub fn res_msk_r(msk: u8, r: (&mut Reg, bool)) -> (t: bool)
    ensures
        t,
        final(r.0)@ == with_half(old(r.0)@, r.1, res8(half(old(r.0)@, r.1), msk)),
{
    let tmp = gr((r.0, r.1)) & !msk;
    sr(r, tmp);
    true
}

pub fn set_msk_r(msk: u8, r: (&mut Reg, bool)) -> (t: bool)
    ensures
        t,
        final(r.0)@ == with_half(old(r.0)@, r.1, set8(half(old(r.0)@, r.1), msk)),
{
    let tmp = gr((r.0, r.1)) | msk;
    sr(r, tmp);
    true
}

/// Clearing a set of bits and setting them again gives the value with them
/// set, and the other way round; doing either twice is doing it once; the
/// bits outside the mask are never touched.
pub proof fn lemma_res_set(x: u8, msk: u8)
    ensures
        set8(res8(x, msk), msk) == set8(x, msk),
        res8(set8(x, msk), msk) == res8(x, msk),
        res8(res8(x, msk), msk) == res8(x, msk),
        set8(set8(x, msk), msk) == set8(x, msk),
        res8(x, msk) & !msk == x & !msk,
        set8(x, msk) & !msk == x & !msk,
        res8(x, msk) & msk == 0,
        set8(x, msk) & msk == msk,
{
    assert((x & !msk) | msk == x | msk) by (bit_vector);
    assert((x | msk) & !msk == x & !msk) by (bit_vector);
    assert((x & !msk) & !msk == x & !msk) by (bit_vector);
    assert((x | msk) | msk == x | msk) by (bit_vector);
    assert((x | msk) & msk == msk) by (bit_vector);
    assert((x & !msk) & msk == 0) by (bit_vector);
}

// ---------------------------------------------------------------------------
// Loads and stores through the bus
// ---------------------------------------------------------------------------

/// `LD (rr), n`.
pub fn ld_arr_n(m: &mut Mem, rr: &Reg, n: u8) -> (t: bool)
    requires
        old(m).wf(),
    ensures
        t,
        final(m).wf(),
        wrote(old(m)@, final(m)@, rr@, n),
{
    m.nu_set(grr(rr), n);
    true
}

/// `LD (nn), r`.
pub fn ld_ann_r(m: &mut Mem, nn: u16, r: (&Reg, bool)) -> (t: bool)
    requires
        old(m).wf(),
    ensures
        t,
        final(m).wf(),
        wrote(old(m)@, final(m)@, nn, half(r.0@, r.1)),
{
    m.nu_set(nn, gr(r));
    true
}

/// `LD r, (nn)`.
pub fn ld_r_ann(m: &Mem, r: (&mut Reg, bool), nn: u16) -> (t: bool)
    requires
        m.wf(),
    ensures
        t,
        final(r.0)@ == with_half(old(r.0)@, r.1, m@.get(nn, false)),
{
    sr(r, m.nu_get(nn));
    true
}

/// `LDH (n), r`: a store to 0xff00 + n.
pub fn ldh_an_r(m: &mut Mem, n: u8, r: (&Reg, bool)) -> (t: bool)
    requires
        old(m).wf(),
    ensures
        t,
        final(m).wf(),
        wrote(old(m)@, final(m)@, (0xff00 + n) as u16, half(r.0@, r.1)),
{
    m.nu_set(0xff00 + n as u16, gr(r));
    true
}

/// `LDH (r1), r2`: a store to 0xff00 + r1.
pub fn ldh_ar_r(m: &mut Mem, r1: (&Reg, bool), r2: (&Reg, bool)) -> (t: bool)
    requires
        old(m).wf(),
    ensures
        t,
        final(m).wf(),
        wrote(old(m)@, final(m)@, (0xff00 + half(r1.0@, r1.1)) as u16, half(r2.0@, r2.1)),
{
    m.nu_set(0xff00 + gr(r1) as u16, gr(r2));
    true
}

/// `LDH r, (n)`: a load from 0xff00 + n.
pub fn ldh_r_an(m: &Mem, r: (&mut Reg, bool), n: u8) -> (t: bool)
    requires
        m.wf(),
    ensures
        t,
        final(r.0)@ == with_half(old(r.0)@, r.1, m@.get((0xff00 + n) as u16, false)),
{
    sr(r, m.nu_get(0xff00 + n as u16));
    true
}

/// `LD (HL+), r`: store, then increment the address register.
pub fn ld_arri_r(m: &mut Mem, rr: &mut Reg, r: (&Reg, bool)) -> (t: bool)
    requires
        old(m).wf(),
    ensures
        t,
        final(m).wf(),
        wrote(old(m)@, final(m)@, old(rr)@, half(r.0@, r.1)),
        final(rr)@ == add16(old(rr)@ as int, 1),
{
    ld_arr_n(m, rr, gr(r));
    let v = grr(rr).wrapping_add(1);
    srr(rr, v);
    true
}

/// `LD (HL-), r`: store, then decrement the address register.
pub fn ld_arrd_r(m: &mut Mem, rr: &mut Reg, r: (&Reg, bool)) -> (t: bool)
    requires
        old(m).wf(),
    ensures
        t,
        final(m).wf(),
        wrote(old(m)@, final(m)@, old(rr)@, half(r.0@, r.1)),
        final(rr)@ == add16(old(rr)@ as int, -1),
{
    ld_arr_n(m, rr, gr(r));
    let v = grr(rr).wrapping_sub(1);
    srr(rr, v);
    true
}

/// `LD r, (HL+)`: load, then increment the address register.
pub fn ld_r_arri(m: &Mem, r: (&mut Reg, bool), rr: &mut Reg) -> (t: bool)
    requires
        m.wf(),
    ensures
        t,
        final(r.0)@ == with_half(old(r.0)@, r.1, m@.get(old(rr)@, false)),
        final(rr)@ == add16(old(rr)@ as int, 1),
{
    let tmp = grr(rr);
    ld_r_ann(m, r, tmp);
    srr(rr, tmp.wrapping_add(1));
    true
}

/// `LD r, (HL-)`: load, then decrement the address register.
pub fn ld_r_arrd(m: &Mem, r: (&mut Reg, bool), rr: &mut Reg) -> (t: bool)
    requires
        m.wf(),
    ensures
        t,
        final(r.0)@ == with_half(old(r.0)@, r.1, m@.get(old(rr)@, false)),
        final(rr)@ == add16(old(rr)@ as int, -1),
{
    let tmp = grr(rr);
    ld_r_ann(m, r, tmp);
    srr(rr, tmp.wrapping_sub(1));
    true
}

/// `LD (nn), rr`: the lower byte at `nn`, the upper byte at `nn + 1`.
pub fn ld_ann_rr(m: &mut Mem, nn: u16, rr: &Reg) -> (t: bool)
    requires
        old(m).wf(),
    ensures
        t,
        final(m).wf(),
        wrote2(old(m)@, final(m)@, nn, lo(rr@), add16(nn as int, 1), hi(rr@)),
{
    let ghost m0 = m@;
    m.nu_set(nn, gr((rr, D)));
    let ghost m1 = m@;
    m.nu_set(nn.wrapping_add(1), gr((rr, U)));
    proof {
        lemma_two_writes(m0, m1, m@, nn, lo(rr@), false, add16(nn as int, 1), hi(rr@), false);
    }
    true
}

/// `POP rr1`: the lower byte from `(rr2)`, the upper byte from `(rr2 + 1)`;
/// the stack pointer `rr2` goes up by 2. Nothing is masked, so popping AF may
/// set the low nibble of F.
pub fn pop_rr_arr(m: &Mem, rr1: &mut Reg, rr2: &mut Reg) -> (t: bool)
    requires
        m.wf(),
    ensures
        t,
        final(rr1)@ == word(
            m@.get(add16(old(rr2)@ as int, 1), false),
            m@.get(old(rr2)@, false),
        ),
        final(rr2)@ == add16(old(rr2)@ as int, 2),
{
    let sp = grr(rr2);
    let l = m.nu_get(sp);
    let sp1 = sp.wrapping_add(1);
    let h = m.nu_get(sp1);
    srr(rr1, h as u16 * 256 + l as u16);
    srr(rr2, sp1.wrapping_add(1));
    true
}

/// `PUSH rr2`: the upper byte at `rr1 - 1`, the lower byte at `rr1 - 2`; the
/// stack pointer `rr1` goes down by 2.
pub fn push_arr_rr(m: &mut Mem, rr1: &mut Reg, rr2: &Reg) -> (t: bool)
    requires
        old(m).wf(),
    ensures
        t,
        final(m).wf(),
        final(rr1)@ == add16(old(rr1)@ as int, -2),
        wrote2(
            old(m)@,
            final(m)@,
            add16(old(rr1)@ as int, -1),
            hi(rr2@),
            add16(old(rr1)@ as int, -2),
            lo(rr2@),
        ),
{
    let ghost m0 = m@;
    let sp1 = grr(rr1).wrapping_sub(1);
    m.nu_set(sp1, gr((rr2, U)));
    let ghost m1 = m@;
    let sp2 = sp1.wrapping_sub(1);
    m.nu_set(sp2, gr((rr2, D)));
    srr(rr1, sp2);
    proof {
        lemma_two_writes(m0, m1, m@, sp1, hi(rr2@), false, sp2, lo(rr2@), false);
    }
    true
}

// ---------------------------------------------------------------------------
// Read-modify-write on (HL)
// ---------------------------------------------------------------------------

pub fn inc_arr(f: &mut Reg, m: &mut Mem, rr: &Reg) -> (t: bool)
    requires
        old(m).wf(),
    ensures
        t,
        final(m).wf(),
        wrote(old(m)@, final(m)@, rr@, add8(old(m)@.get(rr@, false) as int, 1)),
        final(f)@ == with_flags(
            old(f)@,
            add8(old(m)@.get(rr@, false) as int, 1) == 0,
            false,
            old(m)@.get(rr@, false) % 16 == 15,
            bit(old(f)@, CY),
        ),
{
    let tmp = m.nu_get(grr(rr));
    let result = tmp.wrapping_add(1);
    m.nu_set(grr(rr), result);
    let c = gf((f, CY));
    set_flags(f, result == 0, false, tmp % 16 == 15, c);
    true
}

pub fn dec_arr(f: &mut Reg, m: &mut Mem, rr: &Reg) -> (t: bool)
    requires
        old(m).wf(),
    ensures
        t,
        final(m).wf(),
        wrote(old(m)@, final(m)@, rr@, sub8(old(m)@.get(rr@, false) as int, 1)),
        final(f)@ == with_flags(
            old(f)@,
            sub8(old(m)@.get(rr@, false) as int, 1) == 0,
            true,
            old(m)@.get(rr@, false) % 16 == 0,
            bit(old(f)@, CY),
        ),
{
    let tmp = m.nu_get(grr(rr));
    let result = tmp.wrapping_sub(1);
    m.nu_set(grr(rr), result);
    let c = gf((f, CY));
    set_flags(f, result == 0, true, tmp % 16 == 0, c);
    true
}

/// The byte `(rr)` after a prefixed shift or rotation, given the carry in.
pub open spec fn shifted(k: int, x: u8, c: int) -> u8 {
    if k == 0 {
        rlc8(x)
    } else if k == 1 {
        rrc8(x)
    } else if k == 2 {
        rl8(x, c)
    } else if k == 3 {
        rr8(x, c)
    } else if k == 4 {
        sla8(x)
    } else if k == 5 {
        sra8(x)
    } else if k == 6 {
        swap8(x)
    } else {
        srl8(x)
    }
}

/// The carry out of a prefixed shift or rotation.
pub open spec fn shifted_cy(k: int, x: u8) -> bool {
    if k == 0 || k == 2 || k == 4 {
        x >= 128
    } else if k == 6 {
        false
    } else {
        x % 2 == 1
    }
}

pub(crate) fn shift8(k: u8, tmp: u8, c: u8) -> (r: (u8, bool))
    requires
        k < 8,
        c <= 1,
    ensures
        r.0 == shifted(k as int, tmp, c as int),
        r.1 == shifted_cy(k as int, tmp),
{
    let result: u8 = if k == 0 {
        (tmp % 128) * 2 + tmp / 128
    } else if k == 1 {
        tmp / 2 + (tmp % 2) * 128
    } else if k == 2 {
        (tmp % 128) * 2 + c
    } else if k == 3 {
        tmp / 2 + c * 128
    } else if k == 4 {
        (tmp % 128) * 2
    } else if k == 5 {
        tmp / 2 + (tmp / 128) * 128
    } else if k == 6 {
        (tmp % 16) * 16 + tmp / 16
    } else {
        tmp / 2
    };
    let cy = if k == 0 || k == 2 || k == 4 {
        tmp >= 128
    } else if k == 6 {
        false
    } else {
        tmp % 2 == 1
    };
    (result, cy)
}

/// A prefixed shift or rotation of `(rr)`, in the `CB` table's order
/// (RLC, RRC, RL, RR, SLA, SRA, SWAP, SRL).
fn shift_arr(k: u8, af: &mut Reg, m: &mut Mem, rr: &Reg)
    requires
        old(m).wf(),
        k < 8,
    ensures
        final(m).wf(),
        wrote(
            old(m)@,
            final(m)@,
            rr@,
            shifted(k as int, old(m)@.get(rr@, false), carry_in(old(af)@)),
        ),
        final(af)@ == with_flags(
            old(af)@,
            shifted(k as int, old(m)@.get(rr@, false), carry_in(old(af)@)) == 0,
            false,
            false,
            shifted_cy(k as int, old(m)@.get(rr@, false)),
        ),
{
    let tmp = m.nu_get(grr(rr));
    let c = cy_in(af);
    let (result, cy) = shift8(k, tmp, c);
    set_flags(af, result == 0, false, false, cy);
    m.nu_set(grr(rr), result);
}

pub fn rlc_arr(af: &mut Reg, m: &mut Mem, rr: &Reg) -> (t: bool)
    requires
        old(m).wf(),
    ensures
        t,
        final(m).wf(),
        wrote(old(m)@, final(m)@, rr@, rlc8(old(m)@.get(rr@, false))),
        final(af)@ == with_flags(
            old(af)@,
            rlc8(old(m)@.get(rr@, false)) == 0,
            false,
            false,
            old(m)@.get(rr@, false) >= 128,
        ),
{
    shift_arr(0, af, m, rr);
    true
}

pub fn rrc_arr(af: &mut Reg, m: &mut Mem, rr: &Reg) -> (t: bool)
    requires
        old(m).wf(),
    ensures
        t,
        final(m).wf(),
        wrote(old(m)@, final(m)@, rr@, rrc8(old(m)@.get(rr@, false))),
        final(af)@ == with_flags(
            old(af)@,
            rrc8(old(m)@.get(rr@, false)) == 0,
            false,
            false,
            old(m)@.get(rr@, false) % 2 == 1,
        ),
{
    shift_arr(1, af, m, rr);
    true
}

pub fn rl_arr(af: &mut Reg, m: &mut Mem, rr: &Reg) -> (t: bool)
    requires
        old(m).wf(),
    ensures
        t,
        final(m).wf(),
        wrote(old(m)@, final(m)@, rr@, rl8(old(m)@.get(rr@, false), carry_in(old(af)@))),
        final(af)@ == with_flags(
            old(af)@,
            rl8(old(m)@.get(rr@, false), carry_in(old(af)@)) == 0,
            false,
            false,
            old(m)@.get(rr@, false) >= 128,
        ),
{
    shift_arr(2, af, m, rr);
    true
}

pub fn rr_arr(af: &mut Reg, m: &mut Mem, rr: &Reg) -> (t: bool)
    requires
        old(m).wf(),
    ensures
        t,
        final(m).wf(),
        wrote(old(m)@, final(m)@, rr@, rr8(old(m)@.get(rr@, false), carry_in(old(af)@))),
        final(af)@ == with_flags(
            old(af)@,
            rr8(old(m)@.get(rr@, false), carry_in(old(af)@)) == 0,
            false,
            false,
            old(m)@.get(rr@, false) % 2 == 1,
        ),
{
    shift_arr(3, af, m, rr);
    true
}

pub fn sla_arr(af: &mut Reg, m: &mut Mem, rr: &Reg) -> (t: bool)
    requires
        old(m).wf(),
    ensures
        t,
        final(m).wf(),
        wrote(old(m)@, final(m)@, rr@, sla8(old(m)@.get(rr@, false))),
        final(af)@ == with_flags(
            old(af)@,
            sla8(old(m)@.get(rr@, false)) == 0,
            false,
            false,
            old(m)@.get(rr@, false) >= 128,
        ),
{
    shift_arr(4, af, m, rr);
    true
}

pub fn sra_arr(af: &mut Reg, m: &mut Mem, rr: &Reg) -> (t: bool)
    requires
        old(m).wf(),
    ensures
        t,
        final(m).wf(),
        wrote(old(m)@, final(m)@, rr@, sra8(old(m)@.get(rr@, false))),
        final(af)@ == with_flags(
            old(af)@,
            sra8(old(m)@.get(rr@, false)) == 0,
            false,
            false,
            old(m)@.get(rr@, false) % 2 == 1,
        ),
{
    shift_arr(5, af, m, rr);
    true
}

pub fn swap_arr(af: &mut Reg, m: &mut Mem, rr: &Reg) -> (t: bool)
    requires
        old(m).wf(),
    ensures
        t,
        final(m).wf(),
        wrote(old(m)@, final(m)@, rr@, swap8(old(m)@.get(rr@, false))),
        final(af)@ == with_flags(old(af)@, swap8(old(m)@.get(rr@, false)) == 0, false, false, false),
{
    shift_arr(6, af, m, rr);
    true
}

pub fn srl_arr(af: &mut Reg, m: &mut Mem, rr: &Reg) -> (t: bool)
    requires
        old(m).wf(),
    ensures
        t,
        final(m).wf(),
        wrote(old(m)@, final(m)@, rr@, srl8(old(m)@.get(rr@, false))),
        final(af)@ == with_flags(
            old(af)@,
            srl8(old(m)@.get(rr@, false)) == 0,
            false,
            false,
            old(m)@.get(rr@, false) % 2 == 1,
        ),
{
    shift_arr(7, af, m, rr);
    true
}

pub fn res_msk_arr(m: &mut Mem, msk: u8, rr: &Reg) -> (t: bool)
    requires
        old(m).wf(),
    ensures
        t,
        final(m).wf(),
        wrote(old(m)@, final(m)@, rr@, res8(old(m)@.get(rr@, false), msk)),
{
    let v = m.nu_get(grr(rr)) & !msk;
    m.nu_set(grr(rr), v);
    true
}

pub fn set_msk_arr(m: &mut Mem, msk: u8, rr: &Reg) -> (t: bool)
    requires
        old(m).wf(),
    ensures
        t,
        final(m).wf(),
        wrote(old(m)@, final(m)@, rr@, set8(old(m)@.get(rr@, false), msk)),
{
    let v = m.nu_get(grr(rr)) | msk;
    m.nu_set(grr(rr), v);
    true
}

// ---------------------------------------------------------------------------
// Calls and returns
// ---------------------------------------------------------------------------

/// `CALL cc, nn`: when `cc` holds, push the return address (the PC after
/// the instruction) and jump.
pub fn call_cc_nn(m: &mut Mem, sp: &mut Reg, pc: &mut Reg, cc: bool, nn: u16) -> (t: bool)
    requires
        old(m).wf(),
    ensures
        t == cc,
        final(m).wf(),
        cc ==> final(pc)@ == nn && final(sp)@ == add16(old(sp)@ as int, -2) && wrote2(
            old(m)@,
            final(m)@,
            add16(old(sp)@ as int, -1),
            hi(old(pc)@),
            add16(old(sp)@ as int, -2),
            lo(old(pc)@),
        ),
        !cc ==> final(pc)@ == old(pc)@ && final(sp)@ == old(sp)@ && final(m)@ == old(m)@,
{
    if cc {
        push_arr_rr(m, sp, pc);
        srr(pc, nn);
        return true;
    }
    false
}

/// `RET cc`: when `cc` holds, pop the PC.
pub fn ret_cc(m: &Mem, pc: &mut Reg, sp: &mut Reg, cc: bool) -> (t: bool)
    requires
        m.wf(),
    ensures
        t == cc,
        cc ==> final(pc)@ == word(
            m@.get(add16(old(sp)@ as int, 1), false),
            m@.get(old(sp)@, false),
        ) && final(sp)@ == add16(old(sp)@ as int, 2),
        !cc ==> final(pc)@ == old(pc)@ && final(sp)@ == old(sp)@,
{
    if cc {
        pop_rr_arr(m, pc, sp);
        return true;
    }
    false
}

/// `RETI`: pop the PC and enable interrupts at once.
pub fn reti(m: &Mem, ime: &mut Reg, pc: &mut Reg, sp: &mut Reg) -> (t: bool)
    requires
        m.wf(),
    ensures
        t,
        final(pc)@ == word(m@.get(add16(old(sp)@ as int, 1), false), m@.get(old(sp)@, false)),
        final(sp)@ == add16(old(sp)@ as int, 2),
        final(ime)@ == 1,
{
    pop_rr_arr(m, pc, sp);
    srr(ime, 1);
    true
}

/// `RST nn`: push the PC and jump to `nn`.
pub fn rst(m: &mut Mem, sp: &mut Reg, pc: &mut Reg, nn: u16) -> (t: bool)
    requires
        old(m).wf(),
    ensures
        t,
        final(m).wf(),
        final(pc)@ == nn,
        final(sp)@ == add16(old(sp)@ as int, -2),
        wrote2(
            old(m)@,
            final(m)@,
            add16(old(sp)@ as int, -1),
            hi(old(pc)@),
            add16(old(sp)@ as int, -2),
            lo(old(pc)@),
        ),
{
    push_arr_rr(m, sp, pc);
    srr(pc, nn);
    true
}

/// Work RAM and high RAM: bytes that the bus stores and returns as they are.
pub open spec fn is_ram(a: u16) -> bool {
    (0xc000 <= a <= 0xdfff) || (0xff80 <= a <= 0xfffe)
}

/// Pushing a register and popping it back reproduces it exactly, low nibble
/// of F included, and brings the stack pointer back, wherever the two stack
/// bytes lie in work RAM or high RAM.
pub proof fn lemma_push_pop(m: MemView, m2: MemView, sp: u16, v: u16)
    requires
        m.wf(),
        is_ram(add16(sp as int, -1)),
        is_ram(add16(sp as int, -2)),
        wrote2(m, m2, add16(sp as int, -1), hi(v), add16(sp as int, -2), lo(v)),
    ensures
        word(
            m2.get(add16(add16(sp as int, -2) as int, 1), false),
            m2.get(add16(sp as int, -2), false),
        ) == v,
        add16(add16(sp as int, -2) as int, 2) == sp,
{
    let t = m2.cart.clock();
    let a1 = add16(sp as int, -1);
    let a2 = add16(sp as int, -2);
    lemma_high_free(m.cart, a1);
    lemma_high_free(m.cart, a2);
    let m1 = m.set(a1, hi(v), false, t);
    assert(m1.cart == m.cart);
    assert(m2.cart == m.cart);
    assert(m2.data[a1 as int] == hi(v));
    assert(m2.data[a2 as int] == lo(v));
    assert(add16(a2 as int, 1) == a1);
    crate::reg::lemma_halves(v, 0);
}

// ---------------------------------------------------------------------------
// Control
// ---------------------------------------------------------------------------

/// `STOP`: a cycle-consuming no-op here.
pub fn stop() -> (t: bool)
    ensures
        t,
{
    true
}

/// `HALT`: a cycle-consuming no-op here.
pub fn halt() -> (t: bool)
    ensures
        t,
{
    true
}

/// `DI`: interrupts disabled at once.
pub fn di(ime: &mut Reg) -> (t: bool)
    ensures
        t,
        final(ime)@ == 0,
{
    srr(ime, 0);
    true
}

/// `EI`: interrupts pending; the counter reaches 1 after one more instruction.
pub fn ei(ime: &mut Reg) -> (t: bool)
    ensures
        t,
        final(ime)@ == 3,
{
    srr(ime, 3);
    true
}

} // verus!
