use crate::mem::{wrote, wrote2, Mem, MemView};
use crate::ops_impl::{
    adc_af, adc_n, add16, add8, add_af, add_n, add_rr_nn, add_rr_sn, and_af, and_n, bit_msk_n,
    call_cc_nn, carry_in, ccf, cp_af, cp_n, cpl, daa, dec_rr, di, ei, halt, inc_rr, jp_cc_nn,
    jr_cc_sn, ld_ann_r, ld_ann_rr, ld_arr_n, ld_arrd_r, ld_arri_r, ld_r_ann, ld_r_arrd, ld_r_arri,
    ld_rr_nn, ld_rr_rrpsn, ldh_an_r, ldh_ar_r, ldh_r_an, or_af, or_n, pop_rr_arr, push_arr_rr, res8,
    ret_cc, reti, rla, rlca, rra, rrca, rst, sbc_af, sbc_n, scf, set8, shift8, shifted, shifted_cy,
    stop, sub8, sub_af, sub_n, with_flags, xor_af, xor_n, byte_of, daa_a, daa_cy, rl8, rlc8, rr8,
    rrc8,
};
use crate::reg::{
    af_word, bit, gf, gr, grr, hi, lemma_halves, lo, set_flags, sr, with_half, word, CY, D, H, N,
    Reg, Regs, RegsView, U, Z,
};
use vstd::prelude::*;

verus! {

/// One instruction: mnemonic, length in bytes (opcode and prefix
/// included), cycles when taken and when not taken (0 for instructions that
/// are always taken), and its index in the 512-entry table (0x100 and up for
/// the 0xCB-prefixed half).
pub struct Op {
    pub label: &'static str,
    pub len: usize,
    pub cycles: (usize, usize),
    pub code: u16,
}

/// The conditional jumps, calls and returns (`JR cc`, `JP cc`, `CALL cc`,
/// `RET cc`): the instructions that may be not taken.
pub open spec fn conditional(code: u16) -> bool {
    code == 0x20 || code == 0x28 || code == 0x30 || code == 0x38 || code == 0xc2 || code == 0xca
        || code == 0xd2 || code == 0xda || code == 0xc4 || code == 0xcc || code == 0xd4 || code
        == 0xdc || code == 0xc0 || code == 0xc8 || code == 0xd0 || code == 0xd8
}

/// Whether instruction `code` is taken with flags `af`: always, but for a
/// conditional one whose condition fails.
pub open spec fn taken_of(code: u16, af: u16) -> bool {
    !conditional(code) || cond_of(code, af)
}

/// The opcodes that have no instruction: the 0xCB prefix itself and the
/// eleven that the CPU does not define.
pub open spec fn reserved(code: u16) -> bool {
    code == 0xcb || code == 0xd3 || code == 0xdb || code == 0xdd || code == 0xe3 || code == 0xe4
        || code == 0xeb || code == 0xec || code == 0xed || code == 0xf4 || code == 0xfc || code
        == 0xfd
}

impl Op {
    /// Bounds that every instruction of the table meets: 1 to 3 bytes; a
    /// multiple of 4 cycles from 4 to 24 when taken; when not taken, 0 for
    /// the instructions that are always taken, and for exactly the
    /// conditional ones a multiple of 4, at least 4 and fewer than when
    /// taken.
    pub open spec fn wf(&self) -> bool {
        &&& 1 <= self.len <= 3
        &&& self.cycles.0 % 4 == 0
        &&& 4 <= self.cycles.0 <= 24
        &&& self.cycles.1 == 0 || (4 <= self.cycles.1 < self.cycles.0 && self.cycles.1 % 4 == 0)
        &&& self.cycles.1 != 0 <==> conditional(self.code)
        &&& self.code < 0x200
        &&& !reserved(self.code)
    }

    pub fn len(&self) -> (r: usize)
        ensures
            r == self.len,
    {
        self.len
    }

    /// The mnemonic.
    pub fn label(&self) -> &'static str {
        self.label
    }

    /// Runs the instruction on the registers and the bus with its immediate
    /// operand `p`; the result says whether a conditional instruction was
    /// taken. A `BIT` instruction changes nothing but the flags, and a load of
    /// a register into itself changes nothing.
    pub fn exec(&self, r: &mut Regs, m: &mut Mem, p: u16) -> (t: bool)
        requires
            self.wf(),
            old(m).wf(),
        ensures
            final(m).wf(),
            exec_post(self.code, p, old(r)@, old(m)@, final(r)@, final(m)@),
            t == taken_of(self.code, old(r)@.af),
            0x140 <= self.code < 0x180 ==> final(m)@ == old(m)@ && final(r)@ == (RegsView {
                af: final(r)@.af,
                ..old(r)@
            }) && hi(final(r)@.af) == hi(old(r)@.af),
            is_self_load(self.code) ==> final(m)@ == old(m)@ && final(r)@ == old(r)@,
    {
        exec_op(self.code, r, m, p)
    }
}

/// Operand `j` of the regular instruction blocks, in encoding order:
/// B, C, D, E, H, L, (HL), A.
pub open spec fn operand(r: RegsView, m: MemView, j: int) -> u8 {
    if j == 0 {
        hi(r.bc)
    } else if j == 1 {
        lo(r.bc)
    } else if j == 2 {
        hi(r.de)
    } else if j == 3 {
        lo(r.de)
    } else if j == 4 {
        hi(r.hl)
    } else if j == 5 {
        lo(r.hl)
    } else if j == 6 {
        m.get(r.hl, false)
    } else {
        hi(r.af)
    }
}

/// The registers with register operand `j` (not 6) set to `v`.
pub open spec fn with_operand(r: RegsView, j: int, v: u8) -> RegsView {
    if j == 0 {
        RegsView { bc: with_half(r.bc, U, v), ..r }
    } else if j == 1 {
        RegsView { bc: with_half(r.bc, D, v), ..r }
    } else if j == 2 {
        RegsView { de: with_half(r.de, U, v), ..r }
    } else if j == 3 {
        RegsView { de: with_half(r.de, D, v), ..r }
    } else if j == 4 {
        RegsView { hl: with_half(r.hl, U, v), ..r }
    } else if j == 5 {
        RegsView { hl: with_half(r.hl, D, v), ..r }
    } else {
        RegsView { af: with_half(r.af, U, v), ..r }
    }
}

/// Registers and bus after operand `j` is set to `v`: a register, or the
/// byte at (HL) through a non-supervisor write.
pub open spec fn put_operand(
    r0: RegsView,
    m0: MemView,
    j: int,
    v: u8,
    r1: RegsView,
    m1: MemView,
) -> bool {
    if j == 6 {
        r1 == r0 && wrote(m0, m1, r0.hl, v)
    } else {
        r1 == with_operand(r0, j, v) && m1 == m0
    }
}

/// AF after accumulator operation `k` (ADD, ADC, SUB, SBC, AND, XOR, OR, CP).
pub open spec fn alu_af(k: int, af: u16, n: u8) -> u16 {
    if k == 0 {
        add_af(af, n)
    } else if k == 1 {
        adc_af(af, n)
    } else if k == 2 {
        sub_af(af, n)
    } else if k == 3 {
        sbc_af(af, n)
    } else if k == 4 {
        and_af(af, n)
    } else if k == 5 {
        xor_af(af, n)
    } else if k == 6 {
        or_af(af, n)
    } else {
        cp_af(af, n)
    }
}

/// The mask of bit `b`.
pub open spec fn bit_mask(b: int) -> u8 {
    if b == 0 {
        1
    } else if b == 1 {
        2
    } else if b == 2 {
        4
    } else if b == 3 {
        8
    } else if b == 4 {
        0x10
    } else if b == 5 {
        0x20
    } else if b == 6 {
        0x40
    } else {
        0x80
    }
}

/// 16-bit register `i` of the 0x00-0x3f block: BC, DE, HL, SP.
pub open spec fn rr_get(r: RegsView, i: int) -> u16 {
    if i == 0 {
        r.bc
    } else if i == 1 {
        r.de
    } else if i == 2 {
        r.hl
    } else {
        r.sp
    }
}

pub open spec fn rr_put(r: RegsView, i: int, v: u16) -> RegsView {
    if i == 0 {
        RegsView { bc: v, ..r }
    } else if i == 1 {
        RegsView { de: v, ..r }
    } else if i == 2 {
        RegsView { hl: v, ..r }
    } else {
        RegsView { sp: v, ..r }
    }
}

/// 16-bit register `i` of `PUSH` and `POP`: BC, DE, HL, AF.
pub open spec fn rr2_get(r: RegsView, i: int) -> u16 {
    if i == 0 {
        r.bc
    } else if i == 1 {
        r.de
    } else if i == 2 {
        r.hl
    } else {
        r.af
    }
}

pub open spec fn rr2_put(r: RegsView, i: int, v: u16) -> RegsView {
    if i == 0 {
        RegsView { bc: v, ..r }
    } else if i == 1 {
        RegsView { de: v, ..r }
    } else if i == 2 {
        RegsView { hl: v, ..r }
    } else {
        RegsView { af: v, ..r }
    }
}

/// The condition of a conditional jump, call or return: NZ, Z, NC or C by
/// bits 3-4 of the opcode; the unconditional forms always hold.
pub open spec fn cond_of(code: u16, af: u16) -> bool {
    if code == 0x18 || code == 0xc3 || code == 0xcd || code == 0xc9 || code == 0xd9 {
        true
    } else {
        let c = (code as int / 8) % 4;
        if c == 0 {
            !bit(af, Z)
        } else if c == 1 {
            bit(af, Z)
        } else if c == 2 {
            !bit(af, CY)
        } else {
            bit(af, CY)
        }
    }
}

/// What the remaining instructions do: `NOP`, `STOP` and `HALT` (nothing,
/// here); the loads through BC, DE, HL+ and HL-, (nn) and 0xff00+n; `LD (nn),
/// SP`; the accumulator rotations (Z cleared); `DAA`, `CPL`, `SCF`, `CCF`;
/// `ADD SP, s8`, `LD HL, SP+s8`, `LD SP, HL`; `DI` and `EI`.
#[verifier::opaque]
pub open spec fn misc_post(
    code: u16,
    p: u16,
    r0: RegsView,
    m0: MemView,
    r1: RegsView,
    m1: MemView,
) -> bool {
    let a = hi(r0.af);
    let f = lo(r0.af);
    let sn = (p as u8) as i8;
    let hh = r0.sp as int % 16 + byte_of(sn) as int % 16 > 15;
    let cc = r0.sp as int % 256 + byte_of(sn) as int > 255;
    if code == 0x00 || code == 0x10 || code == 0x76 {
        r1 == r0 && m1 == m0
    } else if code == 0x02 || code == 0x12 {
        r1 == r0 && wrote(
            m0,
            m1,
            if code == 0x02 {
                r0.bc
            } else {
                r0.de
            },
            a,
        )
    } else if code == 0x0a || code == 0x1a {
        let v = m0.get(
            if code == 0x0a {
                r0.bc
            } else {
                r0.de
            },
            false,
        );
        r1 == (RegsView { af: with_half(r0.af, U, v), ..r0 }) && m1 == m0
    } else if code == 0x22 || code == 0x32 {
        r1 == (RegsView {
            hl: add16(
                r0.hl as int,
                if code == 0x22 {
                    1
                } else {
                    -1
                },
            ),
            ..r0
        }) && wrote(m0, m1, r0.hl, a)
    } else if code == 0x2a || code == 0x3a {
        r1 == (RegsView {
            af: with_half(r0.af, U, m0.get(r0.hl, false)),
            hl: add16(
                r0.hl as int,
                if code == 0x2a {
                    1
                } else {
                    -1
                },
            ),
            ..r0
        }) && m1 == m0
    } else if code == 0x08 {
        r1 == r0 && wrote2(m0, m1, p, lo(r0.sp), add16(p as int, 1), hi(r0.sp))
    } else if code == 0x07 || code == 0x0f || code == 0x17 || code == 0x1f {
        let v = if code == 0x07 {
            rlc8(a)
        } else if code == 0x0f {
            rrc8(a)
        } else if code == 0x17 {
            rl8(a, carry_in(r0.af))
        } else {
            rr8(a, carry_in(r0.af))
        };
        let cy = if code == 0x07 || code == 0x17 {
            a >= 128
        } else {
            a % 2 == 1
        };
        r1 == (RegsView { af: af_word(v, f, false, false, false, cy), ..r0 }) && m1 == m0
    } else if code == 0x27 {
        let v = daa_a(a, bit(r0.af, N), bit(r0.af, H), bit(r0.af, CY));
        r1 == (RegsView {
            af: af_word(v, f, v == 0, bit(r0.af, N), false, daa_cy(a, bit(r0.af, N), bit(r0.af, CY))),
            ..r0
        }) && m1 == m0
    } else if code == 0x2f {
        r1 == (RegsView {
            af: af_word((255 - a) as u8, f, bit(r0.af, Z), true, true, bit(r0.af, CY)),
            ..r0
        }) && m1 == m0
    } else if code == 0x37 || code == 0x3f {
        let cy = if code == 0x37 {
            true
        } else {
            !bit(r0.af, CY)
        };
        r1 == (RegsView { af: with_flags(r0.af, bit(r0.af, Z), false, false, cy), ..r0 }) && m1
            == m0
    } else if code == 0xe0 || code == 0xe2 || code == 0xea {
        let addr = if code == 0xe0 {
            (0xff00 + p as u8) as u16
        } else if code == 0xe2 {
            (0xff00 + lo(r0.bc)) as u16
        } else {
            p
        };
        r1 == r0 && wrote(m0, m1, addr, a)
    } else if code == 0xf0 || code == 0xf2 || code == 0xfa {
        let addr = if code == 0xf0 {
            (0xff00 + p as u8) as u16
        } else if code == 0xf2 {
            (0xff00 + lo(r0.bc)) as u16
        } else {
            p
        };
        r1 == (RegsView { af: with_half(r0.af, U, m0.get(addr, false)), ..r0 }) && m1 == m0
    } else if code == 0xe8 {
        r1 == (RegsView {
            sp: add16(r0.sp as int, sn as int),
            af: with_flags(r0.af, false, false, hh, cc),
            ..r0
        }) && m1 == m0
    } else if code == 0xf8 {
        r1 == (RegsView {
            hl: add16(r0.sp as int, sn as int),
            af: with_flags(r0.af, false, false, hh, cc),
            ..r0
        }) && m1 == m0
    } else if code == 0xf9 {
        r1 == (RegsView { sp: r0.hl, ..r0 }) && m1 == m0
    } else if code == 0xf3 || code == 0xfb {
        r1 == (RegsView {
            ime: if code == 0xf3 {
                0
            } else {
                3
            },
            ..r0
        }) && m1 == m0
    } else {
        true
    }
}

/// What instruction `code` with immediate operand `p` does to the
/// registers and the bus: `LD r, r'` (0x40-0x7f but HALT), the accumulator
/// operations (0x80-0xbf, and with an immediate), the prefixed shifts, `BIT`,
/// `RES` and `SET` (0x100-0x1ff), 8-bit `INC`/`DEC`/`LD r, n`, the 16-bit
/// loads, increments and `ADD HL, rr`, `PUSH`, `POP`, `RST`, and the jumps,
/// calls and returns; `misc_post` gives the remaining ones.
#[verifier::opaque]
pub open spec fn exec_post(
    code: u16,
    p: u16,
    r0: RegsView,
    m0: MemView,
    r1: RegsView,
    m1: MemView,
) -> bool {
    if 0x40 <= code < 0x80 && code != 0x76 {
        let d = (code - 0x40) / 8;
        let j = (code - 0x40) % 8;
        put_operand(r0, m0, d, operand(r0, m0, j), r1, m1)
    } else if 0x80 <= code < 0xc0 {
        let k = (code - 0x80) / 8;
        let j = (code - 0x80) % 8;
        r1 == (RegsView { af: alu_af(k, r0.af, operand(r0, m0, j)), ..r0 }) && m1 == m0
    } else if 0x100 <= code < 0x140 {
        let k = (code - 0x100) / 8;
        let j = (code - 0x100) % 8;
        let x = operand(r0, m0, j);
        let v = shifted(k, x, carry_in(r0.af));
        let f = af_word(hi(r0.af), lo(r0.af), v == 0, false, false, shifted_cy(k, x));
        put_operand(RegsView { af: f, ..r0 }, m0, j, v, r1, m1)
    } else if 0x140 <= code < 0x180 {
        let b = (code - 0x140) / 8;
        let j = (code - 0x140) % 8;
        r1 == (RegsView {
            af: with_flags(
                r0.af,
                operand(r0, m0, j) & bit_mask(b) == 0,
                false,
                true,
                bit(r0.af, CY),
            ),
            ..r0
        }) && m1 == m0
    } else if 0x180 <= code < 0x1c0 {
        let b = (code - 0x180) / 8;
        let j = (code - 0x180) % 8;
        put_operand(r0, m0, j, res8(operand(r0, m0, j), bit_mask(b)), r1, m1)
    } else if 0x1c0 <= code < 0x200 {
        let b = (code - 0x1c0) / 8;
        let j = (code - 0x1c0) % 8;
        put_operand(r0, m0, j, set8(operand(r0, m0, j), bit_mask(b)), r1, m1)
    } else if code < 0x40 && (code % 8 == 4 || code % 8 == 5) {
        let j = code as int / 8;
        let x = operand(r0, m0, j);
        let up = code % 8 == 4;
        let v = if up {
            add8(x as int, 1)
        } else {
            sub8(x as int, 1)
        };
        let h = if up {
            x % 16 == 15
        } else {
            x % 16 == 0
        };
        let f = af_word(hi(r0.af), lo(r0.af), v == 0, !up, h, bit(r0.af, CY));
        put_operand(RegsView { af: f, ..r0 }, m0, j, v, r1, m1)
    } else if code < 0x40 && code % 8 == 6 {
        put_operand(r0, m0, code as int / 8, p as u8, r1, m1)
    } else if code < 0x40 && code % 16 == 1 {
        r1 == rr_put(r0, code as int / 16, p) && m1 == m0
    } else if code < 0x40 && code % 16 == 3 {
        r1 == rr_put(r0, code as int / 16, add16(rr_get(r0, code as int / 16) as int, 1)) && m1 == m0
    } else if code < 0x40 && code % 16 == 0xb {
        r1 == rr_put(r0, code as int / 16, add16(rr_get(r0, code as int / 16) as int, -1)) && m1 == m0
    } else if code < 0x40 && code % 16 == 9 {
        let n = rr_get(r0, code as int / 16);
        r1 == (RegsView {
            hl: add16(r0.hl as int, n as int),
            af: with_flags(
                r0.af,
                bit(r0.af, Z),
                false,
                n as int % 4096 + r0.hl as int % 4096 > 4095,
                n as int + r0.hl as int > 65535,
            ),
            ..r0
        }) && m1 == m0
    } else if code == 0x18 || code == 0x20 || code == 0x28 || code == 0x30 || code == 0x38 {
        r1 == (if cond_of(code, r0.af) {
            RegsView { pc: add16(r0.pc as int, ((p as u8) as i8) as int), ..r0 }
        } else {
            r0
        }) && m1 == m0
    } else if 0xc0 <= code < 0x100 && code % 8 == 6 {
        r1 == (RegsView { af: alu_af((code - 0xc6) / 8, r0.af, p as u8), ..r0 }) && m1 == m0
    } else if 0xc0 <= code < 0x100 && code % 8 == 7 {
        r1 == (RegsView { pc: (code - 0xc7) as u16, sp: add16(r0.sp as int, -2), ..r0 })
            && wrote2(m0, m1, add16(r0.sp as int, -1), hi(r0.pc), add16(r0.sp as int, -2), lo(r0.pc))
    } else if 0xc0 <= code < 0x100 && code % 16 == 5 {
        let v = rr2_get(r0, (code - 0xc5) / 16);
        r1 == (RegsView { sp: add16(r0.sp as int, -2), ..r0 }) && wrote2(
            m0,
            m1,
            add16(r0.sp as int, -1),
            hi(v),
            add16(r0.sp as int, -2),
            lo(v),
        )
    } else if 0xc0 <= code < 0x100 && code % 16 == 1 {
        let v = word(m0.get(add16(r0.sp as int, 1), false), m0.get(r0.sp, false));
        r1 == rr2_put(RegsView { sp: add16(r0.sp as int, 2), ..r0 }, (code - 0xc1) / 16, v) && m1
            == m0
    } else if code == 0xc2 || code == 0xca || code == 0xd2 || code == 0xda || code == 0xc3 {
        r1 == (if cond_of(code, r0.af) {
            RegsView { pc: p, ..r0 }
        } else {
            r0
        }) && m1 == m0
    } else if code == 0xc4 || code == 0xcc || code == 0xd4 || code == 0xdc || code == 0xcd {
        if cond_of(code, r0.af) {
            r1 == (RegsView { pc: p, sp: add16(r0.sp as int, -2), ..r0 }) && wrote2(
                m0,
                m1,
                add16(r0.sp as int, -1),
                hi(r0.pc),
                add16(r0.sp as int, -2),
                lo(r0.pc),
            )
        } else {
            r1 == r0 && m1 == m0
        }
    } else if code == 0xc0 || code == 0xc8 || code == 0xd0 || code == 0xd8 || code == 0xc9
        || code == 0xd9 {
        let v = word(m0.get(add16(r0.sp as int, 1), false), m0.get(r0.sp, false));
        r1 == (if cond_of(code, r0.af) {
            RegsView {
                pc: v,
                sp: add16(r0.sp as int, 2),
                ime: if code == 0xd9 {
                    1
                } else {
                    r0.ime
                },
                ..r0
            }
        } else {
            r0
        }) && m1 == m0
    } else if code == 0xe9 {
        r1 == (RegsView { pc: r0.hl, ..r0 }) && m1 == m0
    } else {
        misc_post(code, p, r0, m0, r1, m1)
    }
}

/// `LD r, r` for one register and itself.
pub open spec fn is_self_load(code: u16) -> bool {
    code == 0x40 || code == 0x49 || code == 0x52 || code == 0x5b || code == 0x64 || code == 0x6d
        || code == 0x7f
}

/// Runs instruction `code`.
pub fn exec_op(code: u16, r: &mut Regs, m: &mut Mem, p: u16) -> (t: bool)
    requires
        old(m).wf(),
    ensures
        final(m).wf(),
        exec_post(code, p, old(r)@, old(m)@, final(r)@, final(m)@),
        t == taken_of(code, old(r)@.af),
        0x140 <= code < 0x180 ==> final(m)@ == old(m)@ && final(r)@ == (RegsView {
            af: final(r)@.af,
            ..old(r)@
        }) && hi(final(r)@.af) == hi(old(r)@.af),
        is_self_load(code) ==> final(m)@ == old(m)@ && final(r)@ == old(r)@,
{
    reveal(exec_post);
    reveal(misc_post);
    if code < 0x40 {
        exec_ld0(code, r, m, p)
    } else if code < 0x80 {
        exec_ld8(code, r, m, p)
    } else if code < 0xc0 {
        exec_alu(code, r, m, p)
    } else if code < 0x100 {
        exec_ctl(code, r, m, p)
    } else if code < 0x140 {
        exec_cb_shift(code, r, m, p)
    } else if code < 0x180 {
        exec_cb_bit(code, r, m, p)
    } else if code < 0x1c0 {
        exec_cb_res(code, r, m, p)
    } else if code < 0x200 {
        exec_cb_set(code, r, m, p)
    } else {
        true
    }
}

fn alu_op(k: u16, af: &mut Reg, v: u8) -> (t: bool)
    requires
        k < 8,
    ensures
        t,
        final(af)@ == alu_af(k as int, old(af)@, v),
{
    if k == 0 {
        add_n(af, v)
    } else if k == 1 {
        adc_n(af, v)
    } else if k == 2 {
        sub_n(af, v)
    } else if k == 3 {
        sbc_n(af, v)
    } else if k == 4 {
        and_n(af, v)
    } else if k == 5 {
        xor_n(af, v)
    } else if k == 6 {
        or_n(af, v)
    } else {
        cp_n(af, v)
    }
}

fn cond(code: u16, r: &Regs) -> (c: bool)
    ensures
        c == cond_of(code, r@.af),
{
    if code == 0x18 || code == 0xc3 || code == 0xcd || code == 0xc9 || code == 0xd9 {
        true
    } else {
        let k = (code / 8) % 4;
        if k == 0 {
            !gf((&r.af, Z))
        } else if k == 1 {
            gf((&r.af, Z))
        } else if k == 2 {
            !gf((&r.af, CY))
        } else {
            gf((&r.af, CY))
        }
    }
}

fn get_operand(r: &Regs, m: &Mem, j: u16) -> (v: u8)
    requires
        m.wf(),
        j < 8,
    ensures
        v == operand(r@, m@, j as int),
{
    if j == 0 {
        gr((&r.bc, U))
    } else if j == 1 {
        gr((&r.bc, D))
    } else if j == 2 {
        gr((&r.de, U))
    } else if j == 3 {
        gr((&r.de, D))
    } else if j == 4 {
        gr((&r.hl, U))
    } else if j == 5 {
        gr((&r.hl, D))
    } else if j == 6 {
        m.nu_get(grr(&r.hl))
    } else {
        gr((&r.af, U))
    }
}

fn put_op(r: &mut Regs, m: &mut Mem, j: u16, v: u8)
    requires
        old(m).wf(),
        j < 8,
    ensures
        final(m).wf(),
        put_operand(old(r)@, old(m)@, j as int, v, final(r)@, final(m)@),
{
    if j == 0 {
        sr((&mut r.bc, U), v);
    } else if j == 1 {
        sr((&mut r.bc, D), v);
    } else if j == 2 {
        sr((&mut r.de, U), v);
    } else if j == 3 {
        sr((&mut r.de, D), v);
    } else if j == 4 {
        sr((&mut r.hl, U), v);
    } else if j == 5 {
        sr((&mut r.hl, D), v);
    } else if j == 6 {
        m.nu_set(grr(&r.hl), v);
    } else {
        sr((&mut r.af, U), v);
    }
}

fn mask_of(b: u16) -> (r: u8)
    requires
        b < 8,
    ensures
        r == bit_mask(b as int),
{
    if b == 0 {
        1
    } else if b == 1 {
        2
    } else if b == 2 {
        4
    } else if b == 3 {
        8
    } else if b == 4 {
        0x10
    } else if b == 5 {
        0x20
    } else if b == 6 {
        0x40
    } else {
        0x80
    }
}

fn exec_ld0(code: u16, r: &mut Regs, m: &mut Mem, p: u16) -> (t: bool)
    requires
        old(m).wf(),
        code < 0x40,
    ensures
        final(m).wf(),
        exec_post(code, p, old(r)@, old(m)@, final(r)@, final(m)@),
        t == taken_of(code, old(r)@.af),
{
    reveal(exec_post);
    if code % 8 == 4 || code % 8 == 5 {
        exec_incdec(code, r, m, p)
    } else if code % 8 == 6 {
        exec_ld_n(code, r, m, p)
    } else if code % 16 == 1 || code % 16 == 3 || code % 16 == 9 || code % 16 == 0xb {
        exec_rr16(code, r, m, p)
    } else if code == 0x18 || code == 0x20 || code == 0x28 || code == 0x30 || code == 0x38 {
        exec_jr(code, r, m, p)
    } else {
        exec_ld0_misc(code, r, m, p)
    }
}

#[verifier::rlimit(100)]
fn exec_incdec(code: u16, r: &mut Regs, m: &mut Mem, p: u16) -> (t: bool)
    requires
        old(m).wf(),
        code < 0x40 && (code % 8 == 4 || code % 8 == 5),
    ensures
        final(m).wf(),
        exec_post(code, p, old(r)@, old(m)@, final(r)@, final(m)@),
        t == taken_of(code, old(r)@.af),
{
    reveal(exec_post);
    let j = code / 8;
    let x = get_operand(r, m, j);
    let up = code % 8 == 4;
    let v = if up {
        x.wrapping_add(1)
    } else {
        x.wrapping_sub(1)
    };
    let h = if up {
        x % 16 == 15
    } else {
        x % 16 == 0
    };
    let c = gf((&r.af, CY));
    set_flags(&mut r.af, v == 0, !up, h, c);
    put_op(r, m, j, v);
    true
}

#[verifier::rlimit(60)]
fn exec_ld_n(code: u16, r: &mut Regs, m: &mut Mem, p: u16) -> (t: bool)
    requires
        old(m).wf(),
        code < 0x40 && code % 8 == 6,
    ensures
        final(m).wf(),
        exec_post(code, p, old(r)@, old(m)@, final(r)@, final(m)@),
        t == taken_of(code, old(r)@.af),
{
    assert(!conditional(code));
    reveal(exec_post);
    put_op(r, m, code / 8, p as u8);
    true
}

#[verifier::rlimit(60)]
fn exec_rr16(code: u16, r: &mut Regs, m: &mut Mem, p: u16) -> (t: bool)
    requires
        old(m).wf(),
        code < 0x40 && (code % 16 == 1 || code % 16 == 3 || code % 16 == 9 || code % 16 == 0xb),
    ensures
        final(m).wf(),
        exec_post(code, p, old(r)@, old(m)@, final(r)@, final(m)@),
        t == taken_of(code, old(r)@.af),
{
    assert(!conditional(code));
    reveal(exec_post);
    let i = code / 16;
    if code % 16 == 1 {
        return if i == 0 {
            ld_rr_nn(&mut r.bc, p)
        } else if i == 1 {
            ld_rr_nn(&mut r.de, p)
        } else if i == 2 {
            ld_rr_nn(&mut r.hl, p)
        } else {
            ld_rr_nn(&mut r.sp, p)
        };
    }
    if code % 16 == 3 {
        return if i == 0 {
            inc_rr(&mut r.bc)
        } else if i == 1 {
            inc_rr(&mut r.de)
        } else if i == 2 {
            inc_rr(&mut r.hl)
        } else {
            inc_rr(&mut r.sp)
        };
    }
    if code % 16 == 0xb {
        return if i == 0 {
            dec_rr(&mut r.bc)
        } else if i == 1 {
            dec_rr(&mut r.de)
        } else if i == 2 {
            dec_rr(&mut r.hl)
        } else {
            dec_rr(&mut r.sp)
        };
    }
    {
        let n = if i == 0 {
            grr(&r.bc)
        } else if i == 1 {
            grr(&r.de)
        } else if i == 2 {
            grr(&r.hl)
        } else {
            grr(&r.sp)
        };
        return add_rr_nn(&mut r.af, &mut r.hl, n);
    }
}

fn exec_jr(code: u16, r: &mut Regs, m: &mut Mem, p: u16) -> (t: bool)
    requires
        old(m).wf(),
        code == 0x18 || code == 0x20 || code == 0x28 || code == 0x30 || code == 0x38,
    ensures
        final(m).wf(),
        exec_post(code, p, old(r)@, old(m)@, final(r)@, final(m)@),
        t == taken_of(code, old(r)@.af),
{
    reveal(exec_post);
    let c = cond(code, r);
    jr_cc_sn(&mut r.pc, c, (p as u8) as i8)
}

fn exec_ld0_misc(code: u16, r: &mut Regs, m: &mut Mem, p: u16) -> (t: bool)
    requires
        old(m).wf(),
        code < 0x40,
        code % 8 != 4 && code % 8 != 5 && code % 8 != 6,
        code % 16 != 1 && code % 16 != 3 && code % 16 != 9 && code % 16 != 0xb,
        code != 0x18 && code != 0x20 && code != 0x28 && code != 0x30 && code != 0x38,
    ensures
        final(m).wf(),
        exec_post(code, p, old(r)@, old(m)@, final(r)@, final(m)@),
        t == taken_of(code, old(r)@.af),
{
    reveal(exec_post);
    reveal(misc_post);
    match code {
        0x0 => {
            true
        },
        0x2 => {
            ld_arr_n(m, &mut r.bc, gr((&r.af, U)))
        },
        0x7 => {
            rlca(&mut r.af, true)
        },
        0x8 => {
            ld_ann_rr(m, p, &r.sp)
        },
        0xa => {
            ld_r_ann(m, (&mut r.af, U), grr(&r.bc))
        },
        0xf => {
            rrca(&mut r.af, true)
        },
        0x10 => {
            stop()
        },
        0x12 => {
            ld_arr_n(m, &mut r.de, gr((&r.af, U)))
        },
        0x17 => {
            rla(&mut r.af, true)
        },
        0x1a => {
            ld_r_ann(m, (&mut r.af, U), grr(&r.de))
        },
        0x1f => {
            rra(&mut r.af, true)
        },
        0x22 => {
            ld_arri_r(m, &mut r.hl, (&r.af, U))
        },
        0x27 => {
            daa(&mut r.af)
        },
        0x2a => {
            ld_r_arri(m, (&mut r.af, U), &mut r.hl)
        },
        0x2f => {
            cpl(&mut r.af)
        },
        0x32 => {
            ld_arrd_r(m, &mut r.hl, (&r.af, U))
        },
        0x37 => {
            scf(&mut r.af)
        },
        0x3a => {
            ld_r_arrd(m, (&mut r.af, U), &mut r.hl)
        },
        0x3f => {
            ccf(&mut r.af)
        },
        _ => true,
    }
}

fn exec_ld8(code: u16, r: &mut Regs, m: &mut Mem, p: u16) -> (t: bool)
    requires
        old(m).wf(),
        0x40 <= code < 0x80,
    ensures
        final(m).wf(),
        exec_post(code, p, old(r)@, old(m)@, final(r)@, final(m)@),
        t == taken_of(code, old(r)@.af),
        is_self_load(code) ==> final(m)@ == old(m)@ && final(r)@ == old(r)@,
{
    reveal(exec_post);
    reveal(misc_post);
    if code == 0x76 {
        return halt();
    }
    let d = (code - 0x40) / 8;
    let j = (code - 0x40) % 8;
    let v = get_operand(r, m, j);
    put_op(r, m, d, v);
    proof {
        if is_self_load(code) {
            lemma_halves(old(r)@.bc, 0);
            lemma_halves(old(r)@.de, 0);
            lemma_halves(old(r)@.hl, 0);
            lemma_halves(old(r)@.af, 0);
        }
    }
    true
}

fn exec_alu(code: u16, r: &mut Regs, m: &mut Mem, p: u16) -> (t: bool)
    requires
        old(m).wf(),
        0x80 <= code < 0xc0,
    ensures
        final(m).wf(),
        exec_post(code, p, old(r)@, old(m)@, final(r)@, final(m)@),
        t == taken_of(code, old(r)@.af),
{
    reveal(exec_post);
    let v = get_operand(r, m, (code - 0x80) % 8);
    alu_op((code - 0x80) / 8, &mut r.af, v)
}

fn exec_ctl(code: u16, r: &mut Regs, m: &mut Mem, p: u16) -> (t: bool)
    requires
        old(m).wf(),
        0xc0 <= code < 0x100,
    ensures
        final(m).wf(),
        exec_post(code, p, old(r)@, old(m)@, final(r)@, final(m)@),
        t == taken_of(code, old(r)@.af),
{
    reveal(exec_post);
    if code % 8 == 6 {
        alu_op((code - 0xc6) / 8, &mut r.af, p as u8)
    } else if code % 8 == 7 {
        exec_rst(code, r, m, p)
    } else if code % 16 == 5 {
        exec_push(code, r, m, p)
    } else if code % 16 == 1 {
        exec_pop(code, r, m, p)
    } else if code == 0xc2 || code == 0xca || code == 0xd2 || code == 0xda || code == 0xc3 {
        let c = cond(code, r);
        jp_cc_nn(&mut r.pc, c, p)
    } else if code == 0xc4 || code == 0xcc || code == 0xd4 || code == 0xdc || code == 0xcd {
        exec_call(code, r, m, p)
    } else if code == 0xc0 || code == 0xc8 || code == 0xd0 || code == 0xd8 || code == 0xc9 || code == 0xd9 {
        exec_ret(code, r, m, p)
    } else if code == 0xe9 {
        let hl = grr(&r.hl);
        jp_cc_nn(&mut r.pc, true, hl)
    } else {
        exec_ctl_misc(code, r, m, p)
    }
}

#[verifier::rlimit(60)]
fn exec_rst(code: u16, r: &mut Regs, m: &mut Mem, p: u16) -> (t: bool)
    requires
        old(m).wf(),
        0xc0 <= code < 0x100 && code % 8 == 7,
    ensures
        final(m).wf(),
        exec_post(code, p, old(r)@, old(m)@, final(r)@, final(m)@),
        t == taken_of(code, old(r)@.af),
{
    assert(!conditional(code));
    reveal(exec_post);
    rst(m, &mut r.sp, &mut r.pc, code - 0xc7)
}

#[verifier::rlimit(60)]
fn exec_push(code: u16, r: &mut Regs, m: &mut Mem, p: u16) -> (t: bool)
    requires
        old(m).wf(),
        0xc0 <= code < 0x100 && code % 16 == 5,
    ensures
        final(m).wf(),
        exec_post(code, p, old(r)@, old(m)@, final(r)@, final(m)@),
        t == taken_of(code, old(r)@.af),
{
    assert(!conditional(code));
    reveal(exec_post);
    let i = (code - 0xc0) / 16;
    if i == 0 {
        push_arr_rr(m, &mut r.sp, &r.bc)
    } else if i == 1 {
        push_arr_rr(m, &mut r.sp, &r.de)
    } else if i == 2 {
        push_arr_rr(m, &mut r.sp, &r.hl)
    } else {
        push_arr_rr(m, &mut r.sp, &r.af)
    }
}

#[verifier::rlimit(60)]
fn exec_pop(code: u16, r: &mut Regs, m: &mut Mem, p: u16) -> (t: bool)
    requires
        old(m).wf(),
        0xc0 <= code < 0x100 && code % 16 == 1,
    ensures
        final(m).wf(),
        exec_post(code, p, old(r)@, old(m)@, final(r)@, final(m)@),
        t == taken_of(code, old(r)@.af),
{
    assert(!conditional(code));
    reveal(exec_post);
    let i = (code - 0xc0) / 16;
    if i == 0 {
        pop_rr_arr(m, &mut r.bc, &mut r.sp)
    } else if i == 1 {
        pop_rr_arr(m, &mut r.de, &mut r.sp)
    } else if i == 2 {
        pop_rr_arr(m, &mut r.hl, &mut r.sp)
    } else {
        pop_rr_arr(m, &mut r.af, &mut r.sp)
    }
}

fn exec_call(code: u16, r: &mut Regs, m: &mut Mem, p: u16) -> (t: bool)
    requires
        old(m).wf(),
        code == 0xc4 || code == 0xcc || code == 0xd4 || code == 0xdc || code == 0xcd,
    ensures
        final(m).wf(),
        exec_post(code, p, old(r)@, old(m)@, final(r)@, final(m)@),
        t == taken_of(code, old(r)@.af),
{
    reveal(exec_post);
    let c = cond(code, r);
    call_cc_nn(m, &mut r.sp, &mut r.pc, c, p)
}

fn exec_ret(code: u16, r: &mut Regs, m: &mut Mem, p: u16) -> (t: bool)
    requires
        old(m).wf(),
        code == 0xc0 || code == 0xc8 || code == 0xd0 || code == 0xd8 || code == 0xc9 || code == 0xd9,
    ensures
        final(m).wf(),
        exec_post(code, p, old(r)@, old(m)@, final(r)@, final(m)@),
        t == taken_of(code, old(r)@.af),
{
    reveal(exec_post);
    if code == 0xd9 {
        reti(m, &mut r.ime, &mut r.pc, &mut r.sp)
    } else {
        let c = cond(code, r);
        ret_cc(m, &mut r.pc, &mut r.sp, c)
    }
}

fn exec_ctl_misc(code: u16, r: &mut Regs, m: &mut Mem, p: u16) -> (t: bool)
    requires
        old(m).wf(),
        0xc0 <= code < 0x100 && code % 8 != 6 && code % 8 != 7 && code % 16 != 5 && code % 16 != 1,
        !(code == 0xc2 || code == 0xca || code == 0xd2 || code == 0xda || code == 0xc3),
        !(code == 0xc4 || code == 0xcc || code == 0xd4 || code == 0xdc || code == 0xcd),
        !(code == 0xc0 || code == 0xc8 || code == 0xd0 || code == 0xd8 || code == 0xc9 || code == 0xd9),
        code != 0xe9,
    ensures
        final(m).wf(),
        exec_post(code, p, old(r)@, old(m)@, final(r)@, final(m)@),
        t == taken_of(code, old(r)@.af),
{
    reveal(exec_post);
    reveal(misc_post);
    match code {
        0xe0 => {
            ldh_an_r(m, p as u8, (&r.af, U))
        },
        0xe2 => {
            ldh_ar_r(m, (&r.bc, D), (&r.af, U))
        },
        0xe8 => {
            add_rr_sn(&mut r.af, &mut r.sp, (p as u8) as i8)
        },
        0xea => {
            ld_ann_r(m, p, (&r.af, U))
        },
        0xf0 => {
            ldh_r_an(m, (&mut r.af, U), p as u8)
        },
        0xf2 => {
            ldh_r_an(m, (&mut r.af, U), gr((&r.bc, D)))
        },
        0xf3 => {
            di(&mut r.ime)
        },
        0xf8 => {
            ld_rr_rrpsn(&mut r.af, &mut r.hl, &r.sp, (p as u8) as i8)
        },
        0xf9 => {
            ld_rr_nn(&mut r.sp, grr(&r.hl))
        },
        0xfa => {
            ld_r_ann(m, (&mut r.af, U), p)
        },
        0xfb => {
            ei(&mut r.ime)
        },
        _ => true,
    }
}

fn exec_cb_shift(code: u16, r: &mut Regs, m: &mut Mem, p: u16) -> (t: bool)
    requires
        old(m).wf(),
        0x100 <= code < 0x140,
    ensures
        final(m).wf(),
        exec_post(code, p, old(r)@, old(m)@, final(r)@, final(m)@),
        t == taken_of(code, old(r)@.af),
{
    reveal(exec_post);
    let k = (code - 0x100) / 8;
    let j = (code - 0x100) % 8;
    let x = get_operand(r, m, j);
    let c: u8 = if gf((&r.af, CY)) {
        1
    } else {
        0
    };
    let (v, cy) = shift8(k as u8, x, c);
    set_flags(&mut r.af, v == 0, false, false, cy);
    put_op(r, m, j, v);
    true
}

fn exec_cb_bit(code: u16, r: &mut Regs, m: &mut Mem, p: u16) -> (t: bool)
    requires
        old(m).wf(),
        0x140 <= code < 0x180,
    ensures
        final(m).wf(),
        exec_post(code, p, old(r)@, old(m)@, final(r)@, final(m)@),
        t == taken_of(code, old(r)@.af),
        final(m)@ == old(m)@,
        final(r)@ == (RegsView { af: final(r)@.af, ..old(r)@ }),
        hi(final(r)@.af) == hi(old(r)@.af),
{
    reveal(exec_post);
    let b = (code - 0x140) / 8;
    let j = (code - 0x140) % 8;
    let x = get_operand(r, m, j);
    bit_msk_n(&mut r.af, mask_of(b), x)
}

fn exec_cb_res(code: u16, r: &mut Regs, m: &mut Mem, p: u16) -> (t: bool)
    requires
        old(m).wf(),
        0x180 <= code < 0x1c0,
    ensures
        final(m).wf(),
        exec_post(code, p, old(r)@, old(m)@, final(r)@, final(m)@),
        t == taken_of(code, old(r)@.af),
{
    reveal(exec_post);
    let b = (code - 0x180) / 8;
    let j = (code - 0x180) % 8;
    let x = get_operand(r, m, j);
    put_op(r, m, j, x & !mask_of(b));
    true
}

fn exec_cb_set(code: u16, r: &mut Regs, m: &mut Mem, p: u16) -> (t: bool)
    requires
        old(m).wf(),
        0x1c0 <= code < 0x200,
    ensures
        final(m).wf(),
        exec_post(code, p, old(r)@, old(m)@, final(r)@, final(m)@),
        t == taken_of(code, old(r)@.af),
{
    reveal(exec_post);
    let b = (code - 0x1c0) / 8;
    let j = (code - 0x1c0) % 8;
    let x = get_operand(r, m, j);
    put_op(r, m, j, x | mask_of(b));
    true
}

/// The table entry for `code`, if it has one.
pub fn op_info(code: u16) -> (r: Option<Op>)
    ensures
        code < 0x200 && !reserved(code) <==> r is Some,
        r matches Some(o) ==> o.wf() && o.code == code,
{
    let (label, len, t, nt): (&'static str, usize, usize, usize) = match code {
        0x0 => ("NOP", 1, 4, 0),
        0x1 => ("LD BC, #", 3, 12, 0),
        0x2 => ("LD (BC), A", 1, 8, 0),
        0x3 => ("INC BC", 1, 8, 0),
        0x4 => ("INC B", 1, 4, 0),
        0x5 => ("DEC B", 1, 4, 0),
        0x6 => ("LD B, #", 2, 8, 0),
        0x7 => ("RLCA", 1, 4, 0),
        0x8 => ("LD (#), SP", 3, 20, 0),
        0x9 => ("ADD HL, BC", 1, 8, 0),
        0xa => ("LD A, (BC)", 1, 8, 0),
        0xb => ("DEC BC", 1, 8, 0),
        0xc => ("INC C", 1, 4, 0),
        0xd => ("DEC C", 1, 4, 0),
        0xe => ("LD C, #", 2, 8, 0),
        0xf => ("RRCA", 1, 4, 0),
        0x10 => ("STOP", 2, 4, 0),
        0x11 => ("LD DE, #", 3, 12, 0),
        0x12 => ("LD (DE), A", 1, 8, 0),
        0x13 => ("INC DE", 1, 8, 0),
        0x14 => ("INC D", 1, 4, 0),
        0x15 => ("DEC D", 1, 4, 0),
        0x16 => ("LD D, #", 2, 8, 0),
        0x17 => ("RLA", 1, 4, 0),
        0x18 => ("JR #", 2, 12, 0),
        0x19 => ("ADD HL, DE", 1, 8, 0),
        0x1a => ("LD A, (DE)", 1, 8, 0),
        0x1b => ("DEC DE", 1, 8, 0),
        0x1c => ("INC E", 1, 4, 0),
        0x1d => ("DEC E", 1, 4, 0),
        0x1e => ("LD E, #", 2, 8, 0),
        0x1f => ("RRA", 1, 4, 0),
        0x20 => ("JR NZ, #", 2, 12, 8),
        0x21 => ("LD HL, #", 3, 12, 0),
        0x22 => ("LD (HL+), A", 1, 8, 0),
        0x23 => ("INC HL", 1, 8, 0),
        0x24 => ("INC H", 1, 4, 0),
        0x25 => ("DEC H", 1, 4, 0),
        0x26 => ("LD H, #", 2, 8, 0),
        0x27 => ("DAA", 1, 4, 0),
        0x28 => ("JR Z, #", 2, 12, 8),
        0x29 => ("ADD HL, HL", 1, 8, 0),
        0x2a => ("LD A, (HL+)", 1, 8, 0),
        0x2b => ("DEC HL", 1, 8, 0),
        0x2c => ("INC L", 1, 4, 0),
        0x2d => ("DEC L", 1, 4, 0),
        0x2e => ("LD L, #", 2, 8, 0),
        0x2f => ("CPL", 1, 4, 0),
        0x30 => ("JR NC, #", 2, 12, 8),
        0x31 => ("LD SP, #", 3, 12, 0),
        0x32 => ("LD (HL-), A", 1, 8, 0),
        0x33 => ("INC SP", 1, 8, 0),
        0x34 => ("INC (HL)", 1, 12, 0),
        0x35 => ("DEC (HL)", 1, 12, 0),
        0x36 => ("LD (HL), #", 2, 12, 0),
        0x37 => ("SCF", 1, 4, 0),
        0x38 => ("JR C, #", 2, 12, 8),
        0x39 => ("ADD HL, SP", 1, 8, 0),
        0x3a => ("LD A, (HL-)", 1, 8, 0),
        0x3b => ("DEC SP", 1, 8, 0),
        0x3c => ("INC A", 1, 4, 0),
        0x3d => ("DEC A", 1, 4, 0),
        0x3e => ("LD A, #", 2, 8, 0),
        0x3f => ("CCF", 1, 4, 0),
        0x40 => ("LD B, B", 1, 4, 0),
        0x41 => ("LD B, C", 1, 4, 0),
        0x42 => ("LD B, D", 1, 4, 0),
        0x43 => ("LD B, E", 1, 4, 0),
        0x44 => ("LD B, H", 1, 4, 0),
        0x45 => ("LD B, L", 1, 4, 0),
        0x46 => ("LD B, (HL)", 1, 8, 0),
        0x47 => ("LD B, A", 1, 4, 0),
        0x48 => ("LD C, B", 1, 4, 0),
        0x49 => ("LD C, C", 1, 4, 0),
        0x4a => ("LD C, D", 1, 4, 0),
        0x4b => ("LD C, E", 1, 4, 0),
        0x4c => ("LD C, H", 1, 4, 0),
        0x4d => ("LD C, L", 1, 4, 0),
        0x4e => ("LD C, (HL)", 1, 8, 0),
        0x4f => ("LD C, A", 1, 4, 0),
        0x50 => ("LD D, B", 1, 4, 0),
        0x51 => ("LD D, C", 1, 4, 0),
        0x52 => ("LD D, D", 1, 4, 0),
        0x53 => ("LD D, E", 1, 4, 0),
        0x54 => ("LD D, H", 1, 4, 0),
        0x55 => ("LD D, L", 1, 4, 0),
        0x56 => ("LD D, (HL)", 1, 8, 0),
        0x57 => ("LD D, A", 1, 4, 0),
        0x58 => ("LD E, B", 1, 4, 0),
        0x59 => ("LD E, C", 1, 4, 0),
        0x5a => ("LD E, D", 1, 4, 0),
        0x5b => ("LD E, E", 1, 4, 0),
        0x5c => ("LD E, H", 1, 4, 0),
        0x5d => ("LD E, L", 1, 4, 0),
        0x5e => ("LD E, (HL)", 1, 8, 0),
        0x5f => ("LD E, A", 1, 4, 0),
        0x60 => ("LD H, B", 1, 4, 0),
        0x61 => ("LD H, C", 1, 4, 0),
        0x62 => ("LD H, D", 1, 4, 0),
        0x63 => ("LD H, E", 1, 4, 0),
        0x64 => ("LD H, H", 1, 4, 0),
        0x65 => ("LD H, L", 1, 4, 0),
        0x66 => ("LD H, (HL)", 1, 8, 0),
        0x67 => ("LD H, A", 1, 4, 0),
        0x68 => ("LD L, B", 1, 4, 0),
        0x69 => ("LD L, C", 1, 4, 0),
        0x6a => ("LD L, D", 1, 4, 0),
        0x6b => ("LD L, E", 1, 4, 0),
        0x6c => ("LD L, H", 1, 4, 0),
        0x6d => ("LD L, L", 1, 4, 0),
        0x6e => ("LD L, (HL)", 1, 8, 0),
        0x6f => ("LD L, A", 1, 4, 0),
        0x70 => ("LD (HL), B", 1, 8, 0),
        0x71 => ("LD (HL), C", 1, 8, 0),
        0x72 => ("LD (HL), D", 1, 8, 0),
        0x73 => ("LD (HL), E", 1, 8, 0),
        0x74 => ("LD (HL), H", 1, 8, 0),
        0x75 => ("LD (HL), L", 1, 8, 0),
        0x76 => ("HALT", 1, 4, 0),
        0x77 => ("LD (HL), A", 1, 8, 0),
        0x78 => ("LD A, B", 1, 4, 0),
        0x79 => ("LD A, C", 1, 4, 0),
        0x7a => ("LD A, D", 1, 4, 0),
        0x7b => ("LD A, E", 1, 4, 0),
        0x7c => ("LD A, H", 1, 4, 0),
        0x7d => ("LD A, L", 1, 4, 0),
        0x7e => ("LD A, (HL)", 1, 8, 0),
        0x7f => ("LD A, A", 1, 4, 0),
        0x80 => ("ADD A, B", 1, 4, 0),
        0x81 => ("ADD A, C", 1, 4, 0),
        0x82 => ("ADD A, D", 1, 4, 0),
        0x83 => ("ADD A, E", 1, 4, 0),
        0x84 => ("ADD A, H", 1, 4, 0),
        0x85 => ("ADD A, L", 1, 4, 0),
        0x86 => ("ADD A, (HL)", 1, 8, 0),
        0x87 => ("ADD A, A", 1, 4, 0),
        0x88 => ("ADC A, B", 1, 4, 0),
        0x89 => ("ADC A, C", 1, 4, 0),
        0x8a => ("ADC A, D", 1, 4, 0),
        0x8b => ("ADC A, E", 1, 4, 0),
        0x8c => ("ADC A, H", 1, 4, 0),
        0x8d => ("ADC A, L", 1, 4, 0),
        0x8e => ("ADC A, (HL)", 1, 8, 0),
        0x8f => ("ADC A, A", 1, 4, 0),
        0x90 => ("SUB A, B", 1, 4, 0),
        0x91 => ("SUB A, C", 1, 4, 0),
        0x92 => ("SUB A, D", 1, 4, 0),
        0x93 => ("SUB A, E", 1, 4, 0),
        0x94 => ("SUB A, H", 1, 4, 0),
        0x95 => ("SUB A, L", 1, 4, 0),
        0x96 => ("SUB A, (HL)", 1, 8, 0),
        0x97 => ("SUB A, A", 1, 4, 0),
        0x98 => ("SBC A, B", 1, 4, 0),
        0x99 => ("SBC A, C", 1, 4, 0),
        0x9a => ("SBC A, D", 1, 4, 0),
        0x9b => ("SBC A, E", 1, 4, 0),
        0x9c => ("SBC A, H", 1, 4, 0),
        0x9d => ("SBC A, L", 1, 4, 0),
        0x9e => ("SBC A, (HL)", 1, 8, 0),
        0x9f => ("SBC A, A", 1, 4, 0),
        0xa0 => ("AND A, B", 1, 4, 0),
        0xa1 => ("AND A, C", 1, 4, 0),
        0xa2 => ("AND A, D", 1, 4, 0),
        0xa3 => ("AND A, E", 1, 4, 0),
        0xa4 => ("AND A, H", 1, 4, 0),
        0xa5 => ("AND A, L", 1, 4, 0),
        0xa6 => ("AND A, (HL)", 1, 8, 0),
        0xa7 => ("AND A, A", 1, 4, 0),
        0xa8 => ("XOR A, B", 1, 4, 0),
        0xa9 => ("XOR A, C", 1, 4, 0),
        0xaa => ("XOR A, D", 1, 4, 0),
        0xab => ("XOR A, E", 1, 4, 0),
        0xac => ("XOR A, H", 1, 4, 0),
        0xad => ("XOR A, L", 1, 4, 0),
        0xae => ("XOR A, (HL)", 1, 8, 0),
        0xaf => ("XOR A, A", 1, 4, 0),
        0xb0 => ("OR A, B", 1, 4, 0),
        0xb1 => ("OR A, C", 1, 4, 0),
        0xb2 => ("OR A, D", 1, 4, 0),
        0xb3 => ("OR A, E", 1, 4, 0),
        0xb4 => ("OR A, H", 1, 4, 0),
        0xb5 => ("OR A, L", 1, 4, 0),
        0xb6 => ("OR A, (HL)", 1, 8, 0),
        0xb7 => ("OR A, A", 1, 4, 0),
        0xb8 => ("CP A, B", 1, 4, 0),
        0xb9 => ("CP A, C", 1, 4, 0),
        0xba => ("CP A, D", 1, 4, 0),
        0xbb => ("CP A, E", 1, 4, 0),
        0xbc => ("CP A, H", 1, 4, 0),
        0xbd => ("CP A, L", 1, 4, 0),
        0xbe => ("CP A, (HL)", 1, 8, 0),
        0xbf => ("CP A, A", 1, 4, 0),
        0xc0 => ("RET NZ", 1, 20, 8),
        0xc1 => ("POP BC", 1, 12, 0),
        0xc2 => ("JP NZ, #", 3, 16, 12),
        0xc3 => ("JP #", 3, 12, 0),
        0xc4 => ("CALL NZ, #", 3, 24, 12),
        0xc5 => ("PUSH BC", 1, 16, 0),
        0xc6 => ("ADD A, #", 2, 8, 0),
        0xc7 => ("RST 0x00", 1, 16, 0),
        0xc8 => ("RET Z", 1, 20, 8),
        0xc9 => ("RET", 1, 16, 0),
        0xca => ("JP Z, #", 3, 16, 12),
        0xcc => ("CALL Z, #", 3, 24, 12),
        0xcd => ("CALL #", 3, 24, 0),
        0xce => ("ADC A, #", 2, 8, 0),
        0xcf => ("RST 0x08", 1, 16, 0),
        0xd0 => ("RET NC", 1, 20, 8),
        0xd1 => ("POP DE", 1, 12, 0),
        0xd2 => ("JP NC, #", 3, 16, 12),
        0xd4 => ("CALL NC, #", 3, 24, 12),
        0xd5 => ("PUSH DE", 1, 16, 0),
        0xd6 => ("SUB A, #", 2, 8, 0),
        0xd7 => ("RST 0x10", 1, 16, 0),
        0xd8 => ("RET C", 1, 20, 8),
        0xd9 => ("RETI", 1, 16, 0),
        0xda => ("JP C, #", 3, 16, 12),
        0xdc => ("CALL C, #", 3, 24, 12),
        0xde => ("SBC A, #", 2, 8, 0),
        0xdf => ("RST 0x18", 1, 16, 0),
        0xe0 => ("LDH (#), A", 2, 12, 0),
        0xe1 => ("POP HL", 1, 12, 0),
        0xe2 => ("LDH (C), A", 2, 8, 0),
        0xe5 => ("PUSH HL", 1, 16, 0),
        0xe6 => ("AND A, #", 2, 8, 0),
        0xe7 => ("RST 0x20", 1, 16, 0),
        0xe8 => ("ADD SP, #", 2, 16, 0),
        0xe9 => ("JP HL", 1, 4, 0),
        0xea => ("LD (#), A", 3, 16, 0),
        0xee => ("XOR A, #", 2, 8, 0),
        0xef => ("RST 0x28", 1, 16, 0),
        0xf0 => ("LDH A, (#)", 2, 12, 0),
        0xf1 => ("POP AF", 1, 12, 0),
        0xf2 => ("LDH A, (C)", 2, 8, 0),
        0xf3 => ("DI", 1, 4, 0),
        0xf5 => ("PUSH AF", 1, 16, 0),
        0xf6 => ("OR A, #", 2, 8, 0),
        0xf7 => ("RST 0x30", 1, 16, 0),
        0xf8 => ("LD HL, SP+#", 2, 12, 0),
        0xf9 => ("LD SP, HL", 1, 8, 0),
        0xfa => ("LD A, (#)", 3, 16, 0),
        0xfb => ("EI", 1, 4, 0),
        0xfe => ("CP A, #", 2, 8, 0),
        0xff => ("RST 0x38", 1, 16, 0),
        0x100 => ("RLC B", 2, 8, 0),
        0x101 => ("RLC C", 2, 8, 0),
        0x102 => ("RLC D", 2, 8, 0),
        0x103 => ("RLC E", 2, 8, 0),
        0x104 => ("RLC H", 2, 8, 0),
        0x105 => ("RLC L", 2, 8, 0),
        0x106 => ("RLC (HL)", 2, 16, 0),
        0x107 => ("RLC A", 2, 8, 0),
        0x108 => ("RRC B", 2, 8, 0),
        0x109 => ("RRC C", 2, 8, 0),
        0x10a => ("RRC D", 2, 8, 0),
        0x10b => ("RRC E", 2, 8, 0),
        0x10c => ("RRC H", 2, 8, 0),
        0x10d => ("RRC L", 2, 8, 0),
        0x10e => ("RRC (HL)", 2, 16, 0),
        0x10f => ("RRC A", 2, 8, 0),
        0x110 => ("RL B", 2, 8, 0),
        0x111 => ("RL C", 2, 8, 0),
        0x112 => ("RL D", 2, 8, 0),
        0x113 => ("RL E", 2, 8, 0),
        0x114 => ("RL H", 2, 8, 0),
        0x115 => ("RL L", 2, 8, 0),
        0x116 => ("RL (HL)", 2, 16, 0),
        0x117 => ("RL A", 2, 8, 0),
        0x118 => ("RR B", 2, 8, 0),
        0x119 => ("RR C", 2, 8, 0),
        0x11a => ("RR D", 2, 8, 0),
        0x11b => ("RR E", 2, 8, 0),
        0x11c => ("RR H", 2, 8, 0),
        0x11d => ("RR L", 2, 8, 0),
        0x11e => ("RR (HL)", 2, 16, 0),
        0x11f => ("RR A", 2, 8, 0),
        0x120 => ("SLA B", 2, 8, 0),
        0x121 => ("SLA C", 2, 8, 0),
        0x122 => ("SLA D", 2, 8, 0),
        0x123 => ("SLA E", 2, 8, 0),
        0x124 => ("SLA H", 2, 8, 0),
        0x125 => ("SLA L", 2, 8, 0),
        0x126 => ("SLA (HL)", 2, 16, 0),
        0x127 => ("SLA A", 2, 8, 0),
        0x128 => ("SRA B", 2, 8, 0),
        0x129 => ("SRA C", 2, 8, 0),
        0x12a => ("SRA D", 2, 8, 0),
        0x12b => ("SRA E", 2, 8, 0),
        0x12c => ("SRA H", 2, 8, 0),
        0x12d => ("SRA L", 2, 8, 0),
        0x12e => ("SRA (HL)", 2, 16, 0),
        0x12f => ("SRA A", 2, 8, 0),
        0x130 => ("SWAP B", 2, 8, 0),
        0x131 => ("SWAP C", 2, 8, 0),
        0x132 => ("SWAP D", 2, 8, 0),
        0x133 => ("SWAP E", 2, 8, 0),
        0x134 => ("SWAP H", 2, 8, 0),
        0x135 => ("SWAP L", 2, 8, 0),
        0x136 => ("SWAP (HL)", 2, 16, 0),
        0x137 => ("SWAP A", 2, 8, 0),
        0x138 => ("SRL B", 2, 8, 0),
        0x139 => ("SRL C", 2, 8, 0),
        0x13a => ("SRL D", 2, 8, 0),
        0x13b => ("SRL E", 2, 8, 0),
        0x13c => ("SRL H", 2, 8, 0),
        0x13d => ("SRL L", 2, 8, 0),
        0x13e => ("SRL (HL)", 2, 16, 0),
        0x13f => ("SRL A", 2, 8, 0),
        0x140 => ("BIT 0, B", 2, 8, 0),
        0x141 => ("BIT 0, C", 2, 8, 0),
        0x142 => ("BIT 0, D", 2, 8, 0),
        0x143 => ("BIT 0, E", 2, 8, 0),
        0x144 => ("BIT 0, H", 2, 8, 0),
        0x145 => ("BIT 0, L", 2, 8, 0),
        0x146 => ("BIT 0, (HL)", 2, 16, 0),
        0x147 => ("BIT 0, A", 2, 8, 0),
        0x148 => ("BIT 1, B", 2, 8, 0),
        0x149 => ("BIT 1, C", 2, 8, 0),
        0x14a => ("BIT 1, D", 2, 8, 0),
        0x14b => ("BIT 1, E", 2, 8, 0),
        0x14c => ("BIT 1, H", 2, 8, 0),
        0x14d => ("BIT 1, L", 2, 8, 0),
        0x14e => ("BIT 1, (HL)", 2, 16, 0),
        0x14f => ("BIT 1, A", 2, 8, 0),
        0x150 => ("BIT 2, B", 2, 8, 0),
        0x151 => ("BIT 2, C", 2, 8, 0),
        0x152 => ("BIT 2, D", 2, 8, 0),
        0x153 => ("BIT 2, E", 2, 8, 0),
        0x154 => ("BIT 2, H", 2, 8, 0),
        0x155 => ("BIT 2, L", 2, 8, 0),
        0x156 => ("BIT 2, (HL)", 2, 16, 0),
        0x157 => ("BIT 2, A", 2, 8, 0),
        0x158 => ("BIT 3, B", 2, 8, 0),
        0x159 => ("BIT 3, C", 2, 8, 0),
        0x15a => ("BIT 3, D", 2, 8, 0),
        0x15b => ("BIT 3, E", 2, 8, 0),
        0x15c => ("BIT 3, H", 2, 8, 0),
        0x15d => ("BIT 3, L", 2, 8, 0),
        0x15e => ("BIT 3, (HL)", 2, 16, 0),
        0x15f => ("BIT 3, A", 2, 8, 0),
        0x160 => ("BIT 4, B", 2, 8, 0),
        0x161 => ("BIT 4, C", 2, 8, 0),
        0x162 => ("BIT 4, D", 2, 8, 0),
        0x163 => ("BIT 4, E", 2, 8, 0),
        0x164 => ("BIT 4, H", 2, 8, 0),
        0x165 => ("BIT 4, L", 2, 8, 0),
        0x166 => ("BIT 4, (HL)", 2, 16, 0),
        0x167 => ("BIT 4, A", 2, 8, 0),
        0x168 => ("BIT 5, B", 2, 8, 0),
        0x169 => ("BIT 5, C", 2, 8, 0),
        0x16a => ("BIT 5, D", 2, 8, 0),
        0x16b => ("BIT 5, E", 2, 8, 0),
        0x16c => ("BIT 5, H", 2, 8, 0),
        0x16d => ("BIT 5, L", 2, 8, 0),
        0x16e => ("BIT 5, (HL)", 2, 16, 0),
        0x16f => ("BIT 5, A", 2, 8, 0),
        0x170 => ("BIT 6, B", 2, 8, 0),
        0x171 => ("BIT 6, C", 2, 8, 0),
        0x172 => ("BIT 6, D", 2, 8, 0),
        0x173 => ("BIT 6, E", 2, 8, 0),
        0x174 => ("BIT 6, H", 2, 8, 0),
        0x175 => ("BIT 6, L", 2, 8, 0),
        0x176 => ("BIT 6, (HL)", 2, 16, 0),
        0x177 => ("BIT 6, A", 2, 8, 0),
        0x178 => ("BIT 7, B", 2, 8, 0),
        0x179 => ("BIT 7, C", 2, 8, 0),
        0x17a => ("BIT 7, D", 2, 8, 0),
        0x17b => ("BIT 7, E", 2, 8, 0),
        0x17c => ("BIT 7, H", 2, 8, 0),
        0x17d => ("BIT 7, L", 2, 8, 0),
        0x17e => ("BIT 7, (HL)", 2, 16, 0),
        0x17f => ("BIT 7, A", 2, 8, 0),
        0x180 => ("RES 0, B", 2, 8, 0),
        0x181 => ("RES 0, C", 2, 8, 0),
        0x182 => ("RES 0, D", 2, 8, 0),
        0x183 => ("RES 0, E", 2, 8, 0),
        0x184 => ("RES 0, H", 2, 8, 0),
        0x185 => ("RES 0, L", 2, 8, 0),
        0x186 => ("RES 0, (HL)", 2, 16, 0),
        0x187 => ("RES 0, A", 2, 8, 0),
        0x188 => ("RES 1, B", 2, 8, 0),
        0x189 => ("RES 1, C", 2, 8, 0),
        0x18a => ("RES 1, D", 2, 8, 0),
        0x18b => ("RES 1, E", 2, 8, 0),
        0x18c => ("RES 1, H", 2, 8, 0),
        0x18d => ("RES 1, L", 2, 8, 0),
        0x18e => ("RES 1, (HL)", 2, 16, 0),
        0x18f => ("RES 1, A", 2, 8, 0),
        0x190 => ("RES 2, B", 2, 8, 0),
        0x191 => ("RES 2, C", 2, 8, 0),
        0x192 => ("RES 2, D", 2, 8, 0),
        0x193 => ("RES 2, E", 2, 8, 0),
        0x194 => ("RES 2, H", 2, 8, 0),
        0x195 => ("RES 2, L", 2, 8, 0),
        0x196 => ("RES 2, (HL)", 2, 16, 0),
        0x197 => ("RES 2, A", 2, 8, 0),
        0x198 => ("RES 3, B", 2, 8, 0),
        0x199 => ("RES 3, C", 2, 8, 0),
        0x19a => ("RES 3, D", 2, 8, 0),
        0x19b => ("RES 3, E", 2, 8, 0),
        0x19c => ("RES 3, H", 2, 8, 0),
        0x19d => ("RES 3, L", 2, 8, 0),
        0x19e => ("RES 3, (HL)", 2, 16, 0),
        0x19f => ("RES 3, A", 2, 8, 0),
        0x1a0 => ("RES 4, B", 2, 8, 0),
        0x1a1 => ("RES 4, C", 2, 8, 0),
        0x1a2 => ("RES 4, D", 2, 8, 0),
        0x1a3 => ("RES 4, E", 2, 8, 0),
        0x1a4 => ("RES 4, H", 2, 8, 0),
        0x1a5 => ("RES 4, L", 2, 8, 0),
        0x1a6 => ("RES 4, (HL)", 2, 16, 0),
        0x1a7 => ("RES 4, A", 2, 8, 0),
        0x1a8 => ("RES 5, B", 2, 8, 0),
        0x1a9 => ("RES 5, C", 2, 8, 0),
        0x1aa => ("RES 5, D", 2, 8, 0),
        0x1ab => ("RES 5, E", 2, 8, 0),
        0x1ac => ("RES 5, H", 2, 8, 0),
        0x1ad => ("RES 5, L", 2, 8, 0),
        0x1ae => ("RES 5, (HL)", 2, 16, 0),
        0x1af => ("RES 5, A", 2, 8, 0),
        0x1b0 => ("RES 6, B", 2, 8, 0),
        0x1b1 => ("RES 6, C", 2, 8, 0),
        0x1b2 => ("RES 6, D", 2, 8, 0),
        0x1b3 => ("RES 6, E", 2, 8, 0),
        0x1b4 => ("RES 6, H", 2, 8, 0),
        0x1b5 => ("RES 6, L", 2, 8, 0),
        0x1b6 => ("RES 6, (HL)", 2, 16, 0),
        0x1b7 => ("RES 6, A", 2, 8, 0),
        0x1b8 => ("RES 7, B", 2, 8, 0),
        0x1b9 => ("RES 7, C", 2, 8, 0),
        0x1ba => ("RES 7, D", 2, 8, 0),
        0x1bb => ("RES 7, E", 2, 8, 0),
        0x1bc => ("RES 7, H", 2, 8, 0),
        0x1bd => ("RES 7, L", 2, 8, 0),
        0x1be => ("RES 7, (HL)", 2, 16, 0),
        0x1bf => ("RES 7, A", 2, 8, 0),
        0x1c0 => ("SET 0, B", 2, 8, 0),
        0x1c1 => ("SET 0, C", 2, 8, 0),
        0x1c2 => ("SET 0, D", 2, 8, 0),
        0x1c3 => ("SET 0, E", 2, 8, 0),
        0x1c4 => ("SET 0, H", 2, 8, 0),
        0x1c5 => ("SET 0, L", 2, 8, 0),
        0x1c6 => ("SET 0, (HL)", 2, 16, 0),
        0x1c7 => ("SET 0, A", 2, 8, 0),
        0x1c8 => ("SET 1, B", 2, 8, 0),
        0x1c9 => ("SET 1, C", 2, 8, 0),
        0x1ca => ("SET 1, D", 2, 8, 0),
        0x1cb => ("SET 1, E", 2, 8, 0),
        0x1cc => ("SET 1, H", 2, 8, 0),
        0x1cd => ("SET 1, L", 2, 8, 0),
        0x1ce => ("SET 1, (HL)", 2, 16, 0),
        0x1cf => ("SET 1, A", 2, 8, 0),
        0x1d0 => ("SET 2, B", 2, 8, 0),
        0x1d1 => ("SET 2, C", 2, 8, 0),
        0x1d2 => ("SET 2, D", 2, 8, 0),
        0x1d3 => ("SET 2, E", 2, 8, 0),
        0x1d4 => ("SET 2, H", 2, 8, 0),
        0x1d5 => ("SET 2, L", 2, 8, 0),
        0x1d6 => ("SET 2, (HL)", 2, 16, 0),
        0x1d7 => ("SET 2, A", 2, 8, 0),
        0x1d8 => ("SET 3, B", 2, 8, 0),
        0x1d9 => ("SET 3, C", 2, 8, 0),
        0x1da => ("SET 3, D", 2, 8, 0),
        0x1db => ("SET 3, E", 2, 8, 0),
        0x1dc => ("SET 3, H", 2, 8, 0),
        0x1dd => ("SET 3, L", 2, 8, 0),
        0x1de => ("SET 3, (HL)", 2, 16, 0),
        0x1df => ("SET 3, A", 2, 8, 0),
        0x1e0 => ("SET 4, B", 2, 8, 0),
        0x1e1 => ("SET 4, C", 2, 8, 0),
        0x1e2 => ("SET 4, D", 2, 8, 0),
        0x1e3 => ("SET 4, E", 2, 8, 0),
        0x1e4 => ("SET 4, H", 2, 8, 0),
        0x1e5 => ("SET 4, L", 2, 8, 0),
        0x1e6 => ("SET 4, (HL)", 2, 16, 0),
        0x1e7 => ("SET 4, A", 2, 8, 0),
        0x1e8 => ("SET 5, B", 2, 8, 0),
        0x1e9 => ("SET 5, C", 2, 8, 0),
        0x1ea => ("SET 5, D", 2, 8, 0),
        0x1eb => ("SET 5, E", 2, 8, 0),
        0x1ec => ("SET 5, H", 2, 8, 0),
        0x1ed => ("SET 5, L", 2, 8, 0),
        0x1ee => ("SET 5, (HL)", 2, 16, 0),
        0x1ef => ("SET 5, A", 2, 8, 0),
        0x1f0 => ("SET 6, B", 2, 8, 0),
        0x1f1 => ("SET 6, C", 2, 8, 0),
        0x1f2 => ("SET 6, D", 2, 8, 0),
        0x1f3 => ("SET 6, E", 2, 8, 0),
        0x1f4 => ("SET 6, H", 2, 8, 0),
        0x1f5 => ("SET 6, L", 2, 8, 0),
        0x1f6 => ("SET 6, (HL)", 2, 16, 0),
        0x1f7 => ("SET 6, A", 2, 8, 0),
        0x1f8 => ("SET 7, B", 2, 8, 0),
        0x1f9 => ("SET 7, C", 2, 8, 0),
        0x1fa => ("SET 7, D", 2, 8, 0),
        0x1fb => ("SET 7, E", 2, 8, 0),
        0x1fc => ("SET 7, H", 2, 8, 0),
        0x1fd => ("SET 7, L", 2, 8, 0),
        0x1fe => ("SET 7, (HL)", 2, 16, 0),
        0x1ff => ("SET 7, A", 2, 8, 0),
        _ => ("", 0, 0, 0),
    };
    if len == 0 {
        None
    } else {
        Some(Op { label, len, cycles: (t, nt), code })
    }
}

/// The instruction table: 0x000..0x100 for plain opcodes, 0x100..0x200 for
/// the 0xCB-prefixed ones.
pub struct Ops(Vec<Option<Op>>);

impl View for Ops {
    type V = Seq<Option<Op>>;

    closed spec fn view(&self) -> Seq<Option<Op>> {
        self.0@
    }
}

impl Ops {
    /// Every entry of the table is either empty, exactly for the reserved
    /// opcodes, or an instruction that meets `Op::wf` and sits at its own
    /// index.
    pub open spec fn wf(&self) -> bool {
        &&& self@.len() == 0x200
        &&& forall|i: int|
            0 <= i < 0x200 ==> (#[trigger] self@[i] is Some <==> !reserved(i as u16)) && (
            self@[i] matches Some(o) ==> o.wf() && o.code == i)
    }

    pub fn new() -> (r: Ops)
        ensures
            r.wf(),
    {
        let mut ops: Vec<Option<Op>> = Vec::new();
        let mut i: u16 = 0;
        while i < 0x200
            invariant
                i <= 0x200,
                ops@.len() == i,
                forall|j: int|
                    0 <= j < i ==> (#[trigger] ops@[j] is Some <==> !reserved(j as u16)) && (
                    ops@[j] matches Some(o) ==> o.wf() && o.code == j),
            decreases 0x200 - i,
        {
            ops.push(op_info(i));
            i = i + 1;
        }
        Ops(ops)
    }

    /// The instruction at `idx`, if there is one.
    pub fn get(&self, idx: usize) -> (r: Option<&Op>)
        requires
            self.wf(),
        ensures
            idx < 0x200 && !reserved(idx as u16) <==> r is Some,
            r matches Some(o) ==> o.wf() && o.code == idx && *o == self@[idx as int]->Some_0,
    {
        if idx >= self.0.len() {
            return None;
        }
        match &self.0[idx] {
            Some(op) => Some(op),
            None => None,
        }
    }
}

} // verus!
