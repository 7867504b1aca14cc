use vstd::prelude::*;

verus! {

/// Flag masks inside the AF register.
pub const Z: u16 = 0x80;
pub const N: u16 = 0x40;
pub const H: u16 = 0x20;
pub const CY: u16 = 0x10;

/// Memory-mapped I/O register addresses.
pub const P1: u16 = 0xff00;
pub const SB: u16 = 0xff01;
pub const SC: u16 = 0xff02;
pub const DIV: u16 = 0xff04;
pub const TIMA: u16 = 0xff05;
pub const TMA: u16 = 0xff06;
pub const TAC: u16 = 0xff07;
pub const IF: u16 = 0xff0f;
pub const NR10: u16 = 0xff10;
pub const NR11: u16 = 0xff11;
pub const NR12: u16 = 0xff12;
pub const NR13: u16 = 0xff13;
pub const NR14: u16 = 0xff14;
pub const NR21: u16 = 0xff16;
pub const NR22: u16 = 0xff17;
pub const NR23: u16 = 0xff18;
pub const NR24: u16 = 0xff19;
pub const NR30: u16 = 0xff1a;
pub const NR31: u16 = 0xff1b;
pub const NR32: u16 = 0xff1c;
pub const NR33: u16 = 0xff1d;
pub const NR34: u16 = 0xff1e;
pub const NR41: u16 = 0xff20;
pub const NR42: u16 = 0xff21;
pub const NR43: u16 = 0xff22;
pub const NR44: u16 = 0xff23;
pub const NR50: u16 = 0xff24;
pub const NR51: u16 = 0xff25;
pub const NR52: u16 = 0xff26;
pub const WPRAM: u16 = 0xff30;
pub const LCDC: u16 = 0xff40;
pub const STAT: u16 = 0xff41;
pub const SCY: u16 = 0xff42;
pub const SCX: u16 = 0xff43;
pub const LY: u16 = 0xff44;
pub const LYC: u16 = 0xff45;
pub const DMA: u16 = 0xff46;
pub const BGP: u16 = 0xff47;
pub const OBP0: u16 = 0xff48;
pub const OBP1: u16 = 0xff49;
pub const WY: u16 = 0xff4a;
pub const WX: u16 = 0xff4b;
pub const IE: u16 = 0xffff;

/// Selects the upper half of a register.
pub const U: bool = true;
/// Selects the lower half of a register.
pub const D: bool = false;

/// Upper byte of a 16-bit word.
pub open spec fn hi(v: u16) -> u8 {
    (v / 256) as u8
}

/// Lower byte of a 16-bit word.
pub open spec fn lo(v: u16) -> u8 {
    (v % 256) as u8
}

/// The byte selected by `up`.
pub open spec fn half(v: u16, up: bool) -> u8 {
    if up {
        hi(v)
    } else {
        lo(v)
    }
}

/// The word built from an upper and a lower byte.
pub open spec fn word(h: u8, l: u8) -> u16 {
    (h as int * 256 + l as int) as u16
}

/// `v` with the byte selected by `up` replaced by `b`.
pub open spec fn with_half(v: u16, up: bool, b: u8) -> u16 {
    if up {
        word(b, lo(v))
    } else {
        word(hi(v), b)
    }
}

/// Whether any bit of `mask` is set in `v`.
pub open spec fn bit(v: u16, mask: u16) -> bool {
    v & mask != 0
}

/// `v` with the bits of `mask` all set (`b`) or all cleared.
pub open spec fn with_bit(v: u16, mask: u16, b: bool) -> u16 {
    if b {
        v | mask
    } else {
        v & !mask
    }
}

/// The flag byte with Z, N, H and CY given and the low nibble of `f` kept.
pub open spec fn flag_byte(f: u8, z: bool, n: bool, h: bool, cy: bool) -> u8 {
    ((if z { 0x80int } else { 0 }) + (if n { 0x40int } else { 0 }) + (if h { 0x20int } else { 0 })
        + (if cy { 0x10int } else { 0 }) + f as int % 16) as u8
}

/// The AF word holding accumulator `a`, the four flags, and the low nibble of `f`.
pub open spec fn af_word(a: u8, f: u8, z: bool, n: bool, h: bool, cy: bool) -> u16 {
    word(a, flag_byte(f, z, n, h, cy))
}

/// For every register value `v`, the whole word is the upper byte shifted
/// left by eight or-ed with the lower byte; writing a half and reading it back
/// gives what was written and leaves the other half alone; writing back a half
/// that was just read leaves the register unchanged.
pub proof fn lemma_halves(v: u16, b: u8)
    ensures
        ((half(v, U) as u16) << 8) | (half(v, D) as u16) == v,
        word(hi(v), lo(v)) == v,
        v as int == hi(v) as int * 256 + lo(v) as int,
        hi(word(b, lo(v))) == b,
        lo(word(b, lo(v))) == lo(v),
        lo(word(hi(v), b)) == b,
        hi(word(hi(v), b)) == hi(v),
        hi(with_half(v, U, b)) == b,
        lo(with_half(v, D, b)) == b,
        with_half(v, U, hi(v)) == v,
        with_half(v, D, lo(v)) == v,
        half(with_half(v, U, b), D) == half(v, D),
        half(with_half(v, D, b), U) == half(v, U),
{
    let h = hi(v);
    let l = lo(v);
    assert(((h as u16) << 8) | (l as u16) == v) by (bit_vector)
        requires
            h == (v / 256) as u8,
            l == (v % 256) as u8,
    ;
}

/// One 16-bit register of the CPU.
pub struct Reg {
    val: u16,
}

impl View for Reg {
    type V = u16;

    closed spec fn view(&self) -> u16 {
        self.val
    }
}

impl Reg {
    pub fn new() -> (r: Reg)
        ensures
            r@ == 0,
    {
        Reg { val: 0 }
    }

    pub fn get_16(&self) -> (r: u16)
        ensures
            r == self@,
    {
        self.val
    }

    pub fn set_16(&mut self, val: u16)
        ensures
            final(self)@ == val,
    {
        self.val = val;
    }

    pub fn get_8(&self, up: bool) -> (r: u8)
        ensures
            r == half(self@, up),
    {
        if up {
            (self.val / 256) as u8
        } else {
            (self.val % 256) as u8
        }
    }

    pub fn set_8(&mut self, up: bool, val: u8)
        ensures
            final(self)@ == with_half(old(self)@, up, val),
    {
        if up {
            self.val = val as u16 * 256 + self.val % 256;
        } else {
            self.val = (self.val / 256) * 256 + val as u16;
        }
    }

    pub fn get_bit(&self, mask: u16) -> (r: bool)
        ensures
            r == bit(self@, mask),
    {
        self.val & mask != 0
    }

    pub fn set_bit(&mut self, mask: u16, val: bool)
        ensures
            final(self)@ == with_bit(old(self)@, mask, val),
    {
        if val {
            self.val = self.val | mask;
        } else {
            self.val = self.val & !mask;
        }
    }
}

/// The register file: six 16-bit registers and the interrupt-enable counter.
pub struct Regs {
    pub af: Reg,
    pub bc: Reg,
    pub de: Reg,
    pub hl: Reg,
    pub pc: Reg,
    pub sp: Reg,
    pub ime: Reg,
}

/// The values of the seven registers.
pub ghost struct RegsView {
    pub af: u16,
    pub bc: u16,
    pub de: u16,
    pub hl: u16,
    pub pc: u16,
    pub sp: u16,
    pub ime: u16,
}

impl View for Regs {
    type V = RegsView;

    open spec fn view(&self) -> RegsView {
        RegsView {
            af: self.af@,
            bc: self.bc@,
            de: self.de@,
            hl: self.hl@,
            pc: self.pc@,
            sp: self.sp@,
            ime: self.ime@,
        }
    }
}

impl Regs {
    pub fn new() -> (r: Regs)
        ensures
            r.af@ == 0 && r.bc@ == 0 && r.de@ == 0 && r.hl@ == 0,
            r.pc@ == 0 && r.sp@ == 0 && r.ime@ == 0,
    {
        Regs {
            af: Reg::new(),
            bc: Reg::new(),
            de: Reg::new(),
            hl: Reg::new(),
            pc: Reg::new(),
            sp: Reg::new(),
            ime: Reg::new(),
        }
    }

    /// Puts the registers in the state the boot program hands over; with
    /// `debug` the boot program is skipped and execution starts at 0x0100.
    pub fn init(&mut self, debug: bool)
        ensures
            final(self).af@ == 0x01b0,
            final(self).bc@ == 0x0013,
            final(self).de@ == 0x00d8,
            final(self).hl@ == 0x014d,
            final(self).pc@ == (if debug { 0x100u16 } else { 0u16 }),
            final(self).sp@ == 0xfffe,
            final(self).ime@ == 0,
    {
        self.af.set_16(0x01b0);
        self.bc.set_16(0x0013);
        self.de.set_16(0x00d8);
        self.hl.set_16(0x014d);
        self.pc.set_16(if debug { 0x100 } else { 0x0 });
        self.sp.set_16(0xfffe);
        self.ime.set_16(0);
    }
}

/// Reads a whole register.
pub fn grr(r: &Reg) -> (v: u16)
    ensures
        v == r@,
{
    r.get_16()
}

/// Writes a whole register.
pub fn srr(r: &mut Reg, v: u16)
    ensures
        final(r)@ == v,
{
    r.set_16(v);
}

/// Reads one half of a register.
pub fn gr(r: (&Reg, bool)) -> (v: u8)
    ensures
        v == half(r.0@, r.1),
{
    r.0.get_8(r.1)
}

/// Writes one half of a register.
pub fn sr(r: (&mut Reg, bool), v: u8)
    ensures
        final(r.0)@ == with_half(old(r.0)@, r.1, v),
{
    r.0.set_8(r.1, v);
}

/// Reads a flag.
pub fn gf(r: (&Reg, u16)) -> (v: bool)
    ensures
        v == bit(r.0@, r.1),
{
    r.0.get_bit(r.1)
}

/// Writes a flag.
pub fn sf(r: (&mut Reg, u16), v: bool)
    ensures
        final(r.0)@ == with_bit(old(r.0)@, r.1, v),
{
    r.0.set_bit(r.1, v);
}

/// Writes accumulator and flags of AF in one step; the low nibble of F is kept.
pub fn set_af(af: &mut Reg, a: u8, z: bool, n: bool, h: bool, cy: bool)
    ensures
        final(af)@ == af_word(a, lo(old(af)@), z, n, h, cy),
{
    let f = af.get_8(D);
    let fb: u8 = (if z { 0x80u8 } else { 0 }) + (if n { 0x40u8 } else { 0 }) + (if h { 0x20u8 } else {
        0
    }) + (if cy { 0x10u8 } else { 0 }) + f % 16;
    af.set_16(a as u16 * 256 + fb as u16);
}

/// Writes the four flags of AF; the accumulator and the low nibble of F are kept.
pub fn set_flags(af: &mut Reg, z: bool, n: bool, h: bool, cy: bool)
    ensures
        final(af)@ == af_word(hi(old(af)@), lo(old(af)@), z, n, h, cy),
{
    let a = af.get_8(U);
    set_af(af, a, z, n, h, cy);
}

} // verus!
