use crate::input::{p1_value, Inputs};
use crate::mbc::{zeros, Cart, CartView, RtcTime, MBC};
use crate::reg::{
    BGP, DIV, DMA, IE, LCDC, LYC, NR10, NR11, NR12, NR14, NR21, NR22, NR24, NR30, NR31, NR32,
    NR34, NR41, NR42, NR43, NR44, NR50, NR51, NR52, OBP0, OBP1, P1, SCX, SCY, STAT, TAC, TIMA,
    TMA, WX, WY,
};
use vstd::prelude::*;

verus! {

/// Size of the address space.
pub const MEM_SZ: usize = 0x10000;

/// The sound registers 0xff10..=0xff3f, kept apart so that an audio thread
/// can take a copy of them.
pub struct SndMem(Vec<u8>);

impl View for SndMem {
    type V = Seq<u8>;

    closed spec fn view(&self) -> Seq<u8> {
        self.0@
    }
}

impl SndMem {
    pub fn new() -> (r: SndMem)
        ensures
            r@ == Seq::new(0x30, |i: int| 0u8),
    {
        SndMem(zeros(0x30))
    }

    pub fn get(&self, addr: u16) -> (r: u8)
        requires
            0xff10 <= addr <= 0xff3f,
            self@.len() == 0x30,
        ensures
            r == self@[addr - 0xff10],
    {
        self.0[addr as usize - 0xff10]
    }

    pub fn set(&mut self, addr: u16, val: u8)
        requires
            0xff10 <= addr <= 0xff3f,
            old(self)@.len() == 0x30,
        ensures
            final(self)@ == old(self)@.update(addr - 0xff10, val),
    {
        self.0.set(addr as usize - 0xff10, val);
    }
}

/// Whether `addr` is a sound register.
pub open spec fn is_snd(addr: u16) -> bool {
    0xff10 <= addr <= 0xff3f
}

/// The bus as a whole: the flat byte space, the sound registers, the joypad
/// latch and the cartridge.
pub ghost struct MemView {
    pub data: Seq<u8>,
    pub snd: Seq<u8>,
    pub keys: u8,
    pub cart: CartView,
}

impl MemView {
    /// The PPU mode held in STAT bits 0-1.
    pub open spec fn mode(self) -> u8 {
        self.data[STAT as int] % 4
    }

    /// What a read of `addr` returns; `su` is the supervisor path, which
    /// bypasses the joypad matrix and the OAM blocking of modes 2 and 3.
    pub open spec fn get(self, addr: u16, su: bool) -> u8 {
        match self.cart.read(addr) {
            Some(v) => v,
            None => if is_snd(addr) {
                self.snd[addr - 0xff10]
            } else if !su && addr == P1 {
                p1_value(self.data[P1 as int], self.keys)
            } else if !su && 0xfe00 <= addr <= 0xfe9f && self.mode() >= 2 {
                0xff
            } else {
                self.data[addr as int]
            },
        }
    }

    /// The byte space after a DMA transfer from page `val`: OAM receives the
    /// 160 bytes from `val << 8`, read through the supervisor path.
    pub open spec fn dma_data(self, val: u8) -> Seq<u8> {
        Seq::new(
            self.data.len(),
            |j: int|
                if 0xfe00 <= j < 0xfea0 {
                    self.get((val as int * 256 + (j - 0xfe00)) as u16, true)
                } else {
                    self.data[j]
                },
        )
    }

    /// The bus after a write of `val` at `addr`; `su` is the supervisor
    /// path, which bypasses the DIV reset, the DMA trigger and the OAM
    /// blocking. `now` is the clock reading an MBC3 latch captures.
    pub open spec fn set(self, addr: u16, val: u8, su: bool, now: RtcTime) -> MemView {
        match self.cart.write(addr, val, now) {
            Some(c) => MemView { cart: c, ..self },
            None => if is_snd(addr) {
                MemView { snd: self.snd.update(addr - 0xff10, val), ..self }
            } else if !su && addr == DIV {
                MemView { data: self.data.update(DIV as int, 0), ..self }
            } else if !su && addr == DMA {
                MemView { data: self.dma_data(val), ..self }
            } else if !su && 0xfe00 <= addr <= 0xfe9f && self.mode() >= 2 {
                self
            } else {
                MemView { data: self.data.update(addr as int, val), ..self }
            },
        }
    }
}

/// Whether a write of `val` at `addr` is the second step of the MBC3
/// clock-latch sequence, the only write that captures the clock.
pub open spec fn latches(c: CartView, addr: u16, val: u8) -> bool {
    (c.mbc matches MBC::M3(m) && !m.lat_clk) && 0x6000 <= addr <= 0x7fff && val == 1
}

/// `new` is `old` after a non-supervisor write of `val` at `addr`.
pub open spec fn wrote(old: MemView, new: MemView, addr: u16, val: u8) -> bool {
    new == old.set(addr, val, false, new.cart.clock())
}

/// `new` is `old` after two non-supervisor writes, in order.
pub open spec fn wrote2(old: MemView, new: MemView, a1: u16, v1: u8, a2: u16, v2: u8) -> bool {
    new == old.set(a1, v1, false, new.cart.clock()).set(a2, v2, false, new.cart.clock())
}

/// The byte addresses that the power-on register values set.
pub open spec fn init_io_addr(a: int) -> bool {
    a == DIV as int || a == TIMA as int || a == TMA as int || a == TAC as int ||
        a == LCDC as int || a == SCY as int || a == SCX as int || a == LYC as int ||
        a == BGP as int || a == OBP0 as int || a == OBP1 as int || a == WY as int ||
        a == WX as int || a == IE as int
}

/// The sound registers that the power-on register values set.
pub open spec fn init_snd_addr(a: int) -> bool {
    a == NR10 as int || a == NR11 as int || a == NR12 as int || a == NR14 as int ||
        a == NR21 as int || a == NR22 as int || a == NR24 as int || a == NR30 as int ||
        a == NR31 as int || a == NR32 as int || a == NR34 as int || a == NR41 as int ||
        a == NR42 as int || a == NR43 as int || a == NR44 as int || a == NR50 as int ||
        a == NR51 as int || a == NR52 as int
}

/// The memory bus.
pub struct Mem {
    pub data: Vec<u8>,
    pub snd: SndMem,
    pub inputs: Inputs,
    pub cart: Cart,
}

impl View for Mem {
    type V = MemView;

    open spec fn view(&self) -> MemView {
        MemView { data: self.data@, snd: self.snd@, keys: self.inputs.keys, cart: self.cart@ }
    }
}

impl MemView {
    pub open spec fn wf(self) -> bool {
        self.data.len() == MEM_SZ && self.snd.len() == 0x30 && self.cart.wf()
    }
}

impl Mem {
    pub open spec fn wf(&self) -> bool {
        self@.wf()
    }

    /// A bus whose bytes are all zero, with no cartridge.
    pub fn new() -> (r: Mem)
        ensures
            r.wf(),
            r@.data == Seq::new(MEM_SZ as nat, |i: int| 0u8),
            r@.snd == Seq::new(0x30, |i: int| 0u8),
            r@.keys == 0,
            r@.cart.read(0) is None,
            forall|a: u16, v: u8, t: RtcTime| #[trigger] r@.cart.write(a, v, t) is None,
            forall|a: u16| #[trigger] r@.cart.read(a) is None,
    {
        reveal(CartView::read);
        reveal(CartView::write);
        Mem { data: zeros(MEM_SZ), snd: SndMem::new(), inputs: Inputs::new(), cart: Cart::empty() }
    }

    /// Inserts a cartridge: the first 0x8000 bytes of its image go to the
    /// byte space, then `boot` overlays 0x0000..0x0100.
    pub fn insert(&mut self, cart: Cart, boot: &Vec<u8>)
        requires
            old(self).wf(),
            cart@.wf(),
        ensures
            final(self).wf(),
            final(self)@.cart == cart@,
            final(self)@.snd == old(self)@.snd,
            final(self)@.keys == old(self)@.keys,
            forall|i: int|
                0 <= i < MEM_SZ ==> #[trigger] final(self)@.data[i] == if i < 0x100 && i
                    < boot@.len() {
                    boot@[i]
                } else if i < 0x8000 && i < cart@.rom.len() {
                    cart@.rom[i]
                } else {
                    old(self)@.data[i]
                },
    {
        self.load_rom(0x8000, &cart.rom);
        self.load_rom(0x100, boot);
        self.cart = cart;
    }

    /// Puts the cartridge's own bytes back over 0x0000..0x0100, which the boot
    /// program covered.
    pub fn restore_boot(&mut self)
        requires
            old(self).wf(),
        ensures
            final(self).wf(),
            final(self)@ == (MemView {
                data: Seq::new(
                    MEM_SZ as nat,
                    |i: int|
                        if i < 0x100 && i < old(self)@.cart.rom.len() {
                            old(self)@.cart.rom[i]
                        } else {
                            old(self)@.data[i]
                        },
                ),
                ..old(self)@
            }),
    {
        let ghost d0 = self.data@;
        let n = if self.cart.rom.len() < 0x100 {
            self.cart.rom.len()
        } else {
            0x100
        };
        let mut i: usize = 0;
        while i < n
            invariant
                i <= n <= 0x100,
                n <= self.cart.rom.len(),
                self.wf(),
                self@.cart == old(self)@.cart,
                self@.snd == old(self)@.snd,
                self@.keys == old(self)@.keys,
                d0 == old(self)@.data,
                forall|j: int|
                    0 <= j < MEM_SZ ==> #[trigger] self.data@[j] == if j < i {
                        self.cart.rom@[j]
                    } else {
                        d0[j]
                    },
            decreases n - i,
        {
            let b = self.cart.rom[i];
            self.data.set(i, b);
            i = i + 1;
        }
        assert(self.data@ =~= Seq::new(
            MEM_SZ as nat,
            |i: int|
                if i < 0x100 && i < old(self)@.cart.rom.len() {
                    old(self)@.cart.rom[i]
                } else {
                    old(self)@.data[i]
                },
        ));
    }

    /// Copies the first `len` bytes of `rom` (fewer if it is shorter) to the
    /// start of the byte space.
    pub fn load_rom(&mut self, len: usize, rom: &Vec<u8>)
        requires
            old(self).wf(),
            len <= MEM_SZ,
        ensures
            final(self).wf(),
            final(self)@.cart == old(self)@.cart,
            final(self)@.snd == old(self)@.snd,
            final(self)@.keys == old(self)@.keys,
            forall|i: int|
                0 <= i < MEM_SZ ==> #[trigger] final(self)@.data[i] == if i < len && i
                    < rom@.len() {
                    rom@[i]
                } else {
                    old(self)@.data[i]
                },
    {
        let n = if rom.len() < len {
            rom.len()
        } else {
            len
        };
        let mut i: usize = 0;
        while i < n
            invariant
                i <= n <= len <= MEM_SZ,
                n <= rom.len(),
                self.wf(),
                self@.cart == old(self)@.cart,
                self@.snd == old(self)@.snd,
                self@.keys == old(self)@.keys,
                forall|j: int|
                    0 <= j < MEM_SZ ==> #[trigger] self.data@[j] == if j < i {
                        rom@[j]
                    } else {
                        old(self)@.data[j]
                    },
            decreases n - i,
        {
            self.data.set(i, rom[i]);
            i = i + 1;
        }
    }

    /// Non-supervisor read.
    pub fn nu_get(&self, addr: u16) -> (r: u8)
        requires
            self.wf(),
        ensures
            r == self@.get(addr, false),
    {
        self.get(addr, false)
    }

    /// Supervisor read.
    pub fn su_get(&self, addr: u16) -> (r: u8)
        requires
            self.wf(),
        ensures
            r == self@.get(addr, true),
    {
        self.get(addr, true)
    }

    pub fn get(&self, addr: u16, su: bool) -> (r: u8)
        requires
            self.wf(),
        ensures
            r == self@.get(addr, su),
    {
        if let Some(res) = self.cart.get(addr) {
            res
        } else if addr >= 0xff10 && addr <= 0xff3f {
            self.snd.get(addr)
        } else {
            if !su {
                if addr == P1 {
                    return Inputs::get_p1(self);
                }
                if 0xfe00 <= addr && addr <= 0xfe9f && self.data[STAT as usize] % 4 >= 2 {
                    return 0xff;
                }
            }
            self.data[addr as usize]
        }
    }

    /// Non-supervisor write.
    pub fn nu_set(&mut self, addr: u16, val: u8)
        requires
            old(self).wf(),
        ensures
            final(self).wf(),
            final(self)@ == old(self)@.set(addr, val, false, final(self)@.cart.clock()),
    {
        self.set(addr, val, false);
    }

    /// Supervisor write.
    pub fn su_set(&mut self, addr: u16, val: u8)
        requires
            old(self).wf(),
        ensures
            final(self).wf(),
            final(self)@ == old(self)@.set(addr, val, true, final(self)@.cart.clock()),
    {
        self.set(addr, val, true);
    }

    fn dma(&mut self, val: u8)
        requires
            old(self).wf(),
        ensures
            final(self).wf(),
            final(self)@ == (MemView { data: old(self)@.dma_data(val), ..old(self)@ }),
    {
        let ghost m0 = self@;
        let base: u16 = val as u16 * 256;
        let mut i: u16 = 0;
        while i < 0xa0
            invariant
                i <= 0xa0,
                base == val as int * 256,
                self.wf(),
                m0.wf(),
                self@.cart == m0.cart,
                self@.snd == m0.snd,
                self@.keys == m0.keys,
                forall|j: int|
                    0 <= j < MEM_SZ ==> #[trigger] self@.data[j] == if 0xfe00 <= j < 0xfe00 + i {
                        m0.get((val as int * 256 + (j - 0xfe00)) as u16, true)
                    } else {
                        m0.data[j]
                    },
            decreases 0xa0 - i,
        {
            let src = base + i;
            let b = self.su_get(src);
            assert(b == m0.get(src, true)) by {
                assert(self@.cart.read(src) == m0.cart.read(src));
                if !is_snd(src) && m0.cart.read(src) is None {
                    assert(self@.data[src as int] == m0.data[src as int]);
                }
            }
            let dst = 0xfe00 + i;
            self.data.set(dst as usize, b);
            i = i + 1;
        }
        assert(self@.data =~= m0.dma_data(val));
    }

    pub fn set(&mut self, addr: u16, val: u8, su: bool)
        requires
            old(self).wf(),
        ensures
            final(self).wf(),
            final(self)@ == old(self)@.set(addr, val, su, final(self)@.cart.clock()),
    {
        if let Some(_) = self.cart.set(addr, val) {
        } else if addr >= 0xff10 && addr <= 0xff3f {
            self.snd.set(addr, val);
        } else {
            let mut tmp = val;
            if !su {
                if addr == DIV {
                    tmp = 0;
                } else if addr == DMA {
                    return self.dma(val);
                } else if 0xfe00 <= addr && addr <= 0xfe9f && self.data[STAT as usize] % 4 >= 2 {
                    return ;
                }
            }
            self.data.set(addr as usize, tmp);
        }
    }

    /// Supervisor write of an I/O register outside the sound block.
    fn io(&mut self, addr: u16, val: u8)
        requires
            old(self).wf(),
            0xff00 <= addr,
            !is_snd(addr),
        ensures
            final(self).wf(),
            final(self)@ == (MemView { data: old(self)@.data.update(addr as int, val), ..old(self)@ }),
    {
        proof {
            lemma_io_write(self@, addr, val);
        }
        self.su_set(addr, val);
    }

    /// Writes the power-on values of the timer, sound and LCD registers;
    /// nothing else changes.
    pub fn init_spe_reg(&mut self)
        requires
            old(self).wf(),
        ensures
            final(self).wf(),
            final(self)@.cart == old(self)@.cart,
            final(self)@.keys == old(self)@.keys,
            final(self)@.data[DIV as int] == 0x00,
            final(self)@.data[TIMA as int] == 0x00,
            final(self)@.data[TMA as int] == 0x00,
            final(self)@.data[TAC as int] == 0x00,
            final(self)@.data[LCDC as int] == 0x91,
            final(self)@.data[SCY as int] == 0x00,
            final(self)@.data[SCX as int] == 0x00,
            final(self)@.data[LYC as int] == 0x00,
            final(self)@.data[BGP as int] == 0xfc,
            final(self)@.data[OBP0 as int] == 0xff,
            final(self)@.data[OBP1 as int] == 0xff,
            final(self)@.data[WY as int] == 0x00,
            final(self)@.data[WX as int] == 0x00,
            final(self)@.data[IE as int] == 0x00,
            final(self)@.snd[NR10 - 0xff10] == 0x80,
            final(self)@.snd[NR11 - 0xff10] == 0xbf,
            final(self)@.snd[NR12 - 0xff10] == 0xf3,
            final(self)@.snd[NR14 - 0xff10] == 0xbf,
            final(self)@.snd[NR21 - 0xff10] == 0x3f,
            final(self)@.snd[NR22 - 0xff10] == 0x00,
            final(self)@.snd[NR24 - 0xff10] == 0xbf,
            final(self)@.snd[NR30 - 0xff10] == 0x7f,
            final(self)@.snd[NR31 - 0xff10] == 0xff,
            final(self)@.snd[NR32 - 0xff10] == 0x9f,
            final(self)@.snd[NR34 - 0xff10] == 0xbf,
            final(self)@.snd[NR41 - 0xff10] == 0xff,
            final(self)@.snd[NR42 - 0xff10] == 0x00,
            final(self)@.snd[NR43 - 0xff10] == 0x00,
            final(self)@.snd[NR44 - 0xff10] == 0xbf,
            final(self)@.snd[NR50 - 0xff10] == 0x77,
            final(self)@.snd[NR51 - 0xff10] == 0xf3,
            final(self)@.snd[NR52 - 0xff10] == 0xf1,
            forall|a: int|
                0 <= a < MEM_SZ && !init_io_addr(a) ==> #[trigger] final(self)@.data[a]
                    == old(self)@.data[a],
            forall|i: int|
                0 <= i < 0x30 && !init_snd_addr(i + 0xff10) ==> #[trigger] final(self)@.snd[i]
                    == old(self)@.snd[i],
    {
        let ghost m0 = self@;
        self.io(DIV, 0x00);
        self.io(TIMA, 0x00);
        self.io(TMA, 0x00);
        self.io(TAC, 0x00);
        self.snd.set(NR10, 0x80);
        self.snd.set(NR11, 0xbf);
        self.snd.set(NR12, 0xf3);
        self.snd.set(NR14, 0xbf);
        self.snd.set(NR21, 0x3f);
        self.snd.set(NR22, 0x00);
        self.snd.set(NR24, 0xbf);
        self.snd.set(NR30, 0x7f);
        self.snd.set(NR31, 0xff);
        self.snd.set(NR32, 0x9f);
        self.snd.set(NR34, 0xbf);
        self.snd.set(NR41, 0xff);
        self.snd.set(NR42, 0x00);
        self.snd.set(NR43, 0x00);
        self.snd.set(NR44, 0xbf);
        self.snd.set(NR50, 0x77);
        self.snd.set(NR51, 0xf3);
        self.snd.set(NR52, 0xf1);
        self.io(LCDC, 0x91);
        self.io(SCY, 0x00);
        self.io(SCX, 0x00);
        self.io(LYC, 0x00);
        self.io(BGP, 0xfc);
        self.io(OBP0, 0xff);
        self.io(OBP1, 0xff);
        self.io(WY, 0x00);
        self.io(WX, 0x00);
        self.io(IE, 0x00);
    }
}

/// A write depends on the clock reading only when it latches the clock;
/// then the reading is what the cartridge holds afterwards.
pub proof fn lemma_set_clock(m: MemView, a: u16, v: u8, su: bool, t1: RtcTime, t2: RtcTime)
    ensures
        !latches(m.cart, a, v) ==> m.set(a, v, su, t1) == m.set(a, v, su, t2),
        !latches(m.cart, a, v) ==> m.set(a, v, su, t1).cart.clock() == m.cart.clock(),
        latches(m.cart, a, v) ==> m.set(a, v, su, t1).cart.clock() == t1 && !latches(
            m.set(a, v, su, t1).cart,
            a,
            v,
        ),
        latches(m.cart, a, v) ==> (m.set(a, v, su, t1).cart.mbc matches MBC::M3(n) && n.lat_clk),
{
    reveal(CartView::write);
}

/// Two writes in a row compose: each sees the clock reading that the bus
/// holds at the end.
pub proof fn lemma_two_writes(
    m: MemView,
    m1: MemView,
    m2: MemView,
    a1: u16,
    v1: u8,
    su1: bool,
    a2: u16,
    v2: u8,
    su2: bool,
)
    requires
        m.cart.wf(),
        m1 == m.set(a1, v1, su1, m1.cart.clock()),
        m2 == m1.set(a2, v2, su2, m2.cart.clock()),
    ensures
        m2 == m.set(a1, v1, su1, m2.cart.clock()).set(a2, v2, su2, m2.cart.clock()),
{
    lemma_set_clock(m, a1, v1, su1, m1.cart.clock(), m2.cart.clock());
    if latches(m.cart, a1, v1) {
        lemma_set_clock(m1, a2, v2, su2, m2.cart.clock(), m2.cart.clock());
        assert(m1.cart.mbc matches MBC::M3(n) && n.lat_clk);
        assert(!latches(m1.cart, a2, v2));
        assert(m2.cart.clock() == m1.cart.clock());
    }
}

/// The cartridge claims no address from 0xc000 up.
pub proof fn lemma_high_free(c: CartView, a: u16)
    requires
        0xc000 <= a,
    ensures
        c.read(a) is None,
        forall|v: u8, t: RtcTime| #[trigger] c.write(a, v, t) is None,
{
    reveal(CartView::read);
    reveal(CartView::write);
}

/// VRAM, and everything from OAM up but the sound registers, reads on the
/// supervisor path as the byte space holds it.
pub proof fn lemma_plain_read(m: MemView, a: u16)
    requires
        (0x8000 <= a <= 0x9fff) || (0xc000 <= a && !is_snd(a)),
    ensures
        m.get(a, true) == m.data[a as int],
{
    reveal(CartView::read);
}

/// The I/O registers and high RAM (from 0xff00), sound registers aside,
/// are plain bytes of the byte space on the supervisor path.
pub proof fn lemma_io_write(m: MemView, a: u16, v: u8)
    requires
        0xff00 <= a,
        !is_snd(a),
    ensures
        forall|t: RtcTime| #[trigger]
            m.set(a, v, true, t) == (MemView { data: m.data.update(a as int, v), ..m }),
        m.get(a, true) == m.data[a as int],
{
    reveal(CartView::read);
    reveal(CartView::write);
}

/// On the supervisor path a byte written at an address that the cartridge
/// does not claim reads back unchanged.
pub proof fn lemma_su_set_get(m: MemView, a: u16, v: u8, t: RtcTime)
    requires
        m.wf(),
        m.cart.read(a) is None,
        m.cart.write(a, v, t) is None,
    ensures
        m.set(a, v, true, t).get(a, true) == v,
{
}

/// On the non-supervisor path the same holds except at DIV, at DMA, at P1,
/// and in OAM while the PPU is in mode 2 or 3.
pub proof fn lemma_nu_set_get(m: MemView, a: u16, v: u8, t: RtcTime)
    requires
        m.wf(),
        m.cart.read(a) is None,
        m.cart.write(a, v, t) is None,
        a != DIV,
        a != DMA,
        a != P1,
        !(0xfe00 <= a <= 0xfe9f && m.mode() >= 2),
    ensures
        m.set(a, v, false, t).get(a, false) == v,
{
    if a == STAT {
        assert(m.set(a, v, false, t).data[a as int] == v);
    }
}

} // verus!
