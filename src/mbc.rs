use vstd::prelude::*;

verus! {

/// A reading of the local clock, as the MBC3 real-time clock exposes it.
#[derive(Clone, Copy, PartialEq, Eq, Structural, Debug)]
pub struct RtcTime {
    pub sec: u8,
    pub min: u8,
    pub hour: u8,
    /// Day of the year, starting from 0.
    pub day: u16,
}

impl RtcTime {
    pub open spec fn wf(self) -> bool {
        self.sec < 60 && self.min < 60 && self.hour < 24 && self.day < 366
    }
}

/// Relies on chrono's `Local::now` and its `Timelike::second`, `minute`,
/// `hour` (documented as 0..=59, 0..=59, 0..=23) and `Datelike::ordinal0`
/// (documented as 0..=365).
#[verifier::external_body]
fn local_time_now() -> (t: RtcTime)
    ensures
        t.wf(),
{
    let now = chrono::Local::now();
    RtcTime {
        sec: chrono::Timelike::second(&now) as u8,
        min: chrono::Timelike::minute(&now) as u8,
        hour: chrono::Timelike::hour(&now) as u8,
        day: chrono::Datelike::ordinal0(&now) as u16,
    }
}

/// Which byte the MBC3 external-RAM window shows.
#[derive(Clone, Copy, PartialEq, Eq, Structural, Debug)]
pub enum RamClk {
    RAM,
    S,
    M,
    H,
    DL,
    DH,
}

/// No paging, no RAM.
#[derive(Clone, Copy, PartialEq, Eq, Structural, Debug)]
pub struct MBC0 {}

/// Control state of an MBC1 cartridge.
#[derive(Clone, Copy, PartialEq, Eq, Structural, Debug)]
pub struct MBC1 {
    pub rom_sz: u8,
    pub rom_nb: u16,
    pub ram_sz: u8,
    pub ram_nb: u16,
    pub ram_en: bool,
}

/// Control state of an MBC2 cartridge.
#[derive(Clone, Copy, PartialEq, Eq, Structural, Debug)]
pub struct MBC2 {
    pub rom_nb: u16,
    pub ram_en: bool,
}

/// Control state of an MBC3 cartridge, with its latched clock.
#[derive(Clone, Copy, PartialEq, Eq, Structural, Debug)]
pub struct MBC3 {
    pub rom_sz: u8,
    pub rom_nb: u16,
    pub ram_sz: u8,
    pub ram_nb: u16,
    pub ram_en: bool,
    pub lat_clk: bool,
    pub ram_clk: RamClk,
    pub loc_tm: RtcTime,
}

/// Control state of an MBC5 cartridge.
#[derive(Clone, Copy, PartialEq, Eq, Structural, Debug)]
pub struct MBC5 {
    pub rom_sz: u8,
    pub rom_nb: u16,
    pub ram_sz: u8,
    pub ram_nb: u16,
    pub ram_en: bool,
}

/// The memory-bank controller of a cartridge.
#[derive(Clone, Copy, PartialEq, Eq, Structural, Debug)]
pub enum MBC {
    M0(MBC0),
    M1(MBC1),
    M2(MBC2),
    M3(MBC3),
    M5(MBC5),
}

/// Number of ROM banks that a header ROM-size code declares.
pub open spec fn rom_banks(code: u8) -> u16 {
    if code >= 8 {
        512
    } else if code == 7 {
        256
    } else if code == 6 {
        128
    } else if code == 5 {
        64
    } else if code == 4 {
        32
    } else if code == 3 {
        16
    } else if code == 2 {
        8
    } else if code == 1 {
        4
    } else {
        2
    }
}

fn rom_banks_exec(code: u8) -> (r: u16)
    ensures
        r == rom_banks(code),
{
    if code >= 8 {
        512
    } else {
        let mut r: u16 = 2;
        let mut i: u8 = 0;
        while i < code
            invariant
                i <= code < 8,
                r as int == rom_banks(i) as int,
            decreases code - i,
        {
            r = r * 2;
            i = i + 1;
        }
        r
    }
}

/// Bytes of cartridge RAM that a header RAM-size code declares.
pub open spec fn ram_bytes(code: u8) -> nat {
    if code == 1 {
        0x800
    } else if code == 2 {
        0x2000
    } else if code == 3 {
        0x8000
    } else if code == 4 {
        0x20000
    } else if code == 5 {
        0x10000
    } else {
        0
    }
}

fn ram_bytes_exec(code: u8) -> (r: usize)
    ensures
        r == ram_bytes(code),
{
    if code == 1 {
        0x800
    } else if code == 2 {
        0x2000
    } else if code == 3 {
        0x8000
    } else if code == 4 {
        0x20000
    } else if code == 5 {
        0x10000
    } else {
        0
    }
}

/// A buffer of `n` zero bytes.
pub fn zeros(n: usize) -> (v: Vec<u8>)
    ensures
        v@ == Seq::new(n as nat, |j: int| 0u8),
{
    let mut v: Vec<u8> = Vec::new();
    let mut i: usize = 0;
    while i < n
        invariant
            i <= n,
            v@ == Seq::new(i as nat, |j: int| 0u8),
        decreases n - i,
    {
        v.push(0);
        i = i + 1;
        assert(v@ =~= Seq::new(i as nat, |j: int| 0u8));
    }
    v
}

/// Byte `i` of a buffer, or 0xff past its end (an open bus).
pub open spec fn byte_at(s: Seq<u8>, i: int) -> u8 {
    if 0 <= i < s.len() {
        s[i]
    } else {
        0xff
    }
}

/// `s` with byte `i` replaced, when `i` lies inside it.
pub open spec fn put_at(s: Seq<u8>, i: int, v: u8) -> Seq<u8> {
    if 0 <= i < s.len() {
        s.update(i, v)
    } else {
        s
    }
}

/// Offset of a 0x4000..=0x7fff address in the ROM image.
pub open spec fn rom_index(bank: u16, addr: u16) -> int {
    addr as int - 0x4000 + bank as int * 0x4000
}

/// Offset of a 0xa000..=0xbfff address in the RAM image.
pub open spec fn ram_index(bank: u16, addr: u16) -> int {
    addr as int - 0xa000 + bank as int * 0x2000
}

/// Value of a latched clock register.
pub open spec fn clock_reg(t: RtcTime, c: RamClk) -> u8 {
    match c {
        RamClk::S => t.sec,
        RamClk::M => t.min,
        RamClk::H => t.hour,
        RamClk::DL => (t.day % 256) as u8,
        RamClk::DH => ((t.day / 256) % 2) as u8,
        RamClk::RAM => 0,
    }
}

/// The enable code: RAM is enabled by a value whose low nibble is 0xA.
pub open spec fn enables_ram(val: u8) -> bool {
    val % 16 == 0xa
}

/// What a cartridge is: its ROM image, its RAM and its controller.
pub ghost struct CartView {
    pub rom: Seq<u8>,
    pub ram: Seq<u8>,
    pub mbc: MBC,
}

impl CartView {
    /// The byte that the cartridge serves at `addr`, or `None` where the bus
    /// serves its own byte.
    #[verifier::opaque]
    pub open spec fn read(self, addr: u16) -> Option<u8> {
        match self.mbc {
            MBC::M0(_) => None,
            MBC::M1(m) => if 0x4000 <= addr <= 0x7fff {
                Some(byte_at(self.rom, rom_index(m.rom_nb, addr)))
            } else if 0xa000 <= addr <= 0xbfff && m.ram_sz != 0 && m.ram_en {
                Some(byte_at(self.ram, ram_index(m.ram_nb, addr)))
            } else {
                None
            },
            MBC::M2(m) => if 0x4000 <= addr <= 0x7fff {
                Some(byte_at(self.rom, rom_index(m.rom_nb, addr)))
            } else if 0xa000 <= addr <= 0xbfff && m.ram_en {
                Some(byte_at(self.ram, addr as int % 0x200))
            } else {
                None
            },
            MBC::M3(m) => if 0x4000 <= addr <= 0x7fff {
                Some(byte_at(self.rom, rom_index(m.rom_nb, addr)))
            } else if 0xa000 <= addr <= 0xbfff && m.ram_en {
                if m.ram_clk != RamClk::RAM {
                    Some(clock_reg(m.loc_tm, m.ram_clk))
                } else if m.ram_sz == 0 {
                    None
                } else {
                    Some(byte_at(self.ram, ram_index(m.ram_nb, addr)))
                }
            } else {
                None
            },
            MBC::M5(m) => if 0x4000 <= addr <= 0x7fff {
                Some(byte_at(self.rom, rom_index(m.rom_nb, addr)))
            } else if 0xa000 <= addr <= 0xbfff && m.ram_sz != 0 && m.ram_en {
                Some(byte_at(self.ram, ram_index(m.ram_nb, addr)))
            } else {
                None
            },
        }
    }

    /// The cartridge after a write of `val` at `addr`, or `None` where the
    /// write is not the cartridge's and the bus stores it. `now` is the clock
    /// reading that an MBC3 latch captures.
    #[verifier::opaque]
    pub open spec fn write(self, addr: u16, val: u8, now: RtcTime) -> Option<CartView> {
        match self.mbc {
            MBC::M0(_) => None,
            MBC::M1(m) => if addr <= 0x1fff {
                Some(CartView { mbc: MBC::M1(MBC1 { ram_en: enables_ram(val), ..m }), ..self })
            } else if addr <= 0x3fff {
                let b = ((val % 32) as u16 % rom_banks(m.rom_sz)) as u16;
                Some(
                    CartView {
                        mbc: MBC::M1(MBC1 { rom_nb: if b == 0 { 1 } else { b }, ..m }),
                        ..self
                    },
                )
            } else if addr <= 0x5fff && m.ram_sz != 0 {
                Some(CartView { mbc: MBC::M1(MBC1 { ram_nb: (val % 4) as u16, ..m }), ..self })
            } else if 0xa000 <= addr <= 0xbfff && m.ram_sz != 0 {
                if m.ram_en {
                    Some(CartView { ram: put_at(self.ram, ram_index(m.ram_nb, addr), val), ..self })
                } else {
                    Some(self)
                }
            } else {
                None
            },
            MBC::M2(m) => if addr <= 0x3fff {
                if (addr / 0x100) % 2 == 0 {
                    Some(CartView { mbc: MBC::M2(MBC2 { ram_en: enables_ram(val), ..m }), ..self })
                } else {
                    let b = (val % 16) as u16;
                    Some(
                        CartView {
                            mbc: MBC::M2(MBC2 { rom_nb: if b == 0 { 1 } else { b }, ..m }),
                            ..self
                        },
                    )
                }
            } else if 0xa000 <= addr <= 0xbfff {
                if m.ram_en {
                    Some(
                        CartView {
                            ram: put_at(self.ram, addr as int % 0x200, (val % 16) as u8),
                            ..self
                        },
                    )
                } else {
                    Some(self)
                }
            } else {
                None
            },
            MBC::M3(m) => if addr <= 0x1fff {
                Some(CartView { mbc: MBC::M3(MBC3 { ram_en: enables_ram(val), ..m }), ..self })
            } else if addr <= 0x3fff {
                let b = ((val % 128) as u16 % rom_banks(m.rom_sz)) as u16;
                Some(
                    CartView {
                        mbc: MBC::M3(MBC3 { rom_nb: if b == 0 { 1 } else { b }, ..m }),
                        ..self
                    },
                )
            } else if addr <= 0x5fff {
                if val <= 3 {
                    Some(
                        CartView {
                            mbc: MBC::M3(MBC3 { ram_clk: RamClk::RAM, ram_nb: val as u16, ..m }),
                            ..self
                        },
                    )
                } else if 8 <= val <= 0xc {
                    let c = if val == 8 {
                        RamClk::S
                    } else if val == 9 {
                        RamClk::M
                    } else if val == 0xa {
                        RamClk::H
                    } else if val == 0xb {
                        RamClk::DL
                    } else {
                        RamClk::DH
                    };
                    Some(CartView { mbc: MBC::M3(MBC3 { ram_clk: c, ..m }), ..self })
                } else {
                    Some(self)
                }
            } else if addr <= 0x7fff {
                if val == 0 && m.lat_clk {
                    Some(CartView { mbc: MBC::M3(MBC3 { lat_clk: false, ..m }), ..self })
                } else if val == 1 && !m.lat_clk {
                    Some(CartView { mbc: MBC::M3(MBC3 { lat_clk: true, loc_tm: now, ..m }), ..self })
                } else {
                    Some(self)
                }
            } else if 0xa000 <= addr <= 0xbfff {
                if m.ram_clk != RamClk::RAM {
                    Some(self)
                } else if m.ram_sz == 0 {
                    None
                } else if m.ram_en {
                    Some(CartView { ram: put_at(self.ram, ram_index(m.ram_nb, addr), val), ..self })
                } else {
                    Some(self)
                }
            } else {
                None
            },
            MBC::M5(m) => if addr <= 0x1fff {
                Some(CartView { mbc: MBC::M5(MBC5 { ram_en: enables_ram(val), ..m }), ..self })
            } else if addr <= 0x2fff {
                Some(
                    CartView {
                        mbc: MBC::M5(
                            MBC5 {
                                rom_nb: (((m.rom_nb / 256) * 256 + val as u16) % rom_banks(m.rom_sz) as int) as u16,
                                ..m
                            },
                        ),
                        ..self
                    },
                )
            } else if addr <= 0x3fff {
                Some(
                    CartView {
                        mbc: MBC::M5(
                            MBC5 {
                                rom_nb: ((m.rom_nb % 256 + (val % 2) as u16 * 256) % rom_banks(m.rom_sz) as int) as u16,
                                ..m
                            },
                        ),
                        ..self
                    },
                )
            } else if addr <= 0x5fff && m.ram_sz != 0 {
                Some(CartView { mbc: MBC::M5(MBC5 { ram_nb: (val % 16) as u16, ..m }), ..self })
            } else if 0xa000 <= addr <= 0xbfff && m.ram_sz != 0 {
                if m.ram_en {
                    Some(CartView { ram: put_at(self.ram, ram_index(m.ram_nb, addr), val), ..self })
                } else {
                    Some(self)
                }
            } else {
                None
            },
        }
    }

    /// The clock reading held by the cartridge (MBC3 only).
    pub open spec fn clock(self) -> RtcTime {
        match self.mbc {
            MBC::M3(m) => m.loc_tm,
            _ => RtcTime { sec: 0, min: 0, hour: 0, day: 0 },
        }
    }

    /// The bank that 0x4000..=0x7fff shows.
    pub open spec fn rom_bank(self) -> u16 {
        match self.mbc {
            MBC::M0(_) => 1,
            MBC::M1(m) => m.rom_nb,
            MBC::M2(m) => m.rom_nb,
            MBC::M3(m) => m.rom_nb,
            MBC::M5(m) => m.rom_nb,
        }
    }

    /// Bounds on the bank registers, which every write keeps.
    pub open spec fn wf(self) -> bool {
        match self.mbc {
            MBC::M0(_) => true,
            MBC::M1(m) => m.rom_nb < 512 && m.ram_nb < 4,
            MBC::M2(m) => m.rom_nb < 16,
            MBC::M3(m) => m.rom_nb < 128 && m.ram_nb < 4 && m.loc_tm.wf(),
            MBC::M5(m) => m.rom_nb < 512 && m.ram_nb < 16,
        }
    }
}

/// A cartridge: ROM image, cartridge RAM, and the controller that pages them.
pub struct Cart {
    pub rom: Vec<u8>,
    pub ram: Vec<u8>,
    pub mbc: MBC,
}

impl View for Cart {
    type V = CartView;

    open spec fn view(&self) -> CartView {
        CartView { rom: self.rom@, ram: self.ram@, mbc: self.mbc }
    }
}

/// The controller kind that a header cartridge-type byte names.
pub open spec fn mbc_kind(t: u8) -> int {
    if t == 1 || t == 2 || t == 3 {
        1
    } else if t == 5 || t == 6 {
        2
    } else if t == 0x0f || t == 0x10 || t == 0x11 {
        3
    } else if 0x19 <= t <= 0x1e {
        5
    } else {
        0
    }
}

impl Cart {
    /// A cartridge with no ROM and no controller.
    pub fn empty() -> (r: Cart)
        ensures
            r@.rom.len() == 0,
            r@.ram.len() == 0,
            r@.mbc == MBC::M0(MBC0 {}),
    {
        Cart { rom: Vec::new(), ram: Vec::new(), mbc: MBC::M0(MBC0 {}) }
    }

    /// The cartridge that a ROM image describes: the controller from header
    /// byte 0x147, the sizes from 0x148 and 0x149. The RAM is `saved` when a
    /// battery save is given, else zero-filled to the declared size (512
    /// half-bytes on MBC2).
    pub fn new(rom: Vec<u8>, saved: Option<Vec<u8>>) -> (r: Cart)
        ensures
            r@.rom == rom@,
            r@.wf(),
            r@.rom_bank() == 1,
            rom@.len() <= 0x149 ==> r@.mbc == MBC::M0(MBC0 {}),
            rom@.len() > 0x149 ==> mbc_kind(rom@[0x147]) == match r@.mbc {
                MBC::M0(_) => 0int,
                MBC::M1(_) => 1,
                MBC::M2(_) => 2,
                MBC::M3(_) => 3,
                MBC::M5(_) => 5,
            },
            rom@.len() > 0x149 ==> match r@.mbc {
                MBC::M1(m) => m.rom_sz == rom@[0x148] && m.ram_sz == rom@[0x149] && m.ram_nb
                    == 0 && !m.ram_en,
                MBC::M2(m) => !m.ram_en,
                MBC::M3(m) => m.rom_sz == rom@[0x148] && m.ram_sz == rom@[0x149] && m.ram_nb == 0 && !m.ram_en && m.lat_clk
                    && m.ram_clk == RamClk::RAM,
                MBC::M5(m) => m.rom_sz == rom@[0x148] && m.ram_sz == rom@[0x149] && m.ram_nb == 0
                    && !m.ram_en,
                MBC::M0(_) => true,
            },
            r@.mbc != MBC::M0(MBC0 {}) ==> match saved {
                Some(s) => r@.ram == s@,
                None => r@.ram == Seq::new(
                    if r@.mbc is M2 {
                        0x200
                    } else {
                        ram_bytes(rom@[0x149])
                    },
                    |i: int| 0u8,
                ),
            },
    {
        if rom.len() <= 0x149 {
            return Cart { rom, ram: Vec::new(), mbc: MBC::M0(MBC0 {}) };
        }
        let t = rom[0x147];
        let rom_sz = rom[0x148];
        let ram_sz = rom[0x149];
        let mbc = if t == 1 || t == 2 || t == 3 {
            MBC::M1(MBC1 { rom_sz, rom_nb: 1, ram_sz, ram_nb: 0, ram_en: false })
        } else if t == 5 || t == 6 {
            MBC::M2(MBC2 { rom_nb: 1, ram_en: false })
        } else if t == 0x0f || t == 0x10 || t == 0x11 {
            MBC::M3(
                MBC3 {
                    rom_sz,
                    rom_nb: 1,
                    ram_sz,
                    ram_nb: 0,
                    ram_en: false,
                    lat_clk: true,
                    ram_clk: RamClk::RAM,
                    loc_tm: local_time_now(),
                },
            )
        } else if 0x19 <= t && t <= 0x1e {
            MBC::M5(MBC5 { rom_sz, rom_nb: 1, ram_sz, ram_nb: 0, ram_en: false })
        } else {
            MBC::M0(MBC0 {})
        };
        let ram = match saved {
            Some(s) => s,
            None => {
                let n = if t == 5 || t == 6 {
                    0x200
                } else {
                    ram_bytes_exec(ram_sz)
                };
                zeros(n)
            },
        };
        Cart { rom, ram, mbc }
    }

    fn rom_byte(&self, bank: u16, addr: u16) -> (r: u8)
        requires
            0x4000 <= addr <= 0x7fff,
            bank < 512,
        ensures
            r == byte_at(self.rom@, rom_index(bank, addr)),
    {
        let i = addr as usize - 0x4000 + bank as usize * 0x4000;
        if i < self.rom.len() {
            self.rom[i]
        } else {
            0xff
        }
    }

    fn ram_byte(&self, i: usize) -> (r: u8)
        ensures
            r == byte_at(self.ram@, i as int),
    {
        if i < self.ram.len() {
            self.ram[i]
        } else {
            0xff
        }
    }

    fn put_ram(&mut self, i: usize, v: u8)
        ensures
            final(self).ram@ == put_at(old(self).ram@, i as int, v),
            final(self).rom@ == old(self).rom@,
            final(self).mbc == old(self).mbc,
    {
        if i < self.ram.len() {
            self.ram.set(i, v);
        }
    }

    /// The byte the cartridge serves at `addr`, if the address is its own.
    pub fn get(&self, addr: u16) -> (r: Option<u8>)
        requires
            self@.wf(),
        ensures
            r == self@.read(addr),
    {
        reveal(CartView::read);
        match self.mbc {
            MBC::M0(_) => None,
            MBC::M1(m) => if 0x4000 <= addr && addr <= 0x7fff {
                Some(self.rom_byte(m.rom_nb, addr))
            } else if 0xa000 <= addr && addr <= 0xbfff && m.ram_sz != 0 && m.ram_en {
                Some(self.ram_byte(addr as usize - 0xa000 + m.ram_nb as usize * 0x2000))
            } else {
                None
            },
            MBC::M2(m) => if 0x4000 <= addr && addr <= 0x7fff {
                Some(self.rom_byte(m.rom_nb, addr))
            } else if 0xa000 <= addr && addr <= 0xbfff && m.ram_en {
                Some(self.ram_byte(addr as usize % 0x200))
            } else {
                None
            },
            MBC::M3(m) => if 0x4000 <= addr && addr <= 0x7fff {
                Some(self.rom_byte(m.rom_nb, addr))
            } else if 0xa000 <= addr && addr <= 0xbfff && m.ram_en {
                match m.ram_clk {
                    RamClk::RAM => if m.ram_sz == 0 {
                        None
                    } else {
                        Some(self.ram_byte(addr as usize - 0xa000 + m.ram_nb as usize * 0x2000))
                    },
                    RamClk::S => Some(m.loc_tm.sec),
                    RamClk::M => Some(m.loc_tm.min),
                    RamClk::H => Some(m.loc_tm.hour),
                    RamClk::DL => Some((m.loc_tm.day % 256) as u8),
                    RamClk::DH => Some(((m.loc_tm.day / 256) % 2) as u8),
                }
            } else {
                None
            },
            MBC::M5(m) => if 0x4000 <= addr && addr <= 0x7fff {
                Some(self.rom_byte(m.rom_nb, addr))
            } else if 0xa000 <= addr && addr <= 0xbfff && m.ram_sz != 0 && m.ram_en {
                Some(self.ram_byte(addr as usize - 0xa000 + m.ram_nb as usize * 0x2000))
            } else {
                None
            },
        }
    }

    /// Writes `val` at `addr` if the address is the cartridge's; `None`
    /// leaves the cartridge unchanged and the write to the bus.
    pub fn set(&mut self, addr: u16, val: u8) -> (r: Option<()>)
        requires
            old(self)@.wf(),
        ensures
            final(self)@.wf(),
            match old(self)@.write(addr, val, final(self)@.clock()) {
                Some(c) => r is Some && final(self)@ == c,
                None => r is None && final(self)@ == old(self)@,
            },
    {
        reveal(CartView::write);
        match self.mbc {
            MBC::M0(_) => None,
            MBC::M1(m) => if addr <= 0x1fff {
                self.mbc = MBC::M1(MBC1 { ram_en: val % 16 == 0xa, ..m });
                Some(())
            } else if addr <= 0x3fff {
                let b = (val % 32) as u16 % rom_banks_exec(m.rom_sz);
                self.mbc = MBC::M1(MBC1 { rom_nb: if b == 0 { 1 } else { b }, ..m });
                Some(())
            } else if addr <= 0x5fff && m.ram_sz != 0 {
                self.mbc = MBC::M1(MBC1 { ram_nb: (val % 4) as u16, ..m });
                Some(())
            } else if 0xa000 <= addr && addr <= 0xbfff && m.ram_sz != 0 {
                if m.ram_en {
                    self.put_ram(addr as usize - 0xa000 + m.ram_nb as usize * 0x2000, val);
                }
                Some(())
            } else {
                None
            },
            MBC::M2(m) => if addr <= 0x3fff {
                if (addr / 0x100) % 2 == 0 {
                    self.mbc = MBC::M2(MBC2 { ram_en: val % 16 == 0xa, ..m });
                } else {
                    let b = (val % 16) as u16;
                    self.mbc = MBC::M2(MBC2 { rom_nb: if b == 0 { 1 } else { b }, ..m });
                }
                Some(())
            } else if 0xa000 <= addr && addr <= 0xbfff {
                if m.ram_en {
                    self.put_ram(addr as usize % 0x200, val % 16);
                }
                Some(())
            } else {
                None
            },
            MBC::M3(m) => if addr <= 0x1fff {
                self.mbc = MBC::M3(MBC3 { ram_en: val % 16 == 0xa, ..m });
                Some(())
            } else if addr <= 0x3fff {
                let b = (val % 128) as u16 % rom_banks_exec(m.rom_sz);
                proof {
                    vstd::arithmetic::div_mod::lemma_mod_decreases(
                        (val % 128) as nat,
                        rom_banks(m.rom_sz) as nat,
                    );
                }
                self.mbc = MBC::M3(MBC3 { rom_nb: if b == 0 { 1 } else { b }, ..m });
                Some(())
            } else if addr <= 0x5fff {
                if val <= 3 {
                    self.mbc = MBC::M3(MBC3 { ram_clk: RamClk::RAM, ram_nb: val as u16, ..m });
                } else if 8 <= val && val <= 0xc {
                    let c = if val == 8 {
                        RamClk::S
                    } else if val == 9 {
                        RamClk::M
                    } else if val == 0xa {
                        RamClk::H
                    } else if val == 0xb {
                        RamClk::DL
                    } else {
                        RamClk::DH
                    };
                    self.mbc = MBC::M3(MBC3 { ram_clk: c, ..m });
                }
                Some(())
            } else if addr <= 0x7fff {
                if val == 0 && m.lat_clk {
                    self.mbc = MBC::M3(MBC3 { lat_clk: false, ..m });
                } else if val == 1 && !m.lat_clk {
                    let now = local_time_now();
                    self.mbc = MBC::M3(MBC3 { lat_clk: true, loc_tm: now, ..m });
                }
                Some(())
            } else if 0xa000 <= addr && addr <= 0xbfff {
                match m.ram_clk {
                    RamClk::RAM => if m.ram_sz == 0 {
                        None
                    } else {
                        if m.ram_en {
                            self.put_ram(addr as usize - 0xa000 + m.ram_nb as usize * 0x2000, val);
                        }
                        Some(())
                    },
                    _ => Some(()),
                }
            } else {
                None
            },
            MBC::M5(m) => if addr <= 0x1fff {
                self.mbc = MBC::M5(MBC5 { ram_en: val % 16 == 0xa, ..m });
                Some(())
            } else if addr <= 0x2fff {
                let b = ((m.rom_nb / 256) * 256 + val as u16) % rom_banks_exec(m.rom_sz);
                self.mbc = MBC::M5(MBC5 { rom_nb: b, ..m });
                Some(())
            } else if addr <= 0x3fff {
                let b = (m.rom_nb % 256 + (val % 2) as u16 * 256) % rom_banks_exec(m.rom_sz);
                self.mbc = MBC::M5(MBC5 { rom_nb: b, ..m });
                Some(())
            } else if addr <= 0x5fff && m.ram_sz != 0 {
                self.mbc = MBC::M5(MBC5 { ram_nb: (val % 16) as u16, ..m });
                Some(())
            } else if 0xa000 <= addr && addr <= 0xbfff && m.ram_sz != 0 {
                if m.ram_en {
                    self.put_ram(addr as usize - 0xa000 + m.ram_nb as usize * 0x2000, val);
                }
                Some(())
            } else {
                None
            },
        }
    }
}

/// A selected bank of 0 promoted to 1.
pub open spec fn bank_or_one(b: u16) -> u16 {
    if b == 0 {
        1
    } else {
        b
    }
}

/// Writing 0 to the ROM-bank register leaves bank 1 selected on MBC1, MBC2
/// and MBC3 and bank 0 on MBC5 (whose upper bank bit is clear); any value
/// written there is reduced to the controller's bank width (5 bits on MBC1,
/// 4 on MBC2, 7 on MBC3, 9 on MBC5) and, on MBC1, MBC3 and MBC5, masked to
/// the number of banks that the header declares.
pub proof fn lemma_rom_bank_write(c: CartView, addr: u16, val: u8, now: RtcTime)
    requires
        c.wf(),
        0x2000 <= addr <= 0x3fff,
        c.mbc is M2 ==> (addr / 0x100) % 2 == 1,
        c.mbc is M5 ==> addr <= 0x2fff,
    ensures
        c.mbc !is M0 ==> c.write(addr, val, now) is Some,
        c.write(addr, val, now) matches Some(n) ==> {
            &&& n.wf()
            &&& val == 0 ==> n.rom_bank() == match c.mbc {
                MBC::M5(m) => (((m.rom_nb / 256) * 256) as u16 % rom_banks(m.rom_sz)) as u16,
                _ => 1,
            }
            &&& c.mbc matches MBC::M1(m) ==> n.rom_bank() == bank_or_one(
                ((val % 32) as u16 % rom_banks(m.rom_sz)) as u16,
            ) && n.rom_bank() < 32 && n.rom_bank() < rom_banks(m.rom_sz)
            &&& c.mbc is M2 ==> n.rom_bank() == bank_or_one((val % 16) as u16) && n.rom_bank() < 16
            &&& c.mbc matches MBC::M3(m) ==> n.rom_bank() == bank_or_one(
                ((val % 128) as u16 % rom_banks(m.rom_sz)) as u16,
            ) && n.rom_bank() < 128 && n.rom_bank() < rom_banks(m.rom_sz)
            &&& c.mbc matches MBC::M5(m) ==> n.rom_bank() == (((m.rom_nb / 256) * 256 + val as u16)
                % rom_banks(m.rom_sz) as int) as u16 && n.rom_bank() < rom_banks(m.rom_sz)
        },
{
    reveal(CartView::write);
    if let MBC::M3(m) = c.mbc {
        vstd::arithmetic::div_mod::lemma_mod_decreases((val % 128) as nat, rom_banks(m.rom_sz) as nat);
    }
}

} // verus!
