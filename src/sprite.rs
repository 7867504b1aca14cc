use crate::mem::{lemma_plain_read, Mem};
use crate::reg::{LCDC, LY, OBP0, OBP1};
use vstd::prelude::*;

verus! {

/// One OAM entry, decoded.
#[derive(Clone, Copy)]
pub struct Sprite {
    /// Screen X and Y of the top-left corner.
    pub pos: (i16, i16),
    /// Address of the first byte of the tile.
    pub tile: u16,
    /// Drawn behind background colours 1-3.
    pub under: bool,
    /// Horizontal and vertical flip.
    pub flip: (bool, bool),
    /// The palette byte (OBP0 or OBP1).
    pub pal: u8,
}

impl Sprite {
    /// The ranges that a decoded OAM entry falls in.
    pub open spec fn wf(&self) -> bool {
        &&& -8 <= self.pos.0 <= 247
        &&& -16 <= self.pos.1 <= 239
        &&& 0x8000 <= self.tile <= 0x8ff0
    }
}

/// Sprite height: 16 rows with LCDC bit 2, else 8.
pub open spec fn spr_h(lcdc: u8) -> int {
    if lcdc & 0x4 != 0 {
        16
    } else {
        8
    }
}

/// OAM entry `id` as the byte space `d` holds it.
pub open spec fn spr_of(d: Seq<u8>, id: int) -> Sprite {
    let addr = 0xfe00 + id * 4;
    let attr = d[addr + 3] & 0xf0;
    let t = if d[LCDC as int] & 0x4 != 0 {
        d[addr + 2] & 0xfe
    } else {
        d[addr + 2]
    };
    Sprite {
        pos: ((d[addr + 1] - 8) as i16, (d[addr] - 16) as i16),
        tile: (0x8000 + t as int * 16) as u16,
        under: attr & 0x80 != 0,
        flip: (attr & 0x20 != 0, attr & 0x40 != 0),
        pal: if attr & 0x10 != 0 {
            d[OBP1 as int]
        } else {
            d[OBP0 as int]
        },
    }
}

/// Whether sprite `s` covers line `ly`.
pub open spec fn on_line(s: Sprite, ly: u8, lcdc: u8) -> bool {
    s.pos.1 <= ly < s.pos.1 + spr_h(lcdc)
}

/// Where a sprite at screen X `x` goes in a list sorted by X: after every
/// sprite whose X is not greater.
pub open spec fn pos_of(s: Seq<Sprite>, x: i16) -> nat
    decreases s.len(),
{
    if s.len() == 0 {
        0
    } else if s.last().pos.0 > x {
        pos_of(s.drop_last(), x)
    } else {
        s.len()
    }
}

/// The sprites of line LY after a scan of OAM entries `0..n`: the first ten
/// on the line in OAM order, kept sorted by X, equal X in OAM order.
pub open spec fn line_sprites(d: Seq<u8>, n: nat) -> Seq<Sprite>
    decreases n,
{
    if n == 0 {
        seq![]
    } else {
        let s = line_sprites(d, (n - 1) as nat);
        let e = spr_of(d, n - 1);
        if s.len() < 10 && on_line(e, d[LY as int], d[LCDC as int]) {
            s.insert(pos_of(s, e.pos.0) as int, e)
        } else {
            s
        }
    }
}

proof fn lemma_spr_of_wf(d: Seq<u8>, id: int)
    requires
        d.len() == 0x10000,
        0 <= id < 40,
    ensures
        spr_of(d, id).wf(),
{
}

/// Every sprite of a line is a decoded OAM entry, and there are at most ten.
pub proof fn lemma_line_sprites_wf(d: Seq<u8>, n: nat)
    requires
        d.len() == 0x10000,
        n <= 40,
    ensures
        line_sprites(d, n).len() <= 10,
        forall|k: int| 0 <= k < line_sprites(d, n).len() ==> #[trigger] line_sprites(d, n)[k].wf(),
    decreases n,
{
    if n > 0 {
        lemma_line_sprites_wf(d, (n - 1) as nat);
        lemma_spr_of_wf(d, n - 1);
        let s = line_sprites(d, (n - 1) as nat);
        let e = spr_of(d, n - 1);
        lemma_pos_of_le(s, e.pos.0);
    }
}

proof fn lemma_pos_of_le(s: Seq<Sprite>, x: i16)
    ensures
        pos_of(s, x) <= s.len(),
    decreases s.len(),
{
    if s.len() > 0 {
        lemma_pos_of_le(s.drop_last(), x);
    }
}

/// The colour index (0-3) at bit `b` of a tile row whose two bit planes are
/// `lo` and `hi`.
pub open spec fn plane_pix(lo: u8, hi: u8, b: u8) -> u8 {
    ((lo >> b) & 1) | (((hi >> b) & 1) << 1)
}

/// What sprite `s` shows at screen X `x` on line `ly`: its colour index,
/// palette and priority, or `None` where it does not cover `x` or is
/// transparent there (index 0) or sprites are off (LCDC bit 1).
pub open spec fn spr_pix(s: Sprite, d: Seq<u8>, x: int) -> Option<(u8, u8, bool)> {
    let lcdc = d[LCDC as int];
    if lcdc & 0x2 == 0 || !(s.pos.0 <= x < s.pos.0 + 8) {
        None
    } else {
        let sx = x - s.pos.0;
        let sy = d[LY as int] - s.pos.1;
        let row = if s.flip.1 {
            spr_h(lcdc) - 1 - sy
        } else {
            sy
        };
        let b = if s.flip.0 {
            sx
        } else {
            7 - sx
        };
        let addr = s.tile as int + row * 2;
        let c = plane_pix(d[addr], d[addr + 1], b as u8);
        if addr < 0x8000 || addr > 0x9ffe || c == 0 {
            None
        } else {
            Some((c, s.pal, s.under))
        }
    }
}

impl Sprite {
    /// Decodes OAM entry `id`.
    pub fn new(m: &Mem, id: usize) -> (r: Sprite)
        requires
            m.wf(),
            id < 40,
        ensures
            r == spr_of(m@.data, id as int),
            r.wf(),
    {
        let addr: u16 = 0xfe00 + id as u16 * 4;
        proof {
            lemma_plain_read(m@, addr);
            lemma_plain_read(m@, (addr + 1) as u16);
            lemma_plain_read(m@, (addr + 2) as u16);
            lemma_plain_read(m@, (addr + 3) as u16);
            lemma_plain_read(m@, LCDC);
            lemma_plain_read(m@, OBP0);
            lemma_plain_read(m@, OBP1);
        }
        let attr = m.su_get(addr + 3) & 0xf0;
        let t = if m.su_get(LCDC) & 0x4 != 0 {
            m.su_get(addr + 2) & 0xfe
        } else {
            m.su_get(addr + 2)
        };
        Sprite {
            pos: (m.su_get(addr + 1) as i16 - 8, m.su_get(addr) as i16 - 16),
            tile: 0x8000 + t as u16 * 16,
            under: attr & 0x80 != 0,
            flip: (attr & 0x20 != 0, attr & 0x40 != 0),
            pal: m.su_get(
                if attr & 0x10 != 0 {
                    OBP1
                } else {
                    OBP0
                },
            ),
        }
    }

    /// The sprite's pixel at screen X `x` on the current line.
    pub fn get_pix(&self, m: &Mem, x: usize) -> (r: Option<(u8, u8, bool)>)
        requires
            m.wf(),
            x < 160,
            self.wf(),
        ensures
            r == spr_pix(*self, m@.data, x as int),
    {
        proof {
            lemma_plain_read(m@, LCDC);
            lemma_plain_read(m@, LY);
        }
        let lcdc = m.su_get(LCDC);
        let xi = x as i16;
        if lcdc & 0x2 == 0 || !(self.pos.0 <= xi && xi < self.pos.0 + 8) {
            return None;
        }
        let sx = xi - self.pos.0;
        let sy = m.su_get(LY) as i16 - self.pos.1;
        let h: i16 = if lcdc & 0x4 != 0 {
            16
        } else {
            8
        };
        let row = if self.flip.1 {
            h - 1 - sy
        } else {
            sy
        };
        let b = if self.flip.0 {
            sx
        } else {
            7 - sx
        };
        let addr = self.tile as i32 + row as i32 * 2;
        if addr < 0x8000 || addr > 0x9ffe {
            return None;
        }
        proof {
            lemma_plain_read(m@, addr as u16);
            lemma_plain_read(m@, (addr + 1) as u16);
        }
        let c = ((m.su_get(addr as u16) >> b as u8) & 1) | (((m.su_get(addr as u16 + 1) >> b as u8)
            & 1) << 1);
        if c == 0 {
            None
        } else {
            Some((c, self.pal, self.under))
        }
    }

    /// Fills `sprites` with the sprites of the current line: the first ten
    /// OAM entries that cover LY, sorted by X, equal X in OAM order.
    pub fn update(sprites: &mut Vec<Sprite>, m: &Mem)
        requires
            m.wf(),
        ensures
            final(sprites)@ == line_sprites(m@.data, 40),
    {
        proof {
            lemma_plain_read(m@, LCDC);
            lemma_plain_read(m@, LY);
        }
        let h: i16 = if m.su_get(LCDC) & 0x4 != 0 {
            16
        } else {
            8
        };
        let ly = m.su_get(LY) as i16;
        sprites.clear();
        let mut i: usize = 0;
        while i < 40
            invariant
                i <= 40,
                m.wf(),
                sprites@ == line_sprites(m@.data, i as nat),
                sprites@.len() <= 10,
                h == spr_h(m@.data[LCDC as int]),
                ly == m@.data[LY as int],
            decreases 40 - i,
        {
            if sprites.len() < 10 {
                let spr = Sprite::new(m, i);
                if ly >= spr.pos.1 && ly < spr.pos.1 + h {
                    let mut j = sprites.len();
                    assert(sprites@.take(j as int) =~= sprites@);
                    while j > 0 && sprites[j - 1].pos.0 > spr.pos.0
                        invariant
                            j <= sprites@.len(),
                            pos_of(sprites@, spr.pos.0) == pos_of(sprites@.take(j as int), spr.pos.0),
                        decreases j,
                    {
                        assert(sprites@.take(j as int).drop_last() =~= sprites@.take(j - 1));
                        j = j - 1;
                    }
                    if j > 0 {
                        assert(sprites@.take(j as int).last() == sprites@[j - 1]);
                    }
                    sprites.insert(j, spr);
                }
            }
            i = i + 1;
        }
    }
}

} // verus!
