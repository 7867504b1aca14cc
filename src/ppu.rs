use crate::mem::{lemma_io_write, lemma_plain_read, Mem, MemView};
use crate::reg::{BGP, IF, LCDC, LY, LYC, SCX, SCY, STAT, WX, WY};
use crate::sprite::{lemma_line_sprites_wf, line_sprites, plane_pix, spr_pix, Sprite};
use vstd::prelude::*;

verus! {

pub const LCD_W: usize = 160;
pub const LCD_H: usize = 144;

/// Cycles spent in each mode of a visible line, and per VBlank line.
pub const OAM_T: usize = 80;
pub const DRAW_T: usize = 172;
pub const H_BLK_T: usize = 204;
pub const V_BLK_T: usize = 456;

/// Cycles of one frame, the period at which a switched-off LCD still
/// refreshes.
pub const FRAME_T: usize = 70224;

/// The output colours: 0 for a cleared screen, 1 to 4 for shades 0 to 3.
pub open spec fn color(i: int) -> u32 {
    if i == 0 {
        0x8fff94
    } else if i == 1 {
        0x8fff94
    } else if i == 2 {
        0x00cf0a
    } else if i == 3 {
        0x006605
    } else {
        0x002902
    }
}

pub fn colors(i: usize) -> (r: u32)
    ensures
        r == color(i as int),
{
    if i == 0 {
        0x8fff94
    } else if i == 1 {
        0x8fff94
    } else if i == 2 {
        0x00cf0a
    } else if i == 3 {
        0x006605
    } else {
        0x002902
    }
}

/// The PPU mode.
#[derive(Clone, Copy, PartialEq, Eq, Structural, Debug)]
pub enum State {
    Oam,
    Draw,
    HBlank,
    VBlank,
}

/// STAT bits 0-1 for a mode.
pub open spec fn mode_of(st: State) -> u8 {
    match st {
        State::HBlank => 0,
        State::VBlank => 1,
        State::Oam => 2,
        State::Draw => 3,
    }
}

/// The STAT bit that enables the LCD interrupt on entering a mode.
pub open spec fn stat_src(st: State) -> u8 {
    match st {
        State::HBlank => 0x08,
        State::VBlank => 0x10,
        State::Oam => 0x20,
        State::Draw => 0,
    }
}

/// The byte space after entering mode `st`: STAT bits 0-1 set to the mode,
/// and IF bit 1 raised when STAT enables that mode's interrupt.
pub open spec fn set_mode(d: Seq<u8>, st: State) -> Seq<u8> {
    let s1 = (d[STAT as int] & 0xfc) | mode_of(st);
    let d1 = d.update(STAT as int, s1);
    if s1 & stat_src(st) != 0 {
        d1.update(IF as int, d1[IF as int] | 2)
    } else {
        d1
    }
}

/// The byte space after LY moves to the next line (153 wraps to 0), with
/// the coincidence flag (STAT bit 2) set iff LY equals LYC, and IF bit 1
/// raised on a coincidence that STAT bit 6 enables.
pub open spec fn inc_ly(d: Seq<u8>) -> Seq<u8> {
    let ly = ((d[LY as int] + 1) % 154) as u8;
    let d1 = d.update(LY as int, ly);
    if ly == d[LYC as int] {
        let d2 = d1.update(STAT as int, d1[STAT as int] | 4);
        if d2[STAT as int] & 0x40 != 0 {
            d2.update(IF as int, d2[IF as int] | 2)
        } else {
            d2
        }
    } else {
        d1.update(STAT as int, d1[STAT as int] & 0xfb)
    }
}

/// Address of byte `row * 2` of tile `n`: from 0x8000 with LCDC bit 4, else
/// from 0x9000 with `n` read as signed.
pub open spec fn tile_addr(lcdc: u8, n: u8, row: int) -> int {
    if lcdc & 0x10 == 0 && n < 128 {
        0x9000 + n as int * 16 + row * 2
    } else {
        0x8000 + n as int * 16 + row * 2
    }
}

/// Background colour index at screen X `x` of line LY.
pub open spec fn bg_idx(d: Seq<u8>, x: int) -> u8 {
    let lcdc = d[LCDC as int];
    let bx = (x + d[SCX as int]) % 256;
    let by = (d[LY as int] + d[SCY as int]) % 256;
    let map = (if lcdc & 0x8 == 0 {
        0x9800int
    } else {
        0x9c00
    }) + (by / 8) * 32 + bx / 8;
    let a = tile_addr(lcdc, d[map], by % 8);
    plane_pix(d[a], d[a + 1], (7 - bx % 8) as u8)
}

/// Whether the window covers screen X `x` of line LY.
pub open spec fn win_on(d: Seq<u8>, x: int) -> bool {
    let lcdc = d[LCDC as int];
    lcdc & 0x01 != 0 && lcdc & 0x20 != 0 && x + 7 >= d[WX as int] && d[LY as int] >= d[WY as int]
}

/// Window colour index at screen X `x`, `wy` being the window's own line.
pub open spec fn win_idx(d: Seq<u8>, x: int, wy: u8) -> u8 {
    let lcdc = d[LCDC as int];
    let wx = x + 7 - d[WX as int];
    let map = (if lcdc & 0x40 == 0 {
        0x9800int
    } else {
        0x9c00
    }) + (wy / 8) * 32 + wx / 8;
    let a = tile_addr(lcdc, d[map], (wy % 8) as int);
    plane_pix(d[a], d[a + 1], (7 - wx % 8) as u8)
}

/// Colour index of background and window together: the window where it
/// shows, else the background when LCDC bit 0 is set, else 0.
pub open spec fn bgwin_idx(d: Seq<u8>, x: int, wy: u8) -> u8 {
    if win_on(d, x) {
        win_idx(d, x, wy)
    } else if d[LCDC as int] & 0x01 != 0 {
        bg_idx(d, x)
    } else {
        0
    }
}

/// The pixel of the first sprite from index `k` on that shows at `x`.
pub open spec fn first_spr(s: Seq<Sprite>, d: Seq<u8>, x: int, k: int) -> Option<(u8, u8, bool)>
    decreases s.len() - k,
{
    if k < 0 || k >= s.len() {
        None
    } else {
        match spr_pix(s[k], d, x) {
            Some(p) => Some(p),
            None => first_spr(s, d, x, k + 1),
        }
    }
}

/// Shade (0-3) that palette byte `pal` gives colour index `i`.
pub open spec fn shade(pal: u8, i: u8) -> u8 {
    (pal >> (2 * (i % 4))) & 3
}

/// The output pixel at screen X `x` of line LY: the sprite pixel unless
/// there is none or it is behind a background/window colour other than 0.
pub open spec fn pixel(d: Seq<u8>, s: Seq<Sprite>, x: int, wy: u8) -> u32 {
    let bi = bgwin_idx(d, x, wy);
    match first_spr(s, d, x, 0) {
        Some((c, pal, under)) => if under && bi != 0 {
            color(shade(d[BGP as int], bi) + 1)
        } else {
            color(shade(pal, c) + 1)
        },
        None => color(shade(d[BGP as int], bi) + 1),
    }
}

/// The frame buffer with line LY composed (when LY is a visible line).
pub open spec fn draw_row(b: Seq<u32>, d: Seq<u8>, s: Seq<Sprite>, wy: u8) -> Seq<u32> {
    let y = d[LY as int] as int;
    if y < 144 {
        Seq::new(
            b.len(),
            |i: int|
                if y * 160 <= i < y * 160 + 160 {
                    pixel(d, s, i - y * 160, wy)
                } else {
                    b[i]
                },
        )
    } else {
        b
    }
}

/// Whether the window shows on line LY, so that its own line counter moves.
pub open spec fn win_line(d: Seq<u8>) -> bool {
    let lcdc = d[LCDC as int];
    lcdc & 0x01 != 0 && lcdc & 0x20 != 0 && d[LY as int] >= d[WY as int] && d[WX as int] <= 166
}

/// What the PPU is.
pub ghost struct DisplayView {
    pub cycles: nat,
    pub state: State,
    pub buff: Seq<u32>,
    pub sprites: Seq<Sprite>,
    pub win_y: u8,
}

/// One mode change: the next view, the next byte space, and whether a frame
/// was finished (VBlank to OAM).
pub open spec fn step_spec(v: DisplayView, d: Seq<u8>) -> (DisplayView, Seq<u8>, bool) {
    match v.state {
        State::Oam => (
            DisplayView {
                state: State::Draw,
                cycles: DRAW_T as nat,
                sprites: line_sprites(d, 40),
                ..v
            },
            set_mode(d, State::Draw),
            false,
        ),
        State::Draw => (
            DisplayView {
                state: State::HBlank,
                cycles: H_BLK_T as nat,
                buff: draw_row(v.buff, d, v.sprites, v.win_y),
                ..v
            },
            set_mode(d, State::HBlank),
            false,
        ),
        State::HBlank => if d[LY as int] == 143 {
            let d1 = set_mode(d, State::VBlank);
            (
                DisplayView { state: State::VBlank, cycles: V_BLK_T as nat, ..v },
                inc_ly(d1.update(IF as int, d1[IF as int] | 1)),
                false,
            )
        } else {
            (
                DisplayView {
                    state: State::Oam,
                    cycles: OAM_T as nat,
                    win_y: if win_line(d) {
                        ((v.win_y + 1) % 256) as u8
                    } else {
                        v.win_y
                    },
                    ..v
                },
                inc_ly(set_mode(d, State::Oam)),
                false,
            )
        },
        State::VBlank => if d[LY as int] == 153 {
            (
                DisplayView { state: State::Oam, cycles: OAM_T as nat, win_y: 0, ..v },
                set_mode(inc_ly(d), State::Oam),
                true,
            )
        } else {
            (DisplayView { cycles: V_BLK_T as nat, ..v }, inc_ly(d), false)
        },
    }
}

/// A visible line takes OAM + Draw + HBlank = 456 cycles, as long as a
/// VBlank line, and a frame of 144 visible lines and 10 VBlank lines takes
/// 70224 cycles; each mode change sets the countdown to the next mode's
/// length.
pub proof fn lemma_frame_cycles(v: DisplayView, d: Seq<u8>)
    ensures
        OAM_T + DRAW_T + H_BLK_T == V_BLK_T,
        (OAM_T + DRAW_T + H_BLK_T) * 144 + V_BLK_T * 10 == FRAME_T,
        step_spec(v, d).0.cycles == match step_spec(v, d).0.state {
            State::Oam => OAM_T,
            State::Draw => DRAW_T,
            State::HBlank => H_BLK_T,
            State::VBlank => V_BLK_T,
        },
{
}

/// The PPU and bus after `Display::update` by `cy` cycles from `v0` (whose
/// LCD-off counter is `off0`) and `m0`, returning `frame`: with the LCD off,
/// nothing moves but the refresh counter, and the screen clears every 70224
/// cycles; with it on, a call shorter than the countdown only counts down,
/// and a call that reaches it makes the mode change `step_spec` gives.
pub open spec fn disp_post(
    v0: DisplayView,
    off0: usize,
    m0: MemView,
    cy: usize,
    v1: DisplayView,
    m1: MemView,
    frame: bool,
) -> bool {
    &&& m0.data[LCDC as int] & 0x80 == 0 ==> m1 == m0 && (frame <==> cy
        >= FRAME_T - off0) && (frame ==> v1 == (DisplayView {
        buff: Seq::new((LCD_W * LCD_H) as nat, |i: int| color(0)),
        ..v0
    })) && (!frame ==> v1 == v0)
    &&& m0.data[LCDC as int] & 0x80 != 0 && cy < v0.cycles ==> !frame
        && m1 == m0 && v1 == (DisplayView {
        cycles: (v0.cycles - cy) as nat,
        ..v0
    })
    &&& m0.data[LCDC as int] & 0x80 != 0 && v0.cycles <= cy < v0.cycles
        + OAM_T ==> ({
        let (v, d, f) = step_spec(v0, m0.data);
        &&& frame == f
        &&& m1 == (MemView { data: d, ..m0 })
        &&& v1 == (DisplayView {
            cycles: (v.cycles - (cy - v0.cycles)) as nat,
            ..v
        })
    })
}

/// The pixel-processing unit.
pub struct Display {
    pub cycles: usize,
    pub state: State,
    pub buff: Vec<u32>,
    pub sprites: Vec<Sprite>,
    /// Line of the window being drawn.
    pub win_y: u8,
    /// Cycles since the last refresh while the LCD is off.
    pub off_cy: usize,
}

impl View for Display {
    type V = DisplayView;

    open spec fn view(&self) -> DisplayView {
        DisplayView {
            cycles: self.cycles as nat,
            state: self.state,
            buff: self.buff@,
            sprites: self.sprites@,
            win_y: self.win_y,
        }
    }
}

fn blank() -> (b: Vec<u32>)
    ensures
        b@ == Seq::new((LCD_W * LCD_H) as nat, |i: int| color(0)),
{
    let mut b: Vec<u32> = Vec::new();
    let c = colors(0);
    let mut i: usize = 0;
    while i < LCD_W * LCD_H
        invariant
            i <= LCD_W * LCD_H,
            c == color(0),
            b@ == Seq::new(i as nat, |j: int| color(0)),
        decreases LCD_W * LCD_H - i,
    {
        b.push(c);
        i = i + 1;
        assert(b@ =~= Seq::new(i as nat, |j: int| color(0)));
    }
    b
}

impl Display {
    pub open spec fn wf(&self) -> bool {
        &&& self.buff@.len() == LCD_W * LCD_H
        &&& 1 <= self.cycles <= V_BLK_T
        &&& self.off_cy < FRAME_T
        &&& self.sprites@.len() <= 10
        &&& forall|k: int| 0 <= k < self.sprites@.len() ==> #[trigger] self.sprites@[k].wf()
    }

    /// A PPU at the start of a frame: OAM mode, a cleared screen.
    pub fn new() -> (r: Display)
        ensures
            r.wf(),
            r.state == State::Oam,
            r.cycles == OAM_T,
            r.win_y == 0,
            r.off_cy == 0,
            r@.buff == Seq::new((LCD_W * LCD_H) as nat, |i: int| color(0)),
            r@.sprites.len() == 0,
    {
        Display {
            cycles: OAM_T,
            state: State::Oam,
            buff: blank(),
            sprites: Vec::new(),
            win_y: 0,
            off_cy: 0,
        }
    }

    /// Back to the start of a frame with a cleared screen.
    pub fn reset(&mut self)
        ensures
            final(self).wf(),
            final(self).state == State::Oam,
            final(self).cycles == OAM_T,
            final(self).win_y == 0,
            final(self)@.buff == Seq::new((LCD_W * LCD_H) as nat, |i: int| color(0)),
            final(self)@.sprites.len() == 0,
    {
        *self = Display::new();
    }

    fn update_spr(&mut self, m: &Mem)
        requires
            m.wf(),
        ensures
            final(self)@ == (DisplayView { sprites: line_sprites(m@.data, 40), ..old(self)@ }),
            final(self).off_cy == old(self).off_cy,
            final(self).sprites@.len() <= 10,
            forall|k: int|
                0 <= k < final(self).sprites@.len() ==> #[trigger] final(self).sprites@[k].wf(),
    {
        Sprite::update(&mut self.sprites, m);
        proof {
            lemma_line_sprites_wf(m@.data, 40);
        }
    }

    fn update_ly(m: &mut Mem)
        requires
            old(m).wf(),
        ensures
            final(m).wf(),
            final(m)@ == (MemView { data: inc_ly(old(m)@.data), ..old(m)@ }),
    {
        proof {
            lemma_plain_read(m@, LY);
            lemma_plain_read(m@, LYC);
            lemma_plain_read(m@, STAT);
            lemma_plain_read(m@, IF);
        }
        let ly = ((m.su_get(LY) as u16 + 1) % 154) as u8;
        proof {
            lemma_io_write(m@, LY, ly);
        }
        m.su_set(LY, ly);
        proof {
            lemma_plain_read(m@, LYC);
            lemma_plain_read(m@, STAT);
            lemma_plain_read(m@, IF);
        }
        if ly == m.su_get(LYC) {
            let s = m.su_get(STAT) | 4;
            proof {
                lemma_io_write(m@, STAT, s);
            }
            m.su_set(STAT, s);
            proof {
                lemma_plain_read(m@, STAT);
                lemma_plain_read(m@, IF);
            }
            if m.su_get(STAT) & 0x40 != 0 {
                let f = m.su_get(IF) | 2;
                proof {
                    lemma_io_write(m@, IF, f);
                }
                m.su_set(IF, f);
            }
        } else {
            let s = m.su_get(STAT) & 0xfb;
            proof {
                lemma_io_write(m@, STAT, s);
            }
            m.su_set(STAT, s);
        }
    }

    fn update_stat(m: &mut Mem, st: State) -> (r: State)
        requires
            old(m).wf(),
        ensures
            r == st,
            final(m).wf(),
            final(m)@ == (MemView { data: set_mode(old(m)@.data, st), ..old(m)@ }),
    {
        proof {
            lemma_plain_read(m@, STAT);
        }
        let mode: u8 = match st {
            State::HBlank => 0,
            State::VBlank => 1,
            State::Oam => 2,
            State::Draw => 3,
        };
        let src: u8 = match st {
            State::HBlank => 0x08,
            State::VBlank => 0x10,
            State::Oam => 0x20,
            State::Draw => 0,
        };
        let s1 = (m.su_get(STAT) & 0xfc) | mode;
        proof {
            lemma_io_write(m@, STAT, s1);
        }
        m.su_set(STAT, s1);
        if s1 & src != 0 {
            proof {
                lemma_plain_read(m@, IF);
            }
            let f = m.su_get(IF) | 2;
            proof {
                lemma_io_write(m@, IF, f);
            }
            m.su_set(IF, f);
        }
        st
    }

    fn tile_pix(m: &Mem, lcdc: u8, map: u16, row: u8, col: u8) -> (r: u8)
        requires
            m.wf(),
            0x9800 <= map <= 0x9fff,
            row < 8,
            col < 8,
        ensures
            r == ({
                let a = tile_addr(lcdc, m@.data[map as int], row as int);
                plane_pix(m@.data[a], m@.data[a + 1], (7 - col) as u8)
            }),
    {
        proof {
            lemma_plain_read(m@, map);
        }
        let n = m.su_get(map);
        let a: u16 = if lcdc & 0x10 == 0 && n < 128 {
            0x9000 + n as u16 * 16 + row as u16 * 2
        } else {
            0x8000 + n as u16 * 16 + row as u16 * 2
        };
        proof {
            lemma_plain_read(m@, a);
            lemma_plain_read(m@, (a + 1) as u16);
        }
        let b = 7 - col;
        ((m.su_get(a) >> b) & 1) | (((m.su_get(a + 1) >> b) & 1) << 1)
    }

    /// Background colour index at screen X `x` of the current line.
    pub fn get_bg_pix(m: &Mem, x: usize) -> (r: u8)
        requires
            m.wf(),
            x < LCD_W,
        ensures
            r == bg_idx(m@.data, x as int),
    {
        proof {
            lemma_plain_read(m@, SCX);
            lemma_plain_read(m@, SCY);
            lemma_plain_read(m@, LY);
            lemma_plain_read(m@, LCDC);
        }
        let lcdc = m.su_get(LCDC);
        let bx = (x + m.su_get(SCX) as usize) % 256;
        let by = (m.su_get(LY) as usize + m.su_get(SCY) as usize) % 256;
        let base: usize = if lcdc & 0x8 == 0 {
            0x9800
        } else {
            0x9c00
        };
        let map = (base + (by / 8) * 32 + bx / 8) as u16;
        Display::tile_pix(m, lcdc, map, (by % 8) as u8, (bx % 8) as u8)
    }

    /// Window colour index at screen X `x`, where the window covers it.
    fn get_win_pix(m: &Mem, x: usize, wy: u8) -> (r: Option<u8>)
        requires
            m.wf(),
            x < LCD_W,
        ensures
            r == if win_on(m@.data, x as int) {
                Some(win_idx(m@.data, x as int, wy))
            } else {
                None::<u8>
            },
    {
        proof {
            lemma_plain_read(m@, LCDC);
            lemma_plain_read(m@, WX);
            lemma_plain_read(m@, WY);
            lemma_plain_read(m@, LY);
        }
        let lcdc = m.su_get(LCDC);
        let wx0 = m.su_get(WX) as usize;
        if !(lcdc & 0x01 != 0 && lcdc & 0x20 != 0 && x + 7 >= wx0 && m.su_get(LY) >= m.su_get(WY)) {
            return None;
        }
        let wx = x + 7 - wx0;
        let base: usize = if lcdc & 0x40 == 0 {
            0x9800
        } else {
            0x9c00
        };
        let map = (base + (wy as usize / 8) * 32 + wx / 8) as u16;
        Some(Display::tile_pix(m, lcdc, map, wy % 8, (wx % 8) as u8))
    }

    fn spr_at(&self, m: &Mem, x: usize) -> (r: Option<(u8, u8, bool)>)
        requires
            m.wf(),
            self.wf(),
            x < LCD_W,
        ensures
            r == first_spr(self.sprites@, m@.data, x as int, 0),
    {
        let mut k: usize = 0;
        while k < self.sprites.len()
            invariant
                k <= self.sprites@.len(),
                m.wf(),
                self.wf(),
                x < LCD_W,
                first_spr(self.sprites@, m@.data, x as int, 0) == first_spr(
                    self.sprites@,
                    m@.data,
                    x as int,
                    k as int,
                ),
            decreases self.sprites@.len() - k,
        {
            if let Some(p) = self.sprites[k].get_pix(m, x) {
                return Some(p);
            }
            k = k + 1;
        }
        None
    }

    fn pix(&self, m: &Mem, x: usize) -> (r: u32)
        requires
            m.wf(),
            self.wf(),
            x < LCD_W,
        ensures
            r == pixel(m@.data, self.sprites@, x as int, self.win_y),
    {
        proof {
            lemma_plain_read(m@, LCDC);
            lemma_plain_read(m@, BGP);
        }
        let bi = match Display::get_win_pix(m, x, self.win_y) {
            Some(i) => i,
            None => if m.su_get(LCDC) & 0x01 != 0 {
                Display::get_bg_pix(m, x)
            } else {
                0
            },
        };
        let bgp = m.su_get(BGP);
        match self.spr_at(m, x) {
            Some((c, pal, under)) => if under && bi != 0 {
                colors(((bgp >> (2 * (bi % 4))) & 3) as usize + 1)
            } else {
                colors(((pal >> (2 * (c % 4))) & 3) as usize + 1)
            },
            None => colors(((bgp >> (2 * (bi % 4))) & 3) as usize + 1),
        }
    }

    fn draw(&mut self, m: &Mem)
        requires
            m.wf(),
            old(self).wf(),
        ensures
            final(self).wf(),
            final(self)@ == (DisplayView {
                buff: draw_row(old(self)@.buff, m@.data, old(self)@.sprites, old(self).win_y),
                ..old(self)@
            }),
            final(self).off_cy == old(self).off_cy,
    {
        proof {
            lemma_plain_read(m@, LY);
        }
        let y = m.su_get(LY) as usize;
        if y >= LCD_H {
            return ;
        }
        let ghost b0 = self.buff@;
        let mut x: usize = 0;
        while x < LCD_W
            invariant
                x <= LCD_W,
                y < LCD_H,
                y == m@.data[LY as int],
                m.wf(),
                self.wf(),
                self.sprites@ == old(self).sprites@,
                self.win_y == old(self).win_y,
                self.cycles == old(self).cycles,
                self.state == old(self).state,
                self.off_cy == old(self).off_cy,
                b0 == old(self)@.buff,
                forall|i: int|
                    0 <= i < LCD_W * LCD_H ==> #[trigger] self.buff@[i] == if y * 160 <= i < y * 160
                        + x {
                        pixel(m@.data, self.sprites@, i - y * 160, self.win_y)
                    } else {
                        b0[i]
                    },
            decreases LCD_W - x,
        {
            let p = self.pix(m, x);
            self.buff.set(y * LCD_W + x, p);
            x = x + 1;
        }
        assert(self.buff@ =~= draw_row(b0, m@.data, self.sprites@, self.win_y));
    }

    /// One mode change, as `step_spec` gives it.
    fn advance(&mut self, m: &mut Mem) -> (frame: bool)
        requires
            old(self).wf(),
            old(m).wf(),
        ensures
            final(self).wf(),
            final(m).wf(),
            final(self).off_cy == old(self).off_cy,
            ({
                let (v, d, f) = step_spec(old(self)@, old(m)@.data);
                &&& final(self)@ == v
                &&& final(m)@ == (MemView { data: d, ..old(m)@ })
                &&& frame == f
            }),
    {
        proof {
            lemma_plain_read(m@, LY);
            lemma_plain_read(m@, LCDC);
            lemma_plain_read(m@, WY);
            lemma_plain_read(m@, WX);
        }
        match self.state {
            State::Oam => {
                self.update_spr(m);
                self.state = Display::update_stat(m, State::Draw);
                self.cycles = DRAW_T;
                false
            },
            State::Draw => {
                self.draw(m);
                self.state = Display::update_stat(m, State::HBlank);
                self.cycles = H_BLK_T;
                false
            },
            State::HBlank => {
                if m.su_get(LY) == 143 {
                    self.state = Display::update_stat(m, State::VBlank);
                    self.cycles = V_BLK_T;
                    proof {
                        lemma_plain_read(m@, IF);
                    }
                    let f = m.su_get(IF) | 1;
                    proof {
                        lemma_io_write(m@, IF, f);
                    }
                    m.su_set(IF, f);
                } else {
                    let lcdc = m.su_get(LCDC);
                    if lcdc & 0x01 != 0 && lcdc & 0x20 != 0 && m.su_get(LY) >= m.su_get(WY)
                        && m.su_get(WX) <= 166 {
                        self.win_y = self.win_y.wrapping_add(1);
                    }
                    self.state = Display::update_stat(m, State::Oam);
                    self.cycles = OAM_T;
                }
                Display::update_ly(m);
                false
            },
            State::VBlank => {
                if m.su_get(LY) == 153 {
                    Display::update_ly(m);
                    self.state = Display::update_stat(m, State::Oam);
                    self.cycles = OAM_T;
                    self.win_y = 0;
                    true
                } else {
                    Display::update_ly(m);
                    self.cycles = V_BLK_T;
                    false
                }
            },
        }
    }

    /// Advances the PPU by `cy` cycles; the result says whether a frame was
    /// finished (the end of VBlank, or a refresh period while the LCD is
    /// off), when the screen is to be presented and the keys read. With the
    /// LCD off (LCDC bit 7 clear) the modes do not move; every 70224 cycles
    /// the screen is cleared.
    pub fn update(&mut self, m: &mut Mem, cy: usize) -> (frame: bool)
        requires
            old(self).wf(),
            old(m).wf(),
        ensures
            final(self).wf(),
            final(m).wf(),
            disp_post(old(self)@, old(self).off_cy, old(m)@, cy, final(self)@, final(m)@, frame),
    {
        proof {
            lemma_plain_read(m@, LCDC);
        }
        if m.su_get(LCDC) & 0x80 == 0 {
            let room = FRAME_T - self.off_cy;
            if cy >= room {
                self.off_cy = (cy - room) % FRAME_T;
                self.buff = blank();
                return true;
            } else {
                self.off_cy = self.off_cy + cy;
                return false;
            }
        }
        let mut left = cy;
        let mut frame = false;
        let ghost mut first = true;
        while left >= self.cycles
            invariant
                self.wf(),
                m.wf(),
                left <= cy,
                first ==> left == cy && self@ == old(self)@ && m@ == old(m)@ && !frame,
                !first ==> cy >= old(self).cycles,
                !first && old(self).cycles <= cy < old(self).cycles + OAM_T ==> ({
                    let (v, d, f) = step_spec(old(self)@, old(m)@.data);
                    &&& frame == f
                    &&& m@ == (MemView { data: d, ..old(m)@ })
                    &&& self@ == v
                    &&& left == cy - old(self).cycles
                }),
            decreases left,
        {
            left = left - self.cycles;
            let f = self.advance(m);
            frame = frame || f;
            proof {
                first = false;
            }
        }
        self.cycles = self.cycles - left;
        frame
    }
}

} // verus!
