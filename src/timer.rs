use crate::mem::{lemma_io_write, Mem, MemView};
use crate::reg::{DIV, IF, TAC, TIMA, TMA};
use vstd::prelude::*;

verus! {

/// Cycles per DIV increment.
pub const DIV_T: usize = 256;

/// Cycles per TIMA increment for the clock selected by TAC bits 0-1.
pub open spec fn period(tac: u8) -> nat {
    let c = tac % 4;
    if c == 0 {
        1024
    } else if c == 1 {
        16
    } else if c == 2 {
        64
    } else {
        256
    }
}

/// Whether TAC enables TIMA (bit 2).
pub open spec fn enabled(tac: u8) -> bool {
    (tac / 4) % 2 == 1
}

/// Increments that `cy` cycles produce when the next one is `left` cycles
/// away and they come every `per` cycles.
pub open spec fn tick_count(left: nat, per: nat, cy: nat) -> nat {
    if cy < left {
        0
    } else {
        (1 + (cy - left) as nat / per) as nat
    }
}

/// Cycles to the next increment after `cy` cycles.
pub open spec fn next_left(left: nat, per: nat, cy: nat) -> nat {
    if cy < left {
        (left - cy) as nat
    } else {
        (per - (cy - left) as nat % per) as nat
    }
}

/// TIMA after `ticks` increments, reloading from `tma` on each overflow.
pub open spec fn tima_after(tima: u8, tma: u8, ticks: nat) -> u8
    decreases ticks,
{
    if ticks == 0 {
        tima
    } else {
        let t = tima_after(tima, tma, (ticks - 1) as nat);
        if t == 255 {
            tma
        } else {
            (t + 1) as u8
        }
    }
}

/// Number of overflows among `ticks` increments.
pub open spec fn overflows(tima: u8, tma: u8, ticks: nat) -> nat
    decreases ticks,
{
    if ticks == 0 {
        0
    } else {
        let t = tima_after(tima, tma, (ticks - 1) as nat);
        overflows(tima, tma, (ticks - 1) as nat) + if t == 255 {
            1nat
        } else {
            0
        }
    }
}

/// Counts the increments in `cy` cycles and moves the countdown `left` on.
fn count(left: &mut usize, per: usize, cy: usize) -> (n: usize)
    requires
        1 <= *old(left) <= per,
    ensures
        n == tick_count(*old(left) as nat, per as nat, cy as nat),
        *final(left) == next_left(*old(left) as nat, per as nat, cy as nat),
        1 <= *final(left) <= per,
{
    if cy >= *left {
        let rest = cy - *left;
        *left = per - rest % per;
        1 + rest / per
    } else {
        *left = *left - cy;
        0
    }
}

/// TIMA after `ticks` increments and whether it overflowed on the way.
fn run_tima(tima0: u8, tma: u8, ticks: usize) -> (r: (u8, bool))
    ensures
        r.0 == tima_after(tima0, tma, ticks as nat),
        r.1 == (overflows(tima0, tma, ticks as nat) > 0),
{
    let mut tima = tima0;
    let mut over = false;
    let mut i: usize = 0;
    while i < ticks
        invariant
            i <= ticks,
            tima == tima_after(tima0, tma, i as nat),
            over == (overflows(tima0, tma, i as nat) > 0),
        decreases ticks - i,
    {
        if tima == 255 {
            tima = tma;
            over = true;
        } else {
            tima = tima + 1;
        }
        i = i + 1;
    }
    (tima, over)
}

/// The divider and the programmable timer.
pub struct Timer {
    pub div_cy: usize,
    pub tima_cy: usize,
    pub tima_cy_sav: usize,
    pub tac_sav: u8,
}

/// The timer and bus after `Timer::update` by `cy` cycles from `t0` and
/// `m0`: DIV up once per 256 cycles; with TAC bit 2, TIMA up once per period
/// of the selected clock, reloading from TMA and raising IF bit 2 on
/// overflow; nothing else on the bus changes.
pub open spec fn timer_post(t0: Timer, m0: MemView, cy: usize, t1: Timer, m1: MemView) -> bool {
    let d = m0.data;
    let tt = t0.retarget(d[TAC as int]);
    let ticks = if enabled(d[TAC as int]) {
        tick_count(tt.tima_cy as nat, tt.tima_cy_sav as nat, cy as nat)
    } else {
        0
    };
    let div = ((d[DIV as int] + tick_count(t0.div_cy as nat, 256, cy as nat))
        % 256) as u8;
    let tima = tima_after(d[TIMA as int], d[TMA as int], ticks);
    let iflag = if overflows(d[TIMA as int], d[TMA as int], ticks) > 0 {
        d[IF as int] | 4
    } else {
        d[IF as int]
    };
    &&& m1 == MemView {
        data: d.update(DIV as int, div).update(TIMA as int, tima).update(
            IF as int,
            iflag,
        ),
        ..m0
    }
    &&& t1.div_cy == next_left(t0.div_cy as nat, 256, cy as nat)
    &&& t1.tac_sav == tt.tac_sav
    &&& t1.tima_cy_sav == tt.tima_cy_sav
    &&& t1.tima_cy == if enabled(d[TAC as int]) {
        next_left(tt.tima_cy as nat, tt.tima_cy_sav as nat, cy as nat)
    } else {
        tt.tima_cy as nat
    }
}

impl Timer {
    pub open spec fn wf(&self) -> bool {
        &&& 1 <= self.div_cy <= DIV_T
        &&& self.tac_sav < 4
        &&& self.tima_cy_sav == period(self.tac_sav)
        &&& 1 <= self.tima_cy <= self.tima_cy_sav
    }

    /// The timer after the clock select of `tac` has been taken into account:
    /// a changed select restarts the countdown with the new period.
    pub open spec fn retarget(self, tac: u8) -> Timer {
        if self.tac_sav != tac % 4 {
            Timer {
                tac_sav: tac % 4,
                tima_cy_sav: period(tac) as usize,
                tima_cy: period(tac) as usize,
                ..self
            }
        } else {
            self
        }
    }

    pub fn new(m: &Mem) -> (r: Timer)
        requires
            m.wf(),
        ensures
            r.wf(),
            r.div_cy == DIV_T,
            r.tac_sav == m@.data[TAC as int] % 4,
            r.tima_cy == period(m@.data[TAC as int]),
    {
        let mut result = Timer { div_cy: DIV_T, tima_cy: 0xff, tima_cy_sav: 0xff, tac_sav: 0xff };
        result.new_tima_cy(m);
        result
    }

    fn new_tima_cy(&mut self, m: &Mem)
        requires
            m.wf(),
            old(self).tac_sav >= 4 || old(self).wf(),
            1 <= old(self).div_cy <= DIV_T,
        ensures
            *final(self) == old(self).retarget(m@.data[TAC as int]),
            final(self).wf(),
    {
        proof {
            lemma_io_write(m@, TAC, 0);
        }
        let tmp = m.su_get(TAC) % 4;
        if self.tac_sav != tmp {
            self.tac_sav = tmp;
            self.tima_cy_sav = if tmp == 0 {
                1024
            } else if tmp == 1 {
                16
            } else if tmp == 2 {
                64
            } else {
                256
            };
            self.tima_cy = self.tima_cy_sav;
        }
    }

    /// Advances DIV and TIMA by `cy` cycles. DIV goes up once every 256
    /// cycles; when TAC bit 2 is set TIMA goes up once per period of the
    /// selected clock, reloading from TMA and raising IF bit 2 on overflow.
    #[verifier::rlimit(100)]
    pub fn update(&mut self, m: &mut Mem, cy: usize)
        requires
            old(self).wf(),
            old(m).wf(),
        ensures
            final(self).wf(),
            final(m).wf(),
            timer_post(*old(self), old(m)@, cy, *final(self), final(m)@),
    {
        let ghost m0 = m@;
        let ghost d = m0.data;
        let div_ticks = count(&mut self.div_cy, DIV_T, cy);
        proof {
            lemma_io_write(m@, DIV, 0);
        }
        let div = ((m.su_get(DIV) as usize + div_ticks % 256) % 256) as u8;
        proof {
            lemma_io_write(m@, DIV, div);
        }
        m.su_set(DIV, div);
        self.new_tima_cy(m);
        proof {
            lemma_io_write(m@, TAC, 0);
            lemma_io_write(m@, TMA, 0);
            lemma_io_write(m@, TIMA, 0);
            lemma_io_write(m@, IF, 0);
        }
        let tac = m.su_get(TAC);
        let ticks: usize = if tac / 4 % 2 == 1 {
            count(&mut self.tima_cy, self.tima_cy_sav, cy)
        } else {
            0
        };
        let tma = m.su_get(TMA);
        let tima0 = m.su_get(TIMA);
        let if0 = m.su_get(IF);
        let (tima, over) = run_tima(tima0, tma, ticks);
        proof {
            lemma_io_write(m@, TIMA, tima);
        }
        m.su_set(TIMA, tima);
        if over {
            proof {
                lemma_io_write(m@, IF, if0 | 4);
            }
            m.su_set(IF, if0 | 4);
        }
        assert(m@.data =~= d.update(DIV as int, div).update(TIMA as int, tima).update(
            IF as int,
            if over {
                if0 | 4
            } else {
                if0
            },
        ));
    }
}

/// From `x`, `k` increments that do not reach 0x100 raise TIMA by `k` with
/// no overflow.
pub proof fn lemma_tima_climb(x: u8, tma: u8, k: nat)
    requires
        x as nat + k <= 255,
    ensures
        tima_after(x, tma, k) == x + k,
        overflows(x, tma, k) == 0,
    decreases k,
{
    if k > 0 {
        lemma_tima_climb(x, tma, (k - 1) as nat);
    }
}

proof fn lemma_tima_split(x: u8, tma: u8, a: nat, b: nat)
    ensures
        tima_after(x, tma, a + b) == tima_after(tima_after(x, tma, a), tma, b),
        overflows(x, tma, a + b) == overflows(x, tma, a) + overflows(
            tima_after(x, tma, a),
            tma,
            b,
        ),
    decreases b,
{
    if b > 0 {
        lemma_tima_split(x, tma, a, (b - 1) as nat);
        assert((a + b - 1) as nat == a + (b - 1) as nat);
    }
}

/// From `x`, TIMA overflows exactly once in `256 - x` increments and is
/// then back at TMA.
pub proof fn lemma_tima_wrap(x: u8, tma: u8)
    ensures
        tima_after(x, tma, (256 - x) as nat) == tma,
        overflows(x, tma, (256 - x) as nat) == 1,
{
    let k = (255 - x) as nat;
    lemma_tima_climb(x, tma, k);
    assert((256 - x) as nat == k + 1);
}

/// Starting at TMA, TIMA overflows exactly `n` times in
/// `n * (256 - TMA)` increments.
pub proof fn lemma_tima_cycles(tma: u8, n: nat)
    ensures
        tima_after(tma, tma, n * (256 - tma) as nat) == tma,
        overflows(tma, tma, n * (256 - tma) as nat) == n,
    decreases n,
{
    if n > 0 {
        let w = (256 - tma) as nat;
        let a = ((n - 1) as nat * w) as nat;
        lemma_tima_cycles(tma, (n - 1) as nat);
        assert(n * w == a + w) by (nonlinear_arith)
            requires
                n > 0,
                a == (n - 1) as nat * w,
        ;
        lemma_tima_split(tma, tma, a, w);
        lemma_tima_wrap(tma, tma);
        assert(tima_after(tma, tma, a) == tma);
        assert(tima_after(tma, tma, a + w) == tma);
        assert(overflows(tma, tma, a + w) == n);
        assert(n * (256 - tma) as nat == a + w);
    } else {
        assert(n * (256 - tma) as nat == 0) by (nonlinear_arith)
            requires
                n == 0,
        ;
    }
}

/// Every 256 cycles DIV goes up by exactly one and the countdown to its
/// next increment is where it was.
pub proof fn lemma_div_period(left: nat)
    requires
        1 <= left <= 256,
    ensures
        tick_count(left, 256, 256) == 1,
        next_left(left, 256, 256) == left,
{
    if left == 256 {
        assert(next_left(left, 256, 256) == 256);
    } else {
        assert((256 - left) as nat / 256 == 0);
        assert((256 - left) as nat % 256 == (256 - left) as nat);
    }
}

/// With the 16-cycle clock (TAC = 0x05) TIMA goes up once every 16 cycles,
/// and `(256 - TMA) * 16 * 16` cycles from a fresh countdown starting with
/// TIMA = TMA give exactly 16 overflows, TIMA back at TMA.
pub proof fn lemma_tima_16(tma: u8)
    ensures
        period(0x05) == 16,
        enabled(0x05),
        forall|left: nat| 1 <= left <= 16 ==> #[trigger] tick_count(left, 16, 16) == 1 && next_left(
            left,
            16,
            16,
        ) == left,
        tick_count(16, 16, (256 - tma) as nat * 16 * 16) == (256 - tma) as nat * 16,
        next_left(16, 16, (256 - tma) as nat * 16 * 16) == 16,
        overflows(tma, tma, (256 - tma) as nat * 16) == 16,
        tima_after(tma, tma, (256 - tma) as nat * 16) == tma,
{
    let w = (256 - tma) as nat;
    let cy = w * 16 * 16;
    let q = (w * 16 - 1) as int;
    assert(w >= 1);
    assert(cy - 16 == 16 * q) by (nonlinear_arith)
        requires
            w >= 1,
            cy == w * 16 * 16,
            q == w * 16 - 1,
    ;
    vstd::arithmetic::div_mod::lemma_div_multiples_vanish(q, 16);
    vstd::arithmetic::div_mod::lemma_mod_multiples_basic(q, 16);
    assert(q * 16 == 16 * q) by (nonlinear_arith);
    lemma_tima_cycles(tma, 16);
    assert(16 * w == w * 16) by (nonlinear_arith);
    assert forall|left: nat| 1 <= left <= 16 implies #[trigger] tick_count(left, 16, 16) == 1
        && next_left(left, 16, 16) == left by {
        if left < 16 {
            assert((16 - left) as nat % 16 == (16 - left) as nat);
        }
    }
}

/// Total of a sequence of cycle counts.
pub open spec fn sum(cs: Seq<nat>) -> nat
    decreases cs.len(),
{
    if cs.len() == 0 {
        0
    } else {
        sum(cs.drop_last()) + cs.last()
    }
}

/// The countdown after consecutive calls of `cs` cycles from `left`.
pub open spec fn left_after(left: nat, per: nat, cs: Seq<nat>) -> nat
    decreases cs.len(),
{
    if cs.len() == 0 {
        left
    } else {
        next_left(left_after(left, per, cs.drop_last()), per, cs.last())
    }
}

/// The increments that consecutive calls of `cs` cycles produce from `left`,
/// each call counting from where the one before left the countdown.
pub open spec fn ticks_over(left: nat, per: nat, cs: Seq<nat>) -> nat
    decreases cs.len(),
{
    if cs.len() == 0 {
        0
    } else {
        ticks_over(left, per, cs.drop_last()) + tick_count(
            left_after(left, per, cs.drop_last()),
            per,
            cs.last(),
        )
    }
}

/// `a` cycles and then `b` cycles give the increments, and leave the
/// countdown, of `a + b` cycles at once.
pub proof fn lemma_ticks_split(left: nat, per: nat, a: nat, b: nat)
    requires
        1 <= left <= per,
    ensures
        1 <= next_left(left, per, a) <= per,
        tick_count(left, per, a + b) == tick_count(left, per, a) + tick_count(
            next_left(left, per, a),
            per,
            b,
        ),
        next_left(left, per, a + b) == next_left(next_left(left, per, a), per, b),
{
    if a >= left {
        let x = (a - left) as nat;
        let q = x / per;
        let r = x % per;
        vstd::arithmetic::div_mod::lemma_fundamental_div_mod(x as int, per as int);
        let n1 = (per - r) as nat;
        let y = (a + b - left) as nat;
        if b < n1 {
            assert(y == q * per + (r + b));
            vstd::arithmetic::div_mod::lemma_fundamental_div_mod_converse(
                y as int,
                per as int,
                q as int,
                (r + b) as int,
            );
        } else {
            let b2 = (b - n1) as nat;
            vstd::arithmetic::div_mod::lemma_fundamental_div_mod(b2 as int, per as int);
            let q2 = b2 / per;
            let r2 = b2 % per;
            assert(y == (q + 1 + q2) * per + r2) by (nonlinear_arith)
                requires
                    y == x + b,
                    x == per * q + r,
                    b == b2 + per - r,
                    b2 == per * q2 + r2,
            ;
            vstd::arithmetic::div_mod::lemma_fundamental_div_mod_converse(
                y as int,
                per as int,
                (q + 1 + q2) as int,
                r2 as int,
            );
        }
    } else {
        if a + b >= left {
            assert((a + b - left) as nat == (b - (left - a) as nat) as nat);
        }
    }
}

/// However the cycles are split into consecutive calls, the increments and
/// the countdown are those of one call of the total.
pub proof fn lemma_ticks_over(left: nat, per: nat, cs: Seq<nat>)
    requires
        1 <= left <= per,
    ensures
        ticks_over(left, per, cs) == tick_count(left, per, sum(cs)),
        left_after(left, per, cs) == next_left(left, per, sum(cs)),
        1 <= left_after(left, per, cs) <= per,
    decreases cs.len(),
{
    if cs.len() > 0 {
        lemma_ticks_over(left, per, cs.drop_last());
        lemma_ticks_split(left, per, sum(cs.drop_last()), cs.last());
    } else {
        lemma_ticks_split(left, per, 0, 0);
    }
}

/// DIV: from a fresh countdown, calls totalling `256 * n` cycles, however
/// split, give exactly `n` increments and leave the countdown where it
/// started.
pub proof fn lemma_div_calls(cs: Seq<nat>, n: nat)
    requires
        sum(cs) == 256 * n,
    ensures
        ticks_over(DIV_T as nat, 256, cs) == n,
        left_after(DIV_T as nat, 256, cs) == DIV_T,
{
    lemma_ticks_over(256, 256, cs);
    lemma_periodic(256, n);
}

/// TIMA with the 16-cycle clock (TAC = 0x05): from a fresh countdown, calls
/// totalling `16 * k` cycles, however split, give exactly `k` increments;
/// from TIMA = TMA, `(256 - TMA) * 16 * 16` cycles of calls give 16 times
/// `256 - TMA` increments, which overflow exactly 16 times and leave TIMA
/// at TMA; and from `t0`, `k` increments with `t0 + k <= 255` raise TIMA
/// by `k` with no overflow.
pub proof fn lemma_tima_calls(cs: Seq<nat>, k: nat, tma: u8, t0: u8)
    requires
        sum(cs) == 16 * k,
    ensures
        period(0x05) == 16 && enabled(0x05),
        ticks_over(16, 16, cs) == k,
        left_after(16, 16, cs) == 16,
        k == (256 - tma) as nat * 16 ==> overflows(tma, tma, k) == 16 && tima_after(tma, tma, k)
            == tma,
        t0 as nat + k <= 255 ==> tima_after(t0, tma, k) == t0 + k && overflows(t0, tma, k) == 0,
{
    lemma_ticks_over(16, 16, cs);
    lemma_periodic(16, k);
    lemma_tima_cycles(tma, 16);
    assert(16 * (256 - tma) as nat == (256 - tma) as nat * 16) by (nonlinear_arith);
    if t0 as nat + k <= 255 {
        lemma_tima_climb(t0, tma, k);
    }
}

proof fn lemma_periodic(per: nat, n: nat)
    requires
        per >= 1,
    ensures
        tick_count(per, per, per * n) == n,
        next_left(per, per, per * n) == per,
{
    if n > 0 {
        let q = (n - 1) as nat;
        assert(per * n - per == per * q) by (nonlinear_arith)
            requires
                q == n - 1,
                n > 0,
        ;
        assert(per * n >= per) by (nonlinear_arith)
            requires
                n > 0,
                per >= 1,
        ;
        vstd::arithmetic::div_mod::lemma_fundamental_div_mod_converse(
            (per * q) as int,
            per as int,
            q as int,
            0,
        );
    } else {
        assert(per * n == 0) by (nonlinear_arith)
            requires
                n == 0,
        ;
    }
}

} // verus!
