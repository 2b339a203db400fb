//! Frame-accurate animation advance, driven by tick counts.

use vstd::prelude::*;

use crate::render::BitmapAsset;

verus! {

/// Counts simulation ticks and advances a frame cursor once every
/// `tick_per_frame` ticks, wrapping modulo `total` frames.
pub struct AnimationTicker {
    pub tick_per_frame: usize,
    pub tick_cnt: usize,
    pub total: usize,
    pub cur: usize,
}

impl AnimationTicker {
    /// The cursor stays inside the frame sequence and the sub-frame counter
    /// inside one frame.
    pub open spec fn wf(self) -> bool {
        &&& 1 <= self.tick_per_frame
        &&& 1 <= self.total
        &&& self.tick_cnt < self.tick_per_frame
        &&& self.cur < self.total
    }

    /// The state after one tick: the sub-frame counter advances; when it
    /// completes a frame, the cursor advances, wrapping at `total`.
    pub open spec fn ticked(self) -> Self {
        if self.tick_cnt + 1 == self.tick_per_frame {
            AnimationTicker {
                tick_cnt: 0,
                cur: if self.cur + 1 == self.total { 0 } else { (self.cur + 1) as usize },
                ..self
            }
        } else {
            AnimationTicker { tick_cnt: (self.tick_cnt + 1) as usize, ..self }
        }
    }

    /// Whether one tick from this state completes a full cycle, i.e. the
    /// cursor wraps from the last frame back to the first.
    pub open spec fn cycle_done(self) -> bool {
        self.tick_cnt + 1 == self.tick_per_frame && self.cur + 1 == self.total
    }

    pub fn new(tick_per_frame: usize, total: usize) -> (r: Self)
        requires
            1 <= tick_per_frame,
            1 <= total,
        ensures
            r == (AnimationTicker { tick_per_frame, tick_cnt: 0, total, cur: 0 }),
            r.wf(),
    {
        Self { tick_per_frame, tick_cnt: 0, total, cur: 0 }
    }

    /// Advance by one tick; the result signals that a full cycle just
    /// completed.
    pub fn tick(&mut self) -> (cycle_done: bool)
        requires
            old(self).wf(),
        ensures
            *final(self) == old(self).ticked(),
            cycle_done == old(self).cycle_done(),
            final(self).wf(),
    {
        self.tick_cnt = self.tick_cnt + 1;
        if self.tick_cnt == self.tick_per_frame {
            self.tick_cnt = 0;
            self.cur = self.cur + 1;
            if self.cur == self.total {
                self.cur = 0;
                return true;
            } else {
                return false;
            }
        }
        false
    }
}

/// An ordered sequence of bitmaps advanced by a ticker.  The cursor invariant
/// keeps `cur_bitmap` in range.
pub struct AnimatedBitmap {
    pub animation_tick: AnimationTicker,
    pub bitmaps: Vec<BitmapAsset>,
}

impl AnimatedBitmap {
    pub open spec fn wf(self) -> bool {
        &&& self.animation_tick.wf()
        &&& self.animation_tick.total == self.bitmaps@.len()
    }

    /// The state after one tick: only the ticker advances; the frames are
    /// fixed.
    pub open spec fn ticked(self) -> Self {
        AnimatedBitmap { animation_tick: self.animation_tick.ticked(), ..self }
    }

    /// Whether one tick from this state completes a full cycle.
    pub open spec fn cycle_done(self) -> bool {
        self.animation_tick.cycle_done()
    }

    /// The bitmap under the cursor.
    pub open spec fn spec_cur_bitmap(self) -> BitmapAsset {
        self.bitmaps@[self.animation_tick.cur as int]
    }

    pub fn new(bitmaps: Vec<BitmapAsset>, tick_per_frame: usize) -> (r: Self)
        requires
            bitmaps@.len() >= 1,
            tick_per_frame >= 1,
        ensures
            r.wf(),
            r.bitmaps == bitmaps,
            r.animation_tick == (AnimationTicker {
                tick_per_frame,
                tick_cnt: 0,
                total: bitmaps@.len() as usize,
                cur: 0,
            }),
    {
        let total = bitmaps.len();
        Self { animation_tick: AnimationTicker::new(tick_per_frame, total), bitmaps }
    }

    /// Advance by one tick; the result signals that a full cycle just
    /// completed.
    pub fn tick(&mut self) -> (cycle_done: bool)
        requires
            old(self).wf(),
        ensures
            *final(self) == old(self).ticked(),
            cycle_done == old(self).cycle_done(),
            final(self).wf(),
    {
        self.animation_tick.tick()
    }

    pub fn cur_bitmap(&self) -> (r: BitmapAsset)
        requires
            self.wf(),
        ensures
            r == self.spec_cur_bitmap(),
    {
        self.bitmaps[self.animation_tick.cur]
    }
}

/// The ticker state after `n` ticks.
pub open spec fn ticker_iterated(t: AnimationTicker, n: nat) -> AnimationTicker
    decreases n,
{
    if n == 0 {
        t
    } else {
        ticker_iterated(t, (n - 1) as nat).ticked()
    }
}

/// Animation cursor invariant and cycle cadence: starting from a fresh
/// ticker, after `n` ticks the sub-frame counter is `n % tick_per_frame` and
/// the cursor is `(n / tick_per_frame) % total` — in particular always below
/// `total` — and the `n`-th tick reports a completed cycle exactly when `n`
/// is a positive multiple of `tick_per_frame * total`: once per full cycle.
pub proof fn lemma_animation_cycle(tpf: usize, total: usize, n: nat)
    requires
        1 <= tpf,
        1 <= total,
    ensures
        ({
            let t0 = AnimationTicker { tick_per_frame: tpf, tick_cnt: 0, total, cur: 0 };
            let tn = ticker_iterated(t0, n);
            &&& tn.wf()
            &&& tn.tick_per_frame == tpf
            &&& tn.total == total
            &&& tn.tick_cnt == (n as int) % (tpf as int)
            &&& tn.cur == ((n as int) / (tpf as int)) % (total as int)
            &&& n >= 1 ==> (ticker_iterated(t0, (n - 1) as nat).cycle_done() <==> (n as int) % (
            tpf as int * total as int) == 0)
        }),
    decreases n,
{
    let t0 = AnimationTicker { tick_per_frame: tpf, tick_cnt: 0, total, cur: 0 };
    let f = tpf as int;
    let t = total as int;
    if n == 0 {
        vstd::arithmetic::div_mod::lemma_small_mod(0, tpf as nat);
        assert(0int / f == 0 && 0int % t == 0) by (nonlinear_arith)
            requires
                f >= 1 && t >= 1,
        ;
    } else {
        lemma_animation_cycle(tpf, total, (n - 1) as nat);
        let prev = ticker_iterated(t0, (n - 1) as nat);
        let m = (n - 1) as int;
        let r = m % f;
        let q = m / f;
        vstd::arithmetic::div_mod::lemma_fundamental_div_mod(m, f);
        vstd::arithmetic::div_mod::lemma_mod_division_less_than_divisor(m, f);
        vstd::arithmetic::div_mod::lemma_mod_division_less_than_divisor(q, t);
        assert(q * f == f * q) by (nonlinear_arith);
        if r + 1 < f {
            // the sub-frame counter advances inside the same frame
            vstd::arithmetic::div_mod::lemma_fundamental_div_mod_converse(m + 1, f, q, r + 1);
        } else {
            // the frame completes: the cursor advances
            assert((q + 1) * f == q * f + f) by (nonlinear_arith);
            assert(q * f == f * q) by (nonlinear_arith);
            vstd::arithmetic::div_mod::lemma_fundamental_div_mod_converse(m + 1, f, q + 1, 0);
            let rq = q % t;
            let qq = q / t;
            vstd::arithmetic::div_mod::lemma_fundamental_div_mod(q, t);
            assert(qq * t == t * qq) by (nonlinear_arith);
            if rq + 1 < t {
                vstd::arithmetic::div_mod::lemma_fundamental_div_mod_converse(q + 1, t, qq, rq + 1);
            } else {
                // the cursor wraps: a cycle completes
                assert((qq + 1) * t == qq * t + t) by (nonlinear_arith);
                assert(qq * t == t * qq) by (nonlinear_arith);
                vstd::arithmetic::div_mod::lemma_fundamental_div_mod_converse(q + 1, t, qq + 1, 0);
            }
        }
        // relate the cycle signal to divisibility by the full cycle length
        vstd::arithmetic::div_mod::lemma_breakdown(n as int, f, t);
        vstd::arithmetic::div_mod::lemma_mod_division_less_than_divisor(n as int, f);
        vstd::arithmetic::div_mod::lemma_mod_division_less_than_divisor((n as int) / f, t);
        let md = ((n as int) / f) % t;
        assert(md > 0 ==> f * md >= f) by (nonlinear_arith)
            requires
                f >= 1,
        ;
        assert(md == 0 ==> f * md == 0) by (nonlinear_arith);
    }
}

} // verus!
