//! The chimney pool: spawning, scrolling, removal and miss accounting.
//!
//! A new chimney appears off the right edge whenever the pool is empty or
//! the rightmost one has scrolled in past a randomized gap. Chimneys move
//! left with the world each frame; one that passes the left threshold is
//! removed, and if it was never delivered to it raises the naughty meter.

use vstd::prelude::*;
use crate::geom::{sat32, sat_sub};
use crate::types::Chimney;
use crate::state::{GameState, StateV, chimneys_ordered};
use crate::rng::{lcg, range_milli_val};

verus! {

/// X position past which a chimney is fully off screen and removed.
pub const CHIMNEY_GONE_X: i32 = -40_000;

/// One chimney drawn from `seed` (two draws: roof-band y, visual style),
/// placed just off the right edge, and the seed after. Opaque: callers
/// rely on [`lemma_chimney_from_ok`], not the draw arithmetic.
#[verifier::opaque]
pub open spec fn chimney_from(seed: int) -> (Chimney, int) {
    let y = range_milli_val(seed, 138_480, 158_480);
    let s1 = lcg(seed);
    let sv = range_milli_val(s1, 0, 3_000);
    let s2 = lcg(s1);
    let style = if sv / 1000 > 2 {
        2
    } else {
        sv / 1000
    };
    (Chimney { x: 424_000, y: y as i32, delivered: false, style: style as u8 }, s2)
}

/// The miss count is a count: never negative.
pub proof fn lemma_missed_nonneg(cs: Seq<Chimney>)
    ensures
        chimneys_missed(cs) >= 0,
    decreases cs.len(),
{
    if cs.len() > 0 {
        lemma_missed_nonneg(cs.drop_last());
    }
}

/// A fresh chimney sits just off the right edge, undelivered, in one of
/// the three styles.
pub proof fn lemma_chimney_from_ok(seed: int)
    ensures
        chimney_from(seed).0.x == 424_000,
        !chimney_from(seed).0.delivered,
        chimney_from(seed).0.style <= 2,
{
    reveal(chimney_from);
    crate::rng::lemma_range_bounds(lcg(seed), 0, 3_000);
}

/// Append a fresh chimney and redraw the gap to the next spawn
/// (120 to 200 pixels).
pub open spec fn spawn_chimney_spec(s: StateV) -> StateV {
    let c = chimney_from(s.rng_seed as int);
    let gap = range_milli_val(c.1, 120_000, 200_000);
    StateV {
        chimneys: s.chimneys.push(c.0),
        next_chimney_spawn: gap as i32,
        rng_seed: lcg(c.1) as u32,
        ..s
    }
}

/// A spawn is due when the pool is empty or the rightmost chimney has
/// scrolled in past the gap.
pub open spec fn spawn_due(s: StateV) -> bool {
    s.chimneys.len() == 0 || (s.chimneys.last().x as int) < 384_000 - s.next_chimney_spawn as int
}

/// The chimneys still on screen (x has not passed the removal threshold).
pub open spec fn chimneys_kept(cs: Seq<Chimney>) -> Seq<Chimney>
    decreases cs.len(),
{
    if cs.len() == 0 {
        Seq::<Chimney>::empty()
    } else {
        let rest = chimneys_kept(cs.drop_last());
        if cs.last().x >= CHIMNEY_GONE_X {
            rest.push(cs.last())
        } else {
            rest
        }
    }
}

/// How many undelivered chimneys scroll off this frame: each is one miss.
pub open spec fn chimneys_missed(cs: Seq<Chimney>) -> int
    decreases cs.len(),
{
    if cs.len() == 0 {
        0
    } else {
        chimneys_missed(cs.drop_last()) + if cs.last().x < CHIMNEY_GONE_X && !cs.last().delivered {
            1int
        } else {
            0int
        }
    }
}

/// One frame of leftward scroll for a chimney.
pub open spec fn chimney_move(c: Chimney, scroll: int) -> Chimney {
    Chimney { x: sat32(c.x - scroll) as i32, ..c }
}

/// All chimneys scrolled left one frame.
pub open spec fn chimneys_moved(cs: Seq<Chimney>, scroll: int) -> Seq<Chimney> {
    Seq::new(cs.len(), |i: int| chimney_move(cs[i], scroll))
}

/// The whole chimney pass: spawn if due, drop the off-screen chimneys,
/// charge 20 naughty points per miss (clamped at 100), scroll the rest.
pub open spec fn update_chimneys_spec(s: StateV) -> StateV {
    let s1 = if spawn_due(s) {
        spawn_chimney_spec(s)
    } else {
        s
    };
    let kept = chimneys_kept(s1.chimneys);
    let m = chimneys_missed(s1.chimneys);
    let n2 = if s1.naughty_meter + 20 * m > 100 {
        100int
    } else {
        s1.naughty_meter + 20 * m
    };
    StateV {
        chimneys: chimneys_moved(kept, s1.scroll_speed as int),
        naughty_meter: n2 as u32,
        ..s1
    }
}


/// With chimneys sorted by `x`, once the rightmost has scrolled off, so
/// has everything before it.
proof fn lemma_kept_all_low(cs: Seq<Chimney>)
    requires
        chimneys_ordered(cs),
        cs.len() > 0,
        cs.last().x < CHIMNEY_GONE_X,
    ensures
        chimneys_kept(cs).len() == 0,
    decreases cs.len(),
{
    if cs.len() > 1 {
        let d = cs.drop_last();
        assert(chimneys_ordered(d));
        assert(d.last() == cs[cs.len() - 2]);
        assert(d.last().x < cs.last().x);
        lemma_kept_all_low(d);
    } else {
        assert(cs.drop_last().len() == 0);
        assert(chimneys_kept(cs.drop_last()).len() == 0);
    }
}

/// Removal keeps a suffix: with chimneys sorted by `x`, the survivors of
/// the off-screen filter are exactly the last `k` chimneys, unchanged.
pub proof fn lemma_kept_suffix(cs: Seq<Chimney>)
    requires
        chimneys_ordered(cs),
    ensures
        ({
            let k = chimneys_kept(cs);
            &&& k.len() <= cs.len()
            &&& forall|i: int| 0 <= i < k.len() ==> k[i] == cs[i + cs.len() - k.len()]
        }),
    decreases cs.len(),
{
    if cs.len() > 0 {
        let d = cs.drop_last();
        assert(chimneys_ordered(d));
        lemma_kept_suffix(d);
        if cs.last().x < CHIMNEY_GONE_X {
            lemma_kept_all_low(cs);
        }
    }
}

/// Every survivor of the off-screen filter is at or right of the removal
/// threshold.
pub proof fn lemma_kept_on_screen(cs: Seq<Chimney>)
    ensures
        forall|i: int| 0 <= i < chimneys_kept(cs).len() ==> (#[trigger] chimneys_kept(
            cs)[i]).x >= CHIMNEY_GONE_X,
    decreases cs.len(),
{
    if cs.len() > 0 {
        lemma_kept_on_screen(cs.drop_last());
        let kd = chimneys_kept(cs.drop_last());
        let k = chimneys_kept(cs);
        assert forall|i: int| 0 <= i < k.len() implies (#[trigger] k[i]).x >= CHIMNEY_GONE_X by {
            if i < kd.len() {
                assert(k[i] == kd[i]);
            }
        }
    } else {
        assert(chimneys_kept(cs).len() == 0);
    }
}


impl GameState {
    /// Spawn one chimney off the right edge and redraw the spawn gap.
    pub fn spawn_chimney(&mut self)
        ensures
            final(self)@ == spawn_chimney_spec(old(self)@),
    {
        let y = self.random_range_milli(138_480, 158_480);
        let sv = self.random_range_milli(0, 3_000);
        let style: u8 = if sv / 1000 > 2 {
            2
        } else {
            (sv / 1000) as u8
        };
        self.chimneys.push(Chimney { x: 424_000, y, delivered: false, style });
        let gap = self.random_range_milli(120_000, 200_000);
        self.next_chimney_spawn = gap;
        proof {
            reveal(chimney_from);
            assert(self@.chimneys =~= spawn_chimney_spec(old(self)@).chimneys);
        }
    }

    /// Run the per-frame chimney pass: spawn, remove, account, scroll.
    #[verifier::loop_isolation(false)]
    pub fn update_chimneys(&mut self)
        ensures
            final(self)@ == update_chimneys_spec(old(self)@),
    {
        let spawn_needed: bool = if self.chimneys.len() == 0 {
            true
        } else {
            (self.chimneys[self.chimneys.len() - 1].x as i64) < 384_000i64
                - self.next_chimney_spawn as i64
        };
        if spawn_needed {
            self.spawn_chimney();
        }
        let ghost s1: StateV = self@;
        let ghost cs: Seq<Chimney> = self.chimneys@;

        // Removal and miss accounting.
        let mut kept: Vec<Chimney> = Vec::new();
        let mut missed: usize = 0;
        let mut i: usize = 0;
        while i < self.chimneys.len()
            invariant
                i <= self.chimneys.len(),
                self@ == s1,
                kept@ == chimneys_kept(cs.take(i as int)),
                missed as int == chimneys_missed(cs.take(i as int)),
                missed <= i,
            decreases self.chimneys.len() - i,
        {
            let c = self.chimneys[i];
            if c.x >= CHIMNEY_GONE_X {
                kept.push(c);
            } else if !c.delivered {
                missed = missed + 1;
            }
            proof {
                assert(cs.take(i + 1).drop_last() =~= cs.take(i as int));
                assert(cs.take(i + 1).last() == cs[i as int]);
            }
            i = i + 1;
        }
        proof {
            assert(cs.take(cs.len() as int) =~= cs);
        }

        // Naughty meter: 20 points per miss, clamped at 100.
        let nm: u64 = self.naughty_meter as u64;
        self.naughty_meter = if missed > 5 {
            100
        } else if nm + 20u64 * (missed as u64) > 100 {
            100
        } else {
            (nm + 20u64 * (missed as u64)) as u32
        };

        // Scroll the kept chimneys left.
        let mut moved: Vec<Chimney> = Vec::new();
        let mut j: usize = 0;
        while j < kept.len()
            invariant
                j <= kept.len(),
                moved@.len() == j,
                kept@ == chimneys_kept(cs),
                forall|k: int| 0 <= k < j ==> moved@[k] == chimney_move(kept@[k],
                    s1.scroll_speed as int),
            decreases kept.len() - j,
        {
            let c = kept[j];
            moved.push(Chimney { x: sat_sub(c.x, self.scroll_speed), ..c });
            j = j + 1;
        }
        proof {
            assert(moved@ =~= chimneys_moved(chimneys_kept(cs), s1.scroll_speed as int));
        }
        self.chimneys = moved;
    }
}

} // verus!
