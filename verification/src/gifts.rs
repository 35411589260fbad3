//! Gift dropping and the delivery collision pass.
//!
//! A drop spawns a gift at the sleigh; an assist target (the nearest
//! undelivered chimney in a forward window) is recorded but is advisory
//! only — the collision rule checks every undelivered chimney. Each frame
//! a falling gift drifts with the scroll, accelerates downward, and is
//! tested against a deliberately generous asymmetric hit box around each
//! chimney mouth. Hits mark the chimney delivered, award score and queue
//! combo steps; a gift that leaves the screen undelivered is a miss and
//! breaks the streak.

use vstd::prelude::*;
use crate::geom::{sat32, sat_u32, mul_div_spec, sat_add, sat_sub, sat_add_u32, scale_milli};
use crate::types::{Chimney, FallingGift, AudioCue};
use crate::state::{GameState, StateV};
use crate::combo::{add_combo_spec, break_combo_spec, combo_bonus};
use crate::difficulty::level_up_spec;
use crate::particles::{spawn_particles_spec, delivery_colors, lemma_spawn_particles_frame,
    level_colors};
use crate::difficulty::{scroll_for, update_difficulty_spec};

verus! {

/// A chimney qualifies for drop assist: undelivered and inside the
/// forward window 20 pixels behind to 150 pixels ahead of the sleigh.
pub open spec fn assist_eligible(c: Chimney) -> bool {
    &&& !c.delivered
    &&& c.x > 40_000
    &&& c.x < 210_000
}

/// Horizontal distance from the sleigh to a chimney.
pub open spec fn assist_dist(c: Chimney) -> int {
    if c.x >= 60_000 {
        c.x - 60_000
    } else {
        60_000 - c.x
    }
}

/// Best assist target among the first `n` chimneys, as (index, distance):
/// only a strictly smaller distance displaces an earlier find, so ties go
/// to the first chimney encountered.
pub open spec fn best_target_upto(cs: Seq<Chimney>, n: int) -> Option<(int, int)>
    decreases n,
{
    if n <= 0 {
        None
    } else {
        let prev = best_target_upto(cs, n - 1);
        let c = cs[n - 1];
        if assist_eligible(c) {
            match prev {
                Option::None => Some((n - 1, assist_dist(c))),
                Option::Some(p) => if assist_dist(c) < p.1 {
                    Some((n - 1, assist_dist(c)))
                } else {
                    prev
                },
            }
        } else {
            prev
        }
    }
}

/// The state after one drop: a gift spawns slightly ahead of and below the
/// sleigh with the advisory target, plus drop feedback and sound.
pub open spec fn drop_gift_spec(s: StateV) -> StateV {
    let t = best_target_upto(s.chimneys, s.chimneys.len() as int);
    let tgt: Option<usize> = match t {
        Option::None => None,
        Option::Some(p) => Some(p.0 as usize),
    };
    StateV {
        gifts: s.gifts.push(FallingGift {
            x: 68_000,
            y: sat32(s.player_y + 12_000) as i32,
            vel_y: 1_000,
            target_chimney: tgt,
            active: true,
        }),
        screen_flash: 2,
        flash_color: 0xffffff44,
        cues: s.cues.push(AudioCue::Drop),
        ..s
    }
}

/// One frame of motion for a falling gift: drift left at 30% of the
/// scroll, fall, gain 0.15 pixels per frame of fall speed (unbounded until
/// it saturates).
pub open spec fn gift_fall(g: FallingGift, scroll: int) -> FallingGift {
    FallingGift {
        x: sat32(g.x - mul_div_spec(scroll, 300, 1000)) as i32,
        y: sat32(g.y + g.vel_y) as i32,
        vel_y: sat32(g.vel_y + 150) as i32,
        ..g
    }
}

/// The generous delivery hit box: within 25 pixels horizontally and from
/// 10 pixels above to 30 pixels below the chimney mouth — the asymmetry
/// deliberately favors the downward approach.
pub open spec fn gift_hits(g: FallingGift, c: Chimney) -> bool {
    &&& !c.delivered
    &&& -25_000 < g.x - c.x < 25_000
    &&& g.y - c.y > -10_000
    &&& g.y - c.y < 30_000
}

/// Index of the first chimney at or after `j` that the gift hits.
pub open spec fn first_hit_from(cs: Seq<Chimney>, g: FallingGift, j: int) -> Option<int>
    decreases cs.len() - j,
{
    if j < 0 || j >= cs.len() {
        None
    } else if gift_hits(g, cs[j]) {
        Some(j)
    } else {
        first_hit_from(cs, g, j + 1)
    }
}

/// Flat score for one delivery: `100 + level * 10`, clamped.
pub open spec fn per_delivery_score(level: int) -> int {
    sat_u32(100 + level * 10)
}

/// Accumulated result of the delivery pass over the first `n` gifts.
#[verifier::ext_equal]
pub ghost struct GiftPass {
    pub gifts: Seq<FallingGift>,
    pub chimneys: Seq<Chimney>,
    pub gained: int,
    pub made: int,
    pub spots: Seq<(i32, i32)>,
    /// Some gift left the playfield — bottom or left edge — without
    /// hitting anything: a miss.
    pub missed: bool,
}

/// Process the first `n` gifts in order: move each active gift, deliver it
/// to the first chimney it hits (marking the chimney), or deactivate it as
/// a miss if it has left by the bottom or the left edge. Score, delivery
/// count, the burst locations and the miss flag accumulate.
pub open spec fn gift_pass(gs: Seq<FallingGift>, cs: Seq<Chimney>, scroll: int, level: int,
    n: int) -> GiftPass
    decreases n,
{
    if n <= 0 {
        GiftPass { gifts: gs, chimneys: cs, gained: 0, made: 0, spots: Seq::empty(),
            missed: false }
    } else {
        let p = gift_pass(gs, cs, scroll, level, n - 1);
        let g = p.gifts[n - 1];
        if !g.active {
            p
        } else {
            let g1 = gift_fall(g, scroll);
            match first_hit_from(p.chimneys, g1, 0) {
                Option::Some(j) => {
                    let c = p.chimneys[j];
                    GiftPass {
                        gifts: p.gifts.update(n - 1, FallingGift { active: false, ..g1 }),
                        chimneys: p.chimneys.update(j, Chimney { delivered: true, ..c }),
                        gained: sat_u32(p.gained + per_delivery_score(level)),
                        made: sat_u32(p.made + 1),
                        spots: p.spots.push((c.x, c.y)),
                        missed: p.missed,
                    }
                },
                Option::None => {
                    let off = g1.y > 236_000 || g1.x < -20_000;
                    let g2 = if off {
                        FallingGift { active: false, ..g1 }
                    } else {
                        g1
                    };
                    GiftPass { gifts: p.gifts.update(n - 1, g2), missed: p.missed || off, ..p }
                },
            }
        }
    }
}

/// `add_combo` applied `n` times.
pub open spec fn add_combo_n(s: StateV, n: int) -> StateV
    decreases n,
{
    if n <= 0 {
        s
    } else {
        add_combo_spec(add_combo_n(s, n - 1))
    }
}

/// Combo steps change only the ledger fields (streak, window, best
/// streak, score).
pub proof fn lemma_add_combo_n_frame(s: StateV, n: int)
    ensures
        ({
            let r = add_combo_n(s, n);
            r == (StateV {
                combo_count: r.combo_count,
                combo_timer: r.combo_timer,
                max_combo: r.max_combo,
                score: r.score,
                ..s
            })
        }),
    decreases n,
{
    if n > 0 {
        lemma_add_combo_n_frame(s, n - 1);
    }
}

/// A delivery-confetti burst at each recorded spot, in order.
pub open spec fn burst_spots(s: StateV, sp: Seq<(i32, i32)>) -> StateV
    decreases sp.len(),
{
    if sp.len() == 0 {
        s
    } else {
        let prev = burst_spots(s, sp.drop_last());
        spawn_particles_spec(prev, sp.last().0 as int, sp.last().1 as int, 15, delivery_colors())
    }
}

/// Confetti bursts change only the particle pool and the RNG seed.
pub proof fn lemma_burst_spots_frame(s: StateV, sp: Seq<(i32, i32)>)
    ensures
        ({
            let r = burst_spots(s, sp);
            r == (StateV { particles: r.particles, rng_seed: r.rng_seed, ..s })
        }),
    decreases sp.len(),
{
    if sp.len() > 0 {
        lemma_burst_spots_frame(s, sp.drop_last());
        lemma_spawn_particles_frame(burst_spots(s, sp.drop_last()), sp.last().0 as int,
            sp.last().1 as int, 15, delivery_colors());
    }
}

/// The gifts still in flight after the pass.
pub open spec fn gifts_kept(gs: Seq<FallingGift>) -> Seq<FallingGift>
    decreases gs.len(),
{
    if gs.len() == 0 {
        Seq::<FallingGift>::empty()
    } else {
        let rest = gifts_kept(gs.drop_last());
        if gs.last().active {
            rest.push(gs.last())
        } else {
            rest
        }
    }
}

/// The whole per-frame gift pass: collisions, ledger updates, combo
/// bookkeeping, feedback, the every-fifth-delivery level-up, and cleanup.
pub open spec fn update_gifts_spec(s: StateV) -> StateV {
    let p = gift_pass(s.gifts, s.chimneys, s.scroll_speed as int, s.level as int,
        s.gifts.len() as int);
    let s1 = StateV {
        gifts: p.gifts,
        chimneys: p.chimneys,
        score: sat_u32(s.score + p.gained) as u32,
        deliveries: sat_u32(s.deliveries + p.made) as u32,
        ..s
    };
    let s2 = if p.missed {
        break_combo_spec(s1)
    } else {
        s1
    };
    let s3 = if p.made > 0 {
        delivery_feedback_spec(s2, p.made, p.spots)
    } else {
        s2
    };
    StateV { gifts: gifts_kept(s3.gifts), ..s3 }
}

/// Feedback for a frame with at least one delivery: green flash, naughty
/// relief, the delivery jingle, one combo step per delivery, a confetti
/// burst per spot, and a level-up on every fifth cumulative delivery.
pub open spec fn delivery_feedback_spec(s: StateV, made: int, spots: Seq<(i32, i32)>) -> StateV {
    let sa = StateV {
        screen_flash: 4,
        flash_color: 0x00ff00ff,
        naughty_meter: if s.naughty_meter >= 10 {
            (s.naughty_meter - 10) as u32
        } else {
            0
        },
        cues: s.cues.push(AudioCue::Delivery),
        ..s
    };
    let sb = burst_spots(add_combo_n(sa, made), spots);
    if sb.deliveries % 5 == 0 && sb.deliveries > 0 {
        level_up_spec(sb)
    } else {
        sb
    }
}


/// The delivery pass leaves every chimney in place: positions, styles and
/// the pool sizes are untouched, and `delivered` flags only ever go from
/// false to true.
proof fn lemma_first_hit_in_range(cs: Seq<Chimney>, g: FallingGift, j: int)
    ensures
        ({
            match first_hit_from(cs, g, j) {
                Option::Some(k) => j <= k < cs.len(),
                Option::None => true,
            }
        }),
    decreases cs.len() - j,
{
    if 0 <= j < cs.len() && !gift_hits(g, cs[j]) {
        lemma_first_hit_in_range(cs, g, j + 1);
    }
}

pub proof fn lemma_gift_pass_chimneys(gs: Seq<FallingGift>, cs: Seq<Chimney>, scroll: int,
    level: int, n: int)
    requires
        n <= gs.len(),
    ensures
        ({
            let p = gift_pass(gs, cs, scroll, level, n);
            &&& p.chimneys.len() == cs.len()
            &&& p.gifts.len() == gs.len()
            &&& forall|j: int| 0 <= j < cs.len() ==> (#[trigger] p.chimneys[j]).x == cs[j].x
                && p.chimneys[j].y == cs[j].y && p.chimneys[j].style == cs[j].style
                && (cs[j].delivered ==> p.chimneys[j].delivered)
        }),
    decreases n,
{
    if n > 0 {
        lemma_gift_pass_chimneys(gs, cs, scroll, level, n - 1);
        let prev = gift_pass(gs, cs, scroll, level, n - 1);
        let p = gift_pass(gs, cs, scroll, level, n);
        let g = prev.gifts[n - 1];
        if g.active {
            lemma_first_hit_in_range(prev.chimneys, gift_fall(g, scroll), 0);
        }
        assert forall|j: int| 0 <= j < cs.len() implies (#[trigger] p.chimneys[j]).x == cs[j].x
            && p.chimneys[j].y == cs[j].y && p.chimneys[j].style == cs[j].style
            && (cs[j].delivered ==> p.chimneys[j].delivered) by {
            assert(prev.chimneys[j].x == cs[j].x && prev.chimneys[j].y == cs[j].y
                && prev.chimneys[j].style == cs[j].style && (cs[j].delivered
                ==> prev.chimneys[j].delivered));
        }
    }
}

/// What one gift pass may touch: gifts, chimney flags, the ledger, the
/// naughty meter (only downward), the level and scroll (only by a
/// level-up), feedback, particles, sounds and the RNG seed.
pub proof fn lemma_update_gifts_frame(s: StateV)
    ensures
        ({
            let p = gift_pass(s.gifts, s.chimneys, s.scroll_speed as int, s.level as int,
                s.gifts.len() as int);
            let r = update_gifts_spec(s);
            &&& r.chimneys == p.chimneys
            &&& r == (StateV {
                gifts: r.gifts,
                chimneys: p.chimneys,
                score: r.score,
                deliveries: r.deliveries,
                combo_count: r.combo_count,
                combo_timer: r.combo_timer,
                max_combo: r.max_combo,
                naughty_meter: r.naughty_meter,
                level: r.level,
                scroll_speed: r.scroll_speed,
                screen_flash: r.screen_flash,
                flash_color: r.flash_color,
                particles: r.particles,
                rng_seed: r.rng_seed,
                cues: r.cues,
                ..s
            })
            &&& r.naughty_meter <= s.naughty_meter
            &&& (r.level == s.level || r.level as int == sat_u32(s.level + 1))
            &&& (r.scroll_speed == s.scroll_speed || r.scroll_speed as int == scroll_for(
                s.base_scroll_speed as int, r.level as int))
        }),
{
    let p = gift_pass(s.gifts, s.chimneys, s.scroll_speed as int, s.level as int,
        s.gifts.len() as int);
    if p.made > 0 {
        let s1 = StateV {
            gifts: p.gifts,
            chimneys: p.chimneys,
            score: sat_u32(s.score + p.gained) as u32,
            deliveries: sat_u32(s.deliveries + p.made) as u32,
            ..s
        };
        let s2 = if p.missed {
            crate::combo::break_combo_spec(s1)
        } else {
            s1
        };
        let sa = StateV {
            screen_flash: 4,
            flash_color: 0x00ff00ff,
            naughty_meter: if s2.naughty_meter >= 10 {
                (s2.naughty_meter - 10) as u32
            } else {
                0
            },
            cues: s2.cues.push(crate::types::AudioCue::Delivery),
            ..s2
        };
        lemma_add_combo_n_frame(sa, p.made);
        let sb0 = add_combo_n(sa, p.made);
        lemma_burst_spots_frame(sb0, p.spots);
        let sb = burst_spots(sb0, p.spots);
        if sb.deliveries % 5 == 0 && sb.deliveries > 0 {
            let sl = update_difficulty_spec(StateV { level: sat_u32(sb.level + 1) as u32, ..sb });
            let sm = StateV {
                screen_flash: 15,
                flash_color: crate::types::COLOR_GOLD,
                cues: sl.cues.push(crate::types::AudioCue::Survive),
                ..sl
            };
            lemma_spawn_particles_frame(sm, 192_000, 108_000, 25, level_colors());
        }
    }
}

/// Immediate delivery, in general: a lone active gift whose post-move
/// position lands in a lone undelivered chimney's hit box delivers on
/// this very pass — the chimney is marked, the gift retires, the delivery
/// counts, and the score rises by exactly the flat `100 + 10 * level`
/// plus the streak bonus of the extended streak (away from the counters'
/// saturation limits, which spec bounds keep far out of reach in play).
#[verifier::rlimit(100)]
pub proof fn immediate_delivery(s: StateV, g: FallingGift)
    requires
        s.gifts.len() == 1,
        s.gifts[0] == g,
        s.chimneys.len() == 1,
        g.active,
        gift_hits(gift_fall(g, s.scroll_speed as int), s.chimneys[0]),
        s.level <= 1_000_000,
        s.score + 100 + 10 * s.level + combo_bonus(s.combo_count + 1) <= u32::MAX,
        s.deliveries < u32::MAX,
        s.combo_count < u32::MAX,
    ensures
        ({
            let r = update_gifts_spec(s);
            &&& r.chimneys[0].delivered
            &&& r.gifts.len() == 0
            &&& r.deliveries == s.deliveries + 1
            &&& r.score as int == s.score + 100 + 10 * s.level + combo_bonus(s.combo_count + 1)
            &&& r.combo_count == s.combo_count + 1
            &&& r.combo_timer == 180
        }),
{
    let scroll = s.scroll_speed as int;
    let level = s.level as int;
    let g1 = gift_fall(g, scroll);
    let p = gift_pass(s.gifts, s.chimneys, scroll, level, 1);
    assert(gift_pass(s.gifts, s.chimneys, scroll, level, 0).gifts == s.gifts);
    assert(first_hit_from(s.chimneys, g1, 0) == Some(0int));
    assert(p.gained == per_delivery_score(level));
    assert(p.made == 1 && !p.missed);
    assert(p.chimneys[0].delivered);
    assert(!p.gifts[0].active);
    let s1 = StateV {
        gifts: p.gifts,
        chimneys: p.chimneys,
        score: sat_u32(s.score + p.gained) as u32,
        deliveries: sat_u32(s.deliveries + p.made) as u32,
        ..s
    };
    assert(s1.score as int == s.score + 100 + 10 * s.level);
    assert(s1.deliveries as int == s.deliveries + 1);
    let sa = StateV {
        screen_flash: 4,
        flash_color: 0x00ff00ff,
        naughty_meter: if s1.naughty_meter >= 10 {
            (s1.naughty_meter - 10) as u32
        } else {
            0
        },
        cues: s1.cues.push(AudioCue::Delivery),
        ..s1
    };
    assert(add_combo_n(sa, 1) == add_combo_spec(add_combo_n(sa, 0)));
    let sb0 = add_combo_spec(sa);
    assert(sb0.combo_count as int == s.combo_count + 1);
    assert(sb0.combo_timer == 180);
    assert(sb0.score as int == s.score + 100 + 10 * s.level + combo_bonus(s.combo_count + 1));
    lemma_burst_spots_frame(sb0, p.spots);
    let sb = burst_spots(sb0, p.spots);
    if sb.deliveries % 5 == 0 && sb.deliveries > 0 {
        let sl = update_difficulty_spec(StateV { level: sat_u32(sb.level + 1) as u32, ..sb });
        let sm = StateV {
            screen_flash: 15,
            flash_color: crate::types::COLOR_GOLD,
            cues: sl.cues.push(crate::types::AudioCue::Survive),
            ..sl
        };
        lemma_spawn_particles_frame(sm, 192_000, 108_000, 25, level_colors());
    }
    let s3 = update_gifts_spec(s);
    assert(gifts_kept(p.gifts.drop_last()) =~= Seq::<FallingGift>::empty());
    assert(gifts_kept(p.gifts) =~= Seq::<FallingGift>::empty());
}

impl GameState {
    /// Drop a gift at the sleigh, recording the advisory assist target.
    #[verifier::loop_isolation(false)]
    pub fn drop_gift(&mut self)
        ensures
            final(self)@ == drop_gift_spec(old(self)@),
    {
        let ghost cs: Seq<Chimney> = self.chimneys@;
        let mut best: Option<usize> = None;
        let mut best_dist: i64 = 0;
        let mut i: usize = 0;
        while i < self.chimneys.len()
            invariant
                i <= self.chimneys.len(),
                self == old(self),
                match best {
                    Option::None => best_target_upto(cs, i as int) == Option::<(int, int)>::None,
                    Option::Some(b) => best_target_upto(cs, i as int) == Some((b as int,
                        best_dist as int)),
                },
            decreases self.chimneys.len() - i,
        {
            let c = self.chimneys[i];
            if !c.delivered && c.x > 40_000 && c.x < 210_000 {
                let dist: i64 = if c.x >= 60_000 {
                    c.x as i64 - 60_000
                } else {
                    60_000 - c.x as i64
                };
                let take_it: bool = match best {
                    None => true,
                    Some(_) => dist < best_dist,
                };
                if take_it {
                    best = Some(i);
                    best_dist = dist;
                }
            }
            i = i + 1;
        }
        self.gifts.push(FallingGift {
            x: 68_000,
            y: sat_add(self.player_y, 12_000),
            vel_y: 1_000,
            target_chimney: best,
            active: true,
        });
        self.screen_flash = 2;
        self.flash_color = 0xffffff44;
        self.cues.push(AudioCue::Drop);
        proof {
            assert(self@.gifts =~= drop_gift_spec(old(self)@).gifts);
            assert(self@.cues =~= drop_gift_spec(old(self)@).cues);
        }
    }

    /// Run the per-frame delivery pass.
    pub fn update_gifts(&mut self)
        requires
            old(self).level >= 1,
            0 <= old(self).base_scroll_speed <= 3_500,
            0 <= old(self).scroll_speed <= 1_000_000,
        ensures
            final(self)@ == update_gifts_spec(old(self)@),
    {
        let (gained, made, spots, missed) = self.gift_collisions();
        self.score = sat_add_u32(self.score, gained);
        self.deliveries = sat_add_u32(self.deliveries, made);
        if missed {
            self.break_combo();
        }
        if made > 0 {
            self.delivery_feedback(made, &spots);
        }
        self.retain_gifts();
    }

    /// The collision fold: move every active gift, deliver or retire it,
    /// and accumulate what the ledger needs.
    #[verifier::loop_isolation(false)]
    #[verifier::rlimit(100)]
    fn gift_collisions(&mut self) -> (r: (u32, u32, Vec<(i32, i32)>, bool))
        requires
            old(self).level >= 1,
            0 <= old(self).scroll_speed <= 1_000_000,
        ensures
            ({
                let p = gift_pass(old(self)@.gifts, old(self)@.chimneys,
                    old(self).scroll_speed as int, old(self).level as int,
                    old(self)@.gifts.len() as int);
                final(self)@ == (StateV { gifts: p.gifts, chimneys: p.chimneys, ..old(self)@ })
                    && r.0 as int == p.gained && r.1 as int == p.made && r.2@ == p.spots
                    && r.3 == p.missed
            }),
    {
        let ghost gs0: Seq<FallingGift> = self.gifts@;
        let ghost cs0: Seq<Chimney> = self.chimneys@;
        let ghost scroll: int = self.scroll_speed as int;
        let ghost level: int = self.level as int;

        let lvl10: u64 = self.level as u64 * 10;
        let per: u32 = if 100 + lvl10 > 0xffff_ffffu64 {
            u32::MAX
        } else {
            (100 + lvl10) as u32
        };
        let mut gained: u32 = 0;
        let mut made: u32 = 0;
        let mut spots: Vec<(i32, i32)> = Vec::new();
        let mut missed: bool = false;

        let n = self.gifts.len();
        let mut i: usize = 0;
        while i < n
            invariant
                i <= n,
                n == gs0.len(),
                self.gifts@.len() == n,
                self.chimneys@.len() == cs0.len(),
                self@ == (StateV {
                    gifts: gift_pass(gs0, cs0, scroll, level, i as int).gifts,
                    chimneys: gift_pass(gs0, cs0, scroll, level, i as int).chimneys,
                    ..old(self)@
                }),
                gained as int == gift_pass(gs0, cs0, scroll, level, i as int).gained,
                made as int == gift_pass(gs0, cs0, scroll, level, i as int).made,
                spots@ == gift_pass(gs0, cs0, scroll, level, i as int).spots,
                missed == gift_pass(gs0, cs0, scroll, level, i as int).missed,
            decreases n - i,
        {
            let ghost p = gift_pass(gs0, cs0, scroll, level, i as int);
            let g = self.gifts[i];
            if g.active {
                let g1 = FallingGift {
                    x: sat_sub(g.x, scale_milli(self.scroll_speed, 300)),
                    y: sat_add(g.y, g.vel_y),
                    vel_y: sat_add(g.vel_y, 150),
                    ..g
                };
                // Scan chimneys for the first hit.
                let ghost csc: Seq<Chimney> = self.chimneys@;
                let mut hit: Option<usize> = None;
                let mut j: usize = 0;
                while j < self.chimneys.len() && hit.is_none()
                    invariant
                        j <= csc.len(),
                        self.chimneys@ == csc,
                        match hit {
                            Option::None => first_hit_from(csc, g1, 0) == first_hit_from(csc, g1,
                                j as int),
                            Option::Some(k) => first_hit_from(csc, g1, 0) == Some(k as int)
                                && k < csc.len(),
                        },
                    decreases csc.len() - j + (if hit.is_none() { 1int } else { 0int }),
                {
                    let c = self.chimneys[j];
                    let dx: i64 = g1.x as i64 - c.x as i64;
                    let dy: i64 = g1.y as i64 - c.y as i64;
                    if !c.delivered && -25_000 < dx && dx < 25_000 && dy > -10_000 && dy < 30_000 {
                        hit = Some(j);
                    } else {
                        j = j + 1;
                    }
                }
                match hit {
                    Some(jh) => {
                        let c = self.chimneys[jh];
                        self.gifts.set(i, FallingGift { active: false, ..g1 });
                        self.chimneys.set(jh, Chimney { delivered: true, ..c });
                        gained = sat_add_u32(gained, per);
                        made = sat_add_u32(made, 1);
                        spots.push((c.x, c.y));
                        proof {
                            assert(spots@ =~= gift_pass(gs0, cs0, scroll, level, i + 1).spots);
                        }
                    },
                    None => {
                        let off = g1.y > 236_000 || g1.x < -20_000;
                        let g2 = if off {
                            FallingGift { active: false, ..g1 }
                        } else {
                            g1
                        };
                        self.gifts.set(i, g2);
                        if off {
                            missed = true;
                        }
                    },
                }
            }
            i = i + 1;
        }
        proof {
            assert(gs0.len() as int == n as int);
        }
        (gained, made, spots, missed)
    }

    /// Apply the feedback of a frame with `made >= 1` deliveries.
    #[verifier::rlimit(100)]
    fn delivery_feedback(&mut self, made: u32, spots: &Vec<(i32, i32)>)
        requires
            old(self).level >= 1,
            0 <= old(self).base_scroll_speed <= 3_500,
        ensures
            final(self)@ == delivery_feedback_spec(old(self)@, made as int, spots@),
    {
        self.delivery_flash();
        let ghost sa: StateV = self@;
        self.combo_steps(made);
        self.burst_all(spots);
        proof {
            lemma_add_combo_n_frame(sa, made as int);
            lemma_burst_spots_frame(add_combo_n(sa, made as int), spots@);
        }
        self.maybe_level_up();
    }

    /// Green flash, naughty relief and the delivery jingle.
    fn delivery_flash(&mut self)
        ensures
            final(self)@ == (StateV {
                screen_flash: 4,
                flash_color: 0x00ff00ff,
                naughty_meter: if old(self).naughty_meter >= 10 {
                    (old(self).naughty_meter - 10) as u32
                } else {
                    0
                },
                cues: old(self)@.cues.push(AudioCue::Delivery),
                ..old(self)@
            }),
    {
        self.screen_flash = 4;
        self.flash_color = 0x00ff00ff;
        self.naughty_meter = if self.naughty_meter >= 10 {
            self.naughty_meter - 10
        } else {
            0
        };
        self.cues.push(AudioCue::Delivery);
    }

    /// A level-up on every fifth cumulative delivery.
    fn maybe_level_up(&mut self)
        requires
            old(self).level >= 1,
            0 <= old(self).base_scroll_speed <= 3_500,
        ensures
            final(self)@ == (if old(self).deliveries % 5 == 0 && old(self).deliveries > 0 {
                level_up_spec(old(self)@)
            } else {
                old(self)@
            }),
    {
        if self.deliveries % 5 == 0 && self.deliveries > 0 {
            self.level_up();
        }
    }

    /// One combo-ledger step per delivery made this frame.
    #[verifier::loop_isolation(false)]
    fn combo_steps(&mut self, made: u32)
        ensures
            final(self)@ == add_combo_n(old(self)@, made as int),
    {
        let mut c: u32 = 0;
        while c < made
            invariant
                c <= made,
                self@ == add_combo_n(old(self)@, c as int),
            decreases made - c,
        {
            self.add_combo();
            c = c + 1;
        }
    }

    /// A confetti burst at every delivery spot, in order.
    #[verifier::loop_isolation(false)]
    fn burst_all(&mut self, spots: &Vec<(i32, i32)>)
        ensures
            final(self)@ == burst_spots(old(self)@, spots@),
    {
        let mut t: usize = 0;
        while t < spots.len()
            invariant
                t <= spots@.len(),
                self@ == burst_spots(old(self)@, spots@.take(t as int)),
            decreases spots@.len() - t,
        {
            let (sx, sy) = spots[t];
            self.spawn_delivery_particles(sx, sy);
            proof {
                assert(spots@.take(t + 1).drop_last() =~= spots@.take(t as int));
            }
            t = t + 1;
        }
        proof {
            assert(spots@.take(spots@.len() as int) =~= spots@);
        }
    }

    /// Drop the spent gifts from the pool.
    #[verifier::loop_isolation(false)]
    fn retain_gifts(&mut self)
        ensures
            final(self)@ == (StateV { gifts: gifts_kept(old(self)@.gifts), ..old(self)@ }),
    {
        let ghost gfin: Seq<FallingGift> = self.gifts@;
        let mut keep: Vec<FallingGift> = Vec::new();
        let mut m: usize = 0;
        while m < self.gifts.len()
            invariant
                m <= gfin.len(),
                self == old(self),
                keep@ == gifts_kept(gfin.take(m as int)),
            decreases gfin.len() - m,
        {
            let g = self.gifts[m];
            if g.active {
                keep.push(g);
            }
            proof {
                assert(gfin.take(m + 1).drop_last() =~= gfin.take(m as int));
                assert(gfin.take(m + 1).last() == gfin[m as int]);
            }
            m = m + 1;
        }
        proof {
            assert(gfin.take(gfin.len() as int) =~= gfin);
        }
        self.gifts = keep;
    }
}

} // verus!
