//! Power-up spawning, drifting, bobbing and pickup.
//!
//! A countdown spawns one power-up off the right edge (health twice as
//! often as star power); items drift left with the world, bob on the sine
//! circle, and are collected by proximity to the sleigh. Health pickups
//! heal up to the cap; star pickups open a 300-frame star-power window.

use vstd::prelude::*;
use crate::geom::{sat32, sat_add, sat_sub, sin_milli_spec, sin_milli};
use crate::types::{PowerUp, PowerKind, AudioCue, HEALTH_CAP};
use crate::state::{GameState, StateV};
use crate::rng::{lcg, draw_val, range_milli_val};
use crate::particles::{spawn_particles_spec, star_colors, lemma_spawn_particles_frame};

verus! {

/// One power-up drawn from `seed` (three draws: kind, height, bob phase),
/// just off the right edge, and the seed after. Star power comes up with
/// probability one third.
pub open spec fn powerup_from(seed: int) -> (PowerUp, int) {
    let kind = if draw_val(seed) % 3 == 0 {
        PowerKind::Invincible
    } else {
        PowerKind::Health
    };
    let s1 = lcg(seed);
    let y = range_milli_val(s1, 40_000, 129_600);
    let s2 = lcg(s1);
    let phase = draw_val(s2) % 64;
    let s3 = lcg(s2);
    (PowerUp { x: 404_000, y: y as i32, kind, active: true, bob_phase: phase as u32 }, s3)
}

/// Spawn-timer phase: count down, or spawn one power-up and re-roll the
/// delay to 900 plus up to 600 frames.
pub open spec fn powerup_spawn_phase(s: StateV) -> StateV {
    if s.powerup_spawn_timer > 0 {
        StateV { powerup_spawn_timer: (s.powerup_spawn_timer - 1) as u32, ..s }
    } else {
        let p = powerup_from(s.rng_seed as int);
        StateV {
            powerups: s.powerups.push(p.0),
            powerup_spawn_timer: (900 + draw_val(p.1) % 600) as u32,
            rng_seed: lcg(p.1) as u32,
            ..s
        }
    }
}

/// One frame of drift: scroll left, advance the bob phase.
pub open spec fn power_move(p: PowerUp, scroll: int) -> PowerUp {
    PowerUp {
        x: sat32(p.x - scroll) as i32,
        bob_phase: ((p.bob_phase + 1) % 0x1_0000_0000) as u32,
        ..p
    }
}

/// The bobbed vertical position: base plus a 5-pixel sine sway.
pub open spec fn bob_y(p: PowerUp) -> int {
    sat32(p.y + sin_milli_spec(p.bob_phase as int) * 5)
}

/// Pickup test: within 25 pixels horizontally of the sleigh and 20 pixels
/// vertically of the bobbed position.
pub open spec fn picked_up(p: PowerUp, by: int, player_y: int) -> bool {
    let dx = if p.x >= 60_000 {
        p.x - 60_000
    } else {
        60_000 - p.x
    };
    let dy = if player_y >= by {
        player_y - by
    } else {
        by - player_y
    };
    dx < 25_000 && dy < 20_000 && p.active
}

/// Result of the drift-and-collect pass over the first `n` power-ups.
#[verifier::ext_equal]
pub ghost struct PowerPass {
    pub pows: Seq<PowerUp>,
    pub collected: Seq<(i32, i32, PowerKind)>,
}

/// Drift every power-up and collect the ones the sleigh touches; each
/// collected item records where its pickup burst should appear.
pub open spec fn power_pass(ps: Seq<PowerUp>, player_y: int, scroll: int, n: int) -> PowerPass
    decreases n,
{
    if n <= 0 {
        PowerPass { pows: ps, collected: Seq::empty() }
    } else {
        let r = power_pass(ps, player_y, scroll, n - 1);
        let q = power_move(r.pows[n - 1], scroll);
        let by = bob_y(q);
        if picked_up(q, by, player_y) {
            PowerPass {
                pows: r.pows.update(n - 1, PowerUp { active: false, ..q }),
                collected: r.collected.push((q.x, by as i32, q.kind)),
            }
        } else {
            PowerPass { pows: r.pows.update(n - 1, q), ..r }
        }
    }
}

/// Apply the collected pickups in order: a star burst at each, then the
/// heal (up to the cap) or the 300-frame star-power window, with the
/// matching sound.
pub open spec fn apply_collected(s: StateV, col: Seq<(i32, i32, PowerKind)>) -> StateV
    decreases col.len(),
{
    if col.len() == 0 {
        s
    } else {
        let prev = apply_collected(s, col.drop_last());
        let c = col.last();
        let s1 = spawn_particles_spec(prev, c.0 as int, c.1 as int, 10, star_colors());
        match c.2 {
            PowerKind::Health => StateV {
                health: if s1.health + 1 > HEALTH_CAP {
                    HEALTH_CAP
                } else {
                    (s1.health + 1) as u32
                },
                cues: s1.cues.push(AudioCue::Delivery),
                ..s1
            },
            PowerKind::Invincible => StateV {
                star_power_timer: 300,
                cues: s1.cues.push(AudioCue::Survive),
                ..s1
            },
        }
    }
}

/// Applying pickups changes only health, the star window, sounds,
/// particles and the RNG seed — and health only ever rises, never past
/// the cap.
pub proof fn lemma_apply_collected_frame(s: StateV, col: Seq<(i32, i32, PowerKind)>)
    ensures
        ({
            let r = apply_collected(s, col);
            &&& r == (StateV {
                health: r.health,
                star_power_timer: r.star_power_timer,
                cues: r.cues,
                particles: r.particles,
                rng_seed: r.rng_seed,
                ..s
            })
            &&& (s.health <= HEALTH_CAP ==> r.health >= s.health && r.health <= HEALTH_CAP)
        }),
    decreases col.len(),
{
    if col.len() > 0 {
        lemma_apply_collected_frame(s, col.drop_last());
        let prev = apply_collected(s, col.drop_last());
        let c = col.last();
        lemma_spawn_particles_frame(prev, c.0 as int, c.1 as int, 10, star_colors());
        let s1 = spawn_particles_spec(prev, c.0 as int, c.1 as int, 10, star_colors());
        assert(s1.health == prev.health);
        let r = apply_collected(s, col);
        match c.2 {
            PowerKind::Health => {
                assert(r.health as int == if s1.health + 1 > HEALTH_CAP {
                    HEALTH_CAP as int
                } else {
                    s1.health + 1
                });
            },
            PowerKind::Invincible => {
                assert(r.health == s1.health);
            },
        }
    }
}

/// The power-ups still worth keeping: on screen and uncollected.
pub open spec fn pows_kept(ps: Seq<PowerUp>) -> Seq<PowerUp>
    decreases ps.len(),
{
    if ps.len() == 0 {
        Seq::<PowerUp>::empty()
    } else {
        let rest = pows_kept(ps.drop_last());
        if ps.last().x > -30_000 && ps.last().active {
            rest.push(ps.last())
        } else {
            rest
        }
    }
}

/// The whole per-frame power-up pass.
pub open spec fn update_powerups_spec(s: StateV) -> StateV {
    let s0 = powerup_spawn_phase(s);
    let pass = power_pass(s0.powerups, s0.player_y as int, s0.scroll_speed as int,
        s0.powerups.len() as int);
    let s2 = apply_collected(StateV { powerups: pass.pows, ..s0 }, pass.collected);
    StateV { powerups: pows_kept(s2.powerups), ..s2 }
}


/// What the power-up pass may touch: the pool and its timer, health (only
/// upward, never past the cap), the star window, sounds, particles and the
/// RNG seed.
pub proof fn lemma_update_powerups_frame(s: StateV)
    ensures
        ({
            let r = update_powerups_spec(s);
            &&& r == (StateV {
                powerups: r.powerups,
                powerup_spawn_timer: r.powerup_spawn_timer,
                health: r.health,
                star_power_timer: r.star_power_timer,
                cues: r.cues,
                particles: r.particles,
                rng_seed: r.rng_seed,
                ..s
            })
            &&& (s.health <= HEALTH_CAP ==> r.health >= s.health && r.health <= HEALTH_CAP)
        }),
{
    let s0 = powerup_spawn_phase(s);
    let pass = power_pass(s0.powerups, s0.player_y as int, s0.scroll_speed as int,
        s0.powerups.len() as int);
    let s1 = StateV { powerups: pass.pows, ..s0 };
    lemma_apply_collected_frame(s1, pass.collected);
}

impl GameState {
    /// Run the per-frame power-up pass: spawn timer, drift, pickup,
    /// effects, cleanup.
    pub fn update_powerups(&mut self)
        ensures
            final(self)@ == update_powerups_spec(old(self)@),
    {
        if self.powerup_spawn_timer > 0 {
            self.powerup_spawn_timer = self.powerup_spawn_timer - 1;
        } else {
            let dk = self.random();
            let kind = if dk % 3 == 0 {
                PowerKind::Invincible
            } else {
                PowerKind::Health
            };
            let y = self.random_range_milli(40_000, 129_600);
            let dp = self.random();
            let phase: u32 = dp % 64;
            self.powerups.push(PowerUp { x: 404_000, y, kind, active: true, bob_phase: phase });
            let dt = self.random();
            self.powerup_spawn_timer = 900 + dt % 600;
            proof {
                assert(self@.powerups =~= powerup_spawn_phase(old(self)@).powerups);
            }
        }
        proof {
            assert(self@ == powerup_spawn_phase(old(self)@));
        }
        let collected = self.power_collect();
        self.apply_pickups(&collected);
        self.retain_powerups();
    }

    /// The drift-and-collect fold.
    #[verifier::loop_isolation(false)]
    #[verifier::rlimit(60)]
    fn power_collect(&mut self) -> (r: Vec<(i32, i32, PowerKind)>)
        ensures
            ({
                let pass = power_pass(old(self)@.powerups, old(self).player_y as int,
                    old(self).scroll_speed as int, old(self)@.powerups.len() as int);
                final(self)@ == (StateV { powerups: pass.pows, ..old(self)@ })
                    && r@ == pass.collected
            }),
    {
        let ghost ps0: Seq<PowerUp> = self.powerups@;
        let ghost py: int = self.player_y as int;
        let ghost scroll: int = self.scroll_speed as int;
        let mut collected: Vec<(i32, i32, PowerKind)> = Vec::new();
        let n = self.powerups.len();
        let mut i: usize = 0;
        while i < n
            invariant
                i <= n,
                n == ps0.len(),
                self.powerups@.len() == n,
                self@ == (StateV {
                    powerups: power_pass(ps0, py, scroll, i as int).pows,
                    ..old(self)@
                }),
                collected@ == power_pass(ps0, py, scroll, i as int).collected,
            decreases n - i,
        {
            let p = self.powerups[i];
            let new_phase: u32 = ((p.bob_phase as u64 + 1) % 0x1_0000_0000u64) as u32;
            let q = PowerUp {
                x: sat_sub(p.x, self.scroll_speed),
                bob_phase: new_phase,
                ..p
            };
            let sv = sin_milli(q.bob_phase);
            let by = sat_add(q.y, sv * 5);
            let dx: i64 = if q.x >= 60_000 {
                q.x as i64 - 60_000
            } else {
                60_000i64 - q.x as i64
            };
            let dy: i64 = if self.player_y >= by {
                self.player_y as i64 - by as i64
            } else {
                by as i64 - self.player_y as i64
            };
            if dx < 25_000 && dy < 20_000 && q.active {
                self.powerups.set(i, PowerUp { active: false, ..q });
                collected.push((q.x, by, q.kind));
            } else {
                self.powerups.set(i, q);
            }
            i = i + 1;
        }
        collected
    }

    /// Apply every pickup collected this frame, in order.
    #[verifier::loop_isolation(false)]
    fn apply_pickups(&mut self, collected: &Vec<(i32, i32, PowerKind)>)
        ensures
            final(self)@ == apply_collected(old(self)@, collected@),
    {
        let mut i: usize = 0;
        while i < collected.len()
            invariant
                i <= collected@.len(),
                self@ == apply_collected(old(self)@, collected@.take(i as int)),
            decreases collected@.len() - i,
        {
            let (cx, cy, kind) = collected[i];
            self.spawn_star_particles(cx, cy);
            match kind {
                PowerKind::Health => {
                    self.health = if self.health >= HEALTH_CAP {
                        HEALTH_CAP
                    } else {
                        self.health + 1
                    };
                    self.cues.push(AudioCue::Delivery);
                },
                PowerKind::Invincible => {
                    self.star_power_timer = 300;
                    self.cues.push(AudioCue::Survive);
                },
            }
            proof {
                assert(collected@.take(i + 1).drop_last() =~= collected@.take(i as int));
                assert(collected@.take(i + 1).last() == collected@[i as int]);
            }
            i = i + 1;
        }
        proof {
            assert(collected@.take(collected@.len() as int) =~= collected@);
        }
    }

    /// Drop collected and off-screen power-ups.
    #[verifier::loop_isolation(false)]
    fn retain_powerups(&mut self)
        ensures
            final(self)@ == (StateV { powerups: pows_kept(old(self)@.powerups), ..old(self)@ }),
    {
        let ghost ps: Seq<PowerUp> = self.powerups@;
        let mut keep: Vec<PowerUp> = Vec::new();
        let mut i: usize = 0;
        while i < self.powerups.len()
            invariant
                i <= ps.len(),
                self == old(self),
                keep@ == pows_kept(ps.take(i as int)),
            decreases ps.len() - i,
        {
            let p = self.powerups[i];
            if p.x > -30_000 && p.active {
                keep.push(p);
            }
            proof {
                assert(ps.take(i + 1).drop_last() =~= ps.take(i as int));
                assert(ps.take(i + 1).last() == ps[i as int]);
            }
            i = i + 1;
        }
        proof {
            assert(ps.take(ps.len() as int) =~= ps);
        }
        self.powerups = keep;
    }
}

} // verus!
