//! The Krampus threat controller and its projectiles.
//!
//! Dormant, the threat counts down (or the naughty meter forces it); a
//! 120-frame warning precedes a 360-frame attack. While active, Krampus
//! flies in from the right, tracks the sleigh vertically, and fires
//! volleys in one of four patterns on a level-tightened cadence.
//! Surviving the attack pays a bonus and resets the meter; projectile hits
//! cost health, and health zero ends the run on the same frame.

use vstd::prelude::*;
use crate::geom::{sat32, sat_u32, dec, mul_div_spec, sat_add, sat_sub, mul_div, dist_sq, isqrt,
    sin_milli_spec, sin_milli};
use crate::types::{Projectile, AudioCue, Mode};
use crate::state::{GameState, StateV};
use crate::rng::{lcg, range_milli_val};

verus! {

/// Largest integer whose square does not exceed `n` (0 for negative `n`).
pub open spec fn sqrt_floor(n: int) -> int
    decreases (if n >= 0 { n } else { 0 }),
{
    if n <= 0 {
        0
    } else {
        let p = sqrt_floor(n - 1);
        if (p + 1) * (p + 1) <= n {
            p + 1
        } else {
            p
        }
    }
}

/// `sqrt_floor` is the integer square root.
pub proof fn lemma_sqrt_floor_bounds(n: int)
    requires
        n >= 0,
    ensures
        sqrt_floor(n) >= 0,
        sqrt_floor(n) * sqrt_floor(n) <= n,
        (sqrt_floor(n) + 1) * (sqrt_floor(n) + 1) > n,
    decreases n,
{
    if n > 0 {
        lemma_sqrt_floor_bounds(n - 1);
        let p = sqrt_floor(n - 1);
        if (p + 1) * (p + 1) <= n {
            assert((p + 2) * (p + 2) > n) by (nonlinear_arith)
                requires
                    p >= 0,
                    (p + 1) * (p + 1) > n - 1,
            ;
        }
    }
}

/// The integer square root is unique, so any `r` with
/// `r * r <= n < (r + 1) * (r + 1)` equals `sqrt_floor(n)`.
pub proof fn lemma_sqrt_unique(n: int, r: int)
    requires
        n >= 0,
        r >= 0,
        r * r <= n,
        (r + 1) * (r + 1) > n,
    ensures
        r == sqrt_floor(n),
{
    lemma_sqrt_floor_bounds(n);
    let s = sqrt_floor(n);
    assert(r == s) by (nonlinear_arith)
        requires
            r >= 0,
            s >= 0,
            r * r <= n,
            (r + 1) * (r + 1) > n,
            s * s <= n,
            (s + 1) * (s + 1) > n,
    ;
}

/// Dormant-phase trigger check: tick the countdown; at zero — or once the
/// naughty meter reaches 80 — open the 120-frame warning.
pub open spec fn krampus_trigger_spec(s: StateV) -> StateV {
    if s.krampus_active || s.krampus_warning > 0 {
        s
    } else {
        let t = dec(s.krampus_attack_timer as int);
        if t == 0 || s.naughty_meter >= 80 {
            StateV {
                krampus_attack_timer: t as u32,
                krampus_warning: 120,
                mode: Mode::KrampusWarning,
                screen_shake: 10,
                cues: s.cues.push(AudioCue::Warning),
                ..s
            }
        } else {
            StateV { krampus_attack_timer: t as u32, ..s }
        }
    }
}

/// The threat trigger never lags: in a dormant state, the frame on which
/// the dormant countdown runs out — or on which the naughty meter stands
/// at the forcing threshold of 80, whichever comes first — opens the
/// 120-frame warning immediately.
pub proof fn meter_threshold_triggers_warning(s: StateV)
    requires
        !s.krampus_active,
        s.krampus_warning == 0,
        s.naughty_meter >= 80 || s.krampus_attack_timer <= 1,
    ensures
        krampus_trigger_spec(s).mode == Mode::KrampusWarning,
        krampus_trigger_spec(s).krampus_warning == 120,
{
}

/// Warning-phase countdown; at zero the attack begins: Krampus enters just
/// off the right edge at a random height for a 360-frame assault.
pub open spec fn krampus_warning_spec(s: StateV) -> StateV {
    if s.krampus_warning > 0 {
        let w = (s.krampus_warning - 1) as u32;
        if w == 0 {
            StateV {
                krampus_warning: 0,
                mode: Mode::KrampusAttack,
                krampus_active: true,
                krampus_x: 414_000,
                krampus_y: range_milli_val(s.rng_seed as int, 40_000, 176_000) as i32,
                krampus_duration: 360,
                screen_flash: 15,
                flash_color: 0xff0000ff,
                screen_shake: 15,
                rng_seed: lcg(s.rng_seed as int) as u32,
                cues: s.cues.push(AudioCue::Krampus),
                ..s
            }
        } else {
            StateV { krampus_warning: w, ..s }
        }
    } else {
        s
    }
}

/// Volley cadence: `max(20, 50 - min(25, level * 5))` frames between
/// volleys — faster with level, floored.
pub open spec fn fire_rate(level: int) -> int {
    let m = if level * 5 > 25 {
        25int
    } else {
        level * 5
    };
    if 50 - m < 20 {
        20
    } else {
        50 - m
    }
}

/// Projectile speed: 2.5 pixels per frame plus 0.3 per level, clamped.
pub open spec fn base_speed(level: int) -> int {
    sat32(2_500 + level * 300)
}

/// A projectile leaves 15 pixels ahead of Krampus.
pub open spec fn spawn_projectile_spec(s: StateV, vx: int, vy: int) -> StateV {
    StateV {
        projectiles: s.projectiles.push(Projectile {
            x: sat32(s.krampus_x - 15_000) as i32,
            y: s.krampus_y,
            vel_x: vx as i32,
            vel_y: vy as i32,
            active: true,
        }),
        ..s
    }
}

/// One volley. The pattern index cycles with time and level: a single
/// aimed shot, a three-way aimed spread, a three-lane horizontal wave, or
/// a two-way diagonal cross. Aimed shots use the unit vector toward the
/// sleigh at fire time; wave and cross are screen-relative.
pub open spec fn fire_pattern_spec(s: StateV) -> StateV {
    let pattern = (s.frame as int / 60 + s.level as int) % 4;
    let bs = base_speed(s.level as int);
    let dx = sat32(60_000 - s.krampus_x);
    let dy = sat32(s.player_y - s.krampus_y);
    let d0 = sqrt_floor(dx * dx + dy * dy);
    let d = if d0 < 1 {
        1
    } else {
        d0
    };
    let vx = mul_div_spec(dx, bs, d);
    let vy = mul_div_spec(dy, bs, d);
    if pattern == 0 {
        spawn_projectile_spec(s, vx, vy)
    } else if pattern == 1 {
        let s1 = spawn_projectile_spec(s, vx, vy);
        let s2 = spawn_projectile_spec(s1, sat32(vx - 800), sat32(vy - 800));
        spawn_projectile_spec(s2, sat32(vx + 800), sat32(vy + 800))
    } else if pattern == 2 {
        let s1 = spawn_projectile_spec(s, -bs, -1_500);
        let s2 = spawn_projectile_spec(s1, -bs, 0);
        spawn_projectile_spec(s2, -bs, 1_500)
    } else {
        let half = mul_div_spec(bs, 500, 1000);
        let s1 = spawn_projectile_spec(s, -bs, -half);
        spawn_projectile_spec(s1, -bs, half)
    }
}

/// A volley changes only the projectile pool.
pub proof fn lemma_fire_pattern_frame(s: StateV)
    ensures
        ({
            let r = fire_pattern_spec(s);
            r == (StateV { projectiles: r.projectiles, ..s })
        }),
{
}

/// One frame of the active attack: approach, track the sleigh, bob, fire
/// on cadence, and count the assault down. At zero Krampus retreats: the
/// survival bonus pays out, the meter clears, and play resumes with a
/// level-scaled dormant countdown.
pub open spec fn update_krampus_spec(s: StateV) -> StateV {
    if !s.krampus_active {
        s
    } else {
        let x1 = if s.krampus_x > 324_000 {
            sat32(s.krampus_x - 3_000)
        } else {
            s.krampus_x as int
        };
        let y1 = sat32(s.krampus_y + mul_div_spec(sat32(s.player_y - s.krampus_y), 35, 1000));
        let y2 = sat32(y1 + mul_div_spec(sin_milli_spec(s.frame as int / 10), 500, 1000));
        let sm = StateV { krampus_x: x1 as i32, krampus_y: y2 as i32, ..s };
        let sf = if s.frame as int % fire_rate(s.level as int) == 0 {
            fire_pattern_spec(sm)
        } else {
            sm
        };
        let dur = dec(sf.krampus_duration as int);
        if dur == 0 {
            let t0 = if s.level as int * 40 > 400 {
                400int
            } else {
                s.level as int * 40
            };
            let t = if 600 - t0 < 180 {
                180int
            } else {
                600 - t0
            };
            StateV {
                krampus_duration: 0,
                krampus_active: false,
                mode: Mode::Delivering,
                krampus_attack_timer: t as u32,
                naughty_meter: 0,
                score: sat_u32(sf.score + sat_u32(200 + s.level as int * 50)) as u32,
                screen_flash: 10,
                flash_color: 0x00ff00ff,
                screen_shake: 5,
                cues: sf.cues.push(AudioCue::Survive),
                ..sf
            }
        } else {
            StateV { krampus_duration: dur as u32, ..sf }
        }
    }
}

/// One frame of projectile motion.
pub open spec fn proj_move(p: Projectile) -> Projectile {
    Projectile { x: sat32(p.x + p.vel_x) as i32, y: sat32(p.y + p.vel_y) as i32, ..p }
}

/// A projectile touches the sleigh: centers within 14 pixels.
pub open spec fn proj_hits_player(p: Projectile, player_y: int) -> bool {
    (p.x - 60_000) * (p.x - 60_000) + (p.y - player_y) * (p.y - player_y) < 196_000_000
}

/// A projectile has left the screen margin.
pub open spec fn proj_off(p: Projectile) -> bool {
    p.x < -20_000 || p.x > 404_000 || p.y < -20_000 || p.y > 236_000
}

/// While either grace window is open, the player-hit check is skipped
/// entirely.
pub open spec fn shielded(s: StateV) -> bool {
    s.invincible_timer > 0 || s.star_power_timer > 0
}

/// Move the first `n` projectiles; unless shielded, each may strike the
/// sleigh and go out. The flag records whether any strike landed.
pub open spec fn proj_pass(ps: Seq<Projectile>, player_y: int, no_hit: bool, n: int) -> (Seq<
    Projectile>, bool)
    decreases n,
{
    if n <= 0 {
        (ps, false)
    } else {
        let r = proj_pass(ps, player_y, no_hit, n - 1);
        let p = r.0[n - 1];
        if !p.active {
            r
        } else {
            let q = proj_move(p);
            let hit = !no_hit && proj_hits_player(q, player_y);
            let q2 = if hit {
                Projectile { active: false, ..q }
            } else {
                q
            };
            let q3 = if proj_off(q2) {
                Projectile { active: false, ..q2 }
            } else {
                q2
            };
            (r.0.update(n - 1, q3), r.1 || hit)
        }
    }
}

/// The projectiles still in flight.
pub open spec fn projs_kept(ps: Seq<Projectile>) -> Seq<Projectile>
    decreases ps.len(),
{
    if ps.len() == 0 {
        Seq::<Projectile>::empty()
    } else {
        let rest = projs_kept(ps.drop_last());
        if ps.last().active {
            rest.push(ps.last())
        } else {
            rest
        }
    }
}

/// The whole projectile pass: motion and strikes, then — if anything
/// landed — one health point, hit feedback and a fresh 90-frame grace
/// window; health zero is the terminal transition to the game-over
/// screen, which also cancels the grace window. Spent projectiles are
/// dropped.
pub open spec fn update_projectiles_spec(s: StateV) -> StateV {
    let pass = proj_pass(s.projectiles, s.player_y as int, shielded(s),
        s.projectiles.len() as int);
    let s1 = StateV { projectiles: pass.0, ..s };
    let s2 = if pass.1 {
        let h = dec(s1.health as int) as u32;
        let sa = StateV {
            health: h,
            screen_flash: 15,
            flash_color: 0xff0000ff,
            screen_shake: 12,
            invincible_timer: 90,
            cues: s1.cues.push(AudioCue::Hit),
            ..s1
        };
        if h == 0 {
            StateV {
                mode: Mode::GameOver,
                screen_shake: 25,
                invincible_timer: 0,
                cues: sa.cues.push(AudioCue::GameOver),
                ..sa
            }
        } else {
            sa
        }
    } else {
        s1
    };
    StateV { projectiles: projs_kept(s2.projectiles), ..s2 }
}

/// Clamped health at the projectile pass, the one place health can fall:
/// health never rises here, and the run ends — the terminal transition to
/// the game-over screen — on exactly the frame health reaches zero, never
/// before.
pub proof fn health_zero_is_game_over(s: StateV)
    requires
        s.mode != Mode::GameOver,
        s.health > 0,
    ensures
        ({
            let r = update_projectiles_spec(s);
            &&& r.health <= s.health
            &&& (r.mode == Mode::GameOver <==> r.health == 0)
            &&& (r.mode == s.mode || r.mode == Mode::GameOver)
        }),
{
}

impl GameState {
    /// Run the per-frame projectile pass.
    pub fn update_projectiles(&mut self)
        ensures
            final(self)@ == update_projectiles_spec(old(self)@),
    {
        let any_hit = self.proj_collisions();
        if any_hit {
            if self.health > 0 {
                self.health = self.health - 1;
            }
            self.screen_flash = 15;
            self.flash_color = 0xff0000ff;
            self.screen_shake = 12;
            self.invincible_timer = 90;
            self.cues.push(AudioCue::Hit);
            if self.health == 0 {
                self.mode = Mode::GameOver;
                self.screen_shake = 25;
                self.invincible_timer = 0;
                self.cues.push(AudioCue::GameOver);
            }
        }
        self.retain_projectiles();
    }

    /// The motion-and-strike fold.
    #[verifier::loop_isolation(false)]
    #[verifier::rlimit(60)]
    fn proj_collisions(&mut self) -> (any_hit: bool)
        ensures
            ({
                let pass = proj_pass(old(self)@.projectiles, old(self).player_y as int,
                    shielded(old(self)@), old(self)@.projectiles.len() as int);
                final(self)@ == (StateV { projectiles: pass.0, ..old(self)@ })
                    && any_hit == pass.1
            }),
    {
        let ghost ps0: Seq<Projectile> = self.projectiles@;
        let ghost py: int = self.player_y as int;
        let no_hit: bool = self.invincible_timer > 0 || self.star_power_timer > 0;
        let mut any_hit: bool = false;
        let n = self.projectiles.len();
        let mut i: usize = 0;
        while i < n
            invariant
                i <= n,
                n == ps0.len(),
                self.projectiles@.len() == n,
                no_hit == shielded(old(self)@),
                self@ == (StateV {
                    projectiles: proj_pass(ps0, py, no_hit, i as int).0,
                    ..old(self)@
                }),
                any_hit == proj_pass(ps0, py, no_hit, i as int).1,
            decreases n - i,
        {
            let p = self.projectiles[i];
            if p.active {
                let q = Projectile {
                    x: sat_add(p.x, p.vel_x),
                    y: sat_add(p.y, p.vel_y),
                    ..p
                };
                let dx: i128 = q.x as i128 - 60_000;
                let dy: i128 = q.y as i128 - self.player_y as i128;
                proof {
                    assert(0 <= dx * dx <= 0x1_0000_0000_0000_0000i128) by (nonlinear_arith)
                        requires
                            -0x1_0000_0000i128 <= dx <= 0x1_0000_0000i128,
                    ;
                    assert(0 <= dy * dy <= 0x1_0000_0000_0000_0000i128) by (nonlinear_arith)
                        requires
                            -0x1_0000_0000i128 <= dy <= 0x1_0000_0000i128,
                    ;
                }
                let hit: bool = !no_hit && dx * dx + dy * dy < 196_000_000;
                let q2 = if hit {
                    Projectile { active: false, ..q }
                } else {
                    q
                };
                let off: bool = q2.x < -20_000 || q2.x > 404_000 || q2.y < -20_000
                    || q2.y > 236_000;
                let q3 = if off {
                    Projectile { active: false, ..q2 }
                } else {
                    q2
                };
                self.projectiles.set(i, q3);
                if hit {
                    any_hit = true;
                }
            }
            i = i + 1;
        }
        any_hit
    }

    /// Drop the spent projectiles.
    #[verifier::loop_isolation(false)]
    fn retain_projectiles(&mut self)
        ensures
            final(self)@ == (StateV {
                projectiles: projs_kept(old(self)@.projectiles),
                ..old(self)@
            }),
    {
        let ghost ps: Seq<Projectile> = self.projectiles@;
        let mut keep: Vec<Projectile> = Vec::new();
        let mut i: usize = 0;
        while i < self.projectiles.len()
            invariant
                i <= ps.len(),
                self == old(self),
                keep@ == projs_kept(ps.take(i as int)),
            decreases ps.len() - i,
        {
            let p = self.projectiles[i];
            if p.active {
                keep.push(p);
            }
            proof {
                assert(ps.take(i + 1).drop_last() =~= ps.take(i as int));
                assert(ps.take(i + 1).last() == ps[i as int]);
            }
            i = i + 1;
        }
        proof {
            assert(ps.take(ps.len() as int) =~= ps);
        }
        self.projectiles = keep;
    }

    /// Dormant-phase trigger check.
    pub fn check_krampus_trigger(&mut self)
        ensures
            final(self)@ == krampus_trigger_spec(old(self)@),
    {
        if self.krampus_active || self.krampus_warning > 0 {
            return ;
        }
        if self.krampus_attack_timer > 0 {
            self.krampus_attack_timer = self.krampus_attack_timer - 1;
        }
        if self.krampus_attack_timer == 0 || self.naughty_meter >= 80 {
            self.krampus_warning = 120;
            self.mode = Mode::KrampusWarning;
            self.screen_shake = 10;
            self.cues.push(AudioCue::Warning);
        }
    }

    /// Warning-phase countdown and attack entry.
    pub fn update_krampus_warning(&mut self)
        ensures
            final(self)@ == krampus_warning_spec(old(self)@),
    {
        if self.krampus_warning > 0 {
            self.krampus_warning = self.krampus_warning - 1;
            if self.krampus_warning == 0 {
                self.mode = Mode::KrampusAttack;
                self.krampus_active = true;
                self.krampus_x = 414_000;
                self.krampus_y = self.random_range_milli(40_000, 176_000);
                self.krampus_duration = 360;
                self.screen_flash = 15;
                self.flash_color = 0xff0000ff;
                self.screen_shake = 15;
                self.cues.push(AudioCue::Krampus);
            }
        }
    }

    /// Fire one volley in the pattern the clock and level select.
    pub fn fire_projectile_pattern(&mut self)
        requires
            old(self).level >= 1,
        ensures
            final(self)@ == fire_pattern_spec(old(self)@),
    {
        let pattern: u64 = (self.frame / 60 + self.level as u64) % 4;
        let bs64: u64 = 2_500 + self.level as u64 * 300;
        let bs: i32 = if bs64 > i32::MAX as u64 {
            i32::MAX
        } else {
            bs64 as i32
        };
        let dx = sat_sub(60_000, self.krampus_x);
        let dy = sat_sub(self.player_y, self.krampus_y);
        let dsq = dist_sq(dx, dy, 0, 0);
        proof {
            assert(dsq as int == dx as int * dx as int + dy as int * dy as int);
        }
        let d0 = isqrt(dsq);
        proof {
            lemma_sqrt_unique(dsq as int, d0 as int);
        }
        let d: u64 = if d0 < 1 {
            1
        } else {
            d0
        };
        let vx = mul_div(dx, bs, d);
        let vy = mul_div(dy, bs, d);
        if pattern == 0 {
            self.spawn_projectile(vx, vy);
        } else if pattern == 1 {
            self.spawn_projectile(vx, vy);
            self.spawn_projectile(sat_sub(vx, 800), sat_sub(vy, 800));
            self.spawn_projectile(sat_add(vx, 800), sat_add(vy, 800));
        } else if pattern == 2 {
            self.spawn_projectile(-bs, -1_500);
            self.spawn_projectile(-bs, 0);
            self.spawn_projectile(-bs, 1_500);
        } else {
            let half = mul_div(bs, 500, 1000);
            self.spawn_projectile(-bs, -half);
            self.spawn_projectile(-bs, half);
        }
    }

    /// Append one projectile just ahead of Krampus.
    pub fn spawn_projectile(&mut self, vel_x: i32, vel_y: i32)
        ensures
            final(self)@ == spawn_projectile_spec(old(self)@, vel_x as int, vel_y as int),
    {
        let px = sat_sub(self.krampus_x, 15_000);
        let py = self.krampus_y;
        self.projectiles.push(Projectile { x: px, y: py, vel_x, vel_y, active: true });
        proof {
            assert(self@.projectiles =~= spawn_projectile_spec(old(self)@, vel_x as int,
                vel_y as int).projectiles);
        }
    }

    /// One frame of the active attack.
    #[verifier::rlimit(100)]
    pub fn update_krampus(&mut self)
        requires
            old(self).level >= 1,
        ensures
            final(self)@ == update_krampus_spec(old(self)@),
    {
        if !self.krampus_active {
            return ;
        }
        if self.krampus_x > 324_000 {
            self.krampus_x = sat_sub(self.krampus_x, 3_000);
        }
        let dy = sat_sub(self.player_y, self.krampus_y);
        self.krampus_y = sat_add(self.krampus_y, mul_div(dy, 35, 1000));
        let phase: u32 = ((self.frame / 10) % 64) as u32;
        let bob = mul_div(sin_milli(phase), 500, 1000);
        proof {
            assert(sin_milli_spec(phase as int) == sin_milli_spec(old(self).frame as int / 10));
        }
        self.krampus_y = sat_add(self.krampus_y, bob);

        let lvl5: u64 = self.level as u64 * 5;
        let m: u64 = if lvl5 > 25 {
            25
        } else {
            lvl5
        };
        let fr: u64 = if 50 - m < 20 {
            20
        } else {
            50 - m
        };
        if self.frame % fr == 0 {
            let ghost sm: StateV = self@;
            self.fire_projectile_pattern();
            proof {
                lemma_fire_pattern_frame(sm);
            }
        }

        if self.krampus_duration > 0 {
            self.krampus_duration = self.krampus_duration - 1;
        }
        if self.krampus_duration == 0 {
            self.krampus_active = false;
            self.mode = Mode::Delivering;
            let t40: u64 = self.level as u64 * 40;
            let t0: u64 = if t40 > 400 {
                400
            } else {
                t40
            };
            self.krampus_attack_timer = if 600 - t0 < 180 {
                180
            } else {
                (600 - t0) as u32
            };
            self.naughty_meter = 0;
            let l50: u64 = 200 + self.level as u64 * 50;
            let bonus: u32 = if l50 > u32::MAX as u64 {
                u32::MAX
            } else {
                l50 as u32
            };
            self.score = crate::geom::sat_add_u32(self.score, bonus);
            self.screen_flash = 10;
            self.flash_color = 0x00ff00ff;
            self.screen_shake = 5;
            self.cues.push(AudioCue::Survive);
        }
    }
}

} // verus!
