//! Cosmetic entities: snowflakes and burst particles.
//!
//! Nothing here feeds back into a gameplay rule, but all of it draws from
//! the shared RNG seed, so it is specified exactly: a run's procedural
//! decisions depend on every draw made before them.

use vstd::prelude::*;
use crate::types::{Snowflake, Particle, COLOR_GOLD, COLOR_STAR};
use crate::state::{GameState, StateV};
use crate::rng::{lcg, draw_val, range_milli_val};
use crate::geom::{sat32, dec, mul_div_spec, sin_milli_spec, sat_add, sat_sub, mul_div, sin_milli,
    scale_milli};

verus! {

/// One snowflake drawn from `seed` (four RNG draws), and the seed after.
pub open spec fn flake_from(seed: int) -> (Snowflake, int) {
    let s1 = lcg(seed);
    let s2 = lcg(s1);
    let s3 = lcg(s2);
    let s4 = lcg(s3);
    (
        Snowflake {
            x: range_milli_val(seed, 0, 384_000) as i32,
            y: range_milli_val(s1, 0, 216_000) as i32,
            speed: range_milli_val(s2, 500, 1_800) as i32,
            size: (draw_val(s3) % 3 + 1) as u32,
        },
        s4,
    )
}

/// The first `n` snowflakes drawn starting from `seed`, and the seed after.
pub open spec fn snow_init(seed: int, n: nat) -> (Seq<Snowflake>, int)
    decreases n,
{
    if n == 0 {
        (Seq::<Snowflake>::empty(), seed)
    } else {
        let prev = snow_init(seed, (n - 1) as nat);
        let f = flake_from(prev.1);
        (prev.0.push(f.0), f.1)
    }
}

impl GameState {
    /// Replace the snowflake field with 50 freshly drawn flakes.
    #[verifier::loop_isolation(false)]
    pub fn init_snowflakes(&mut self)
        ensures
            final(self)@ == (StateV {
                snowflakes: snow_init(old(self).rng_seed as int, 50).0,
                rng_seed: snow_init(old(self).rng_seed as int, 50).1 as u32,
                ..old(self)@
            }),
    {
        let ghost seed0: int = self.rng_seed as int;
        self.snowflakes = Vec::new();
        let mut i: usize = 0;
        while i < 50
            invariant
                i <= 50,
                self@ == (StateV {
                    snowflakes: snow_init(seed0, i as nat).0,
                    rng_seed: snow_init(seed0, i as nat).1 as u32,
                    ..old(self)@
                }),
            decreases 50 - i,
        {
            let ghost s_in: int = self.rng_seed as int;
            let x = self.random_range_milli(0, 384_000);
            let y = self.random_range_milli(0, 216_000);
            let speed = self.random_range_milli(500, 1_800);
            let d = self.random();
            let size: u32 = d % 3 + 1;
            self.snowflakes.push(Snowflake { x, y, speed, size });
            proof {
                assert(snow_init(seed0, (i + 1) as nat).0 == snow_init(seed0, i as nat).0.push(
                    flake_from(s_in).0));
                assert(self@.snowflakes =~= snow_init(seed0, (i + 1) as nat).0);
            }
            i += 1;
        }
    }
}

/// One burst particle drawn from `seed` (four RNG draws: direction, speed,
/// life, size), and the seed after. The direction is a step on the
/// 64-point sine circle; speed is 1 to 4 pixels per frame with an upward
/// 2-pixel kick. Opaque: callers reason about bursts through
/// [`lemma_spawn_particles_frame`], not the draw arithmetic.
#[verifier::opaque]
pub open spec fn particle_from(seed: int, x: int, y: int, color: u32) -> (Particle, int) {
    let k = draw_val(seed) % 64;
    let s1 = lcg(seed);
    let speed = range_milli_val(s1, 1_000, 4_000);
    let s2 = lcg(s1);
    let life = draw_val(s2) % 30 + 20;
    let s3 = lcg(s2);
    let size = draw_val(s3) % 3 + 2;
    let s4 = lcg(s3);
    (
        Particle {
            x: x as i32,
            y: y as i32,
            vel_x: mul_div_spec(sin_milli_spec(k + 16), speed, 1000) as i32,
            vel_y: sat32(mul_div_spec(sin_milli_spec(k), speed, 1000) - 2_000) as i32,
            life: life as u32,
            color,
            size: size as u32,
        },
        s4,
    )
}

/// The state after spawning `n` burst particles at `(x, y)`, cycling
/// through `colors`.
pub open spec fn spawn_particles_spec(s: StateV, x: int, y: int, n: int, colors: Seq<u32>) -> StateV
    decreases n,
{
    if n <= 0 || colors.len() == 0 {
        s
    } else {
        let prev = spawn_particles_spec(s, x, y, n - 1, colors);
        let p = particle_from(prev.rng_seed as int, x, y, colors[(n - 1) % colors.len() as int]);
        StateV { particles: prev.particles.push(p.0), rng_seed: p.1 as u32, ..prev }
    }
}

/// Spawning particles changes only the particle pool and the RNG seed.
pub proof fn lemma_spawn_particles_frame(s: StateV, x: int, y: int, n: int, colors: Seq<u32>)
    ensures
        ({
            let r = spawn_particles_spec(s, x, y, n, colors);
            r == (StateV { particles: r.particles, rng_seed: r.rng_seed, ..s })
        }),
    decreases n,
{
    if n > 0 && colors.len() > 0 {
        lemma_spawn_particles_frame(s, x, y, n - 1, colors);
    }
}

/// Confetti palette for a successful delivery.
pub open spec fn delivery_colors() -> Seq<u32> {
    seq![COLOR_GOLD, 0xff4444ffu32, 0x44ff44ffu32, 0x4444ffffu32, 0xff44ffffu32]
}

/// Golden palette for star pickups.
pub open spec fn star_colors() -> Seq<u32> {
    seq![COLOR_GOLD, COLOR_STAR, 0xffffaaffu32]
}

/// Celebration palette for a level-up.
pub open spec fn level_colors() -> Seq<u32> {
    seq![COLOR_GOLD, 0xffffffffu32, 0xff4444ffu32]
}

/// One frame of motion for a burst particle: drift, gravity, life decay.
pub open spec fn particle_step(p: Particle) -> Particle {
    Particle {
        x: sat32(p.x + p.vel_x) as i32,
        y: sat32(p.y + p.vel_y) as i32,
        vel_y: sat32(p.vel_y + 150) as i32,
        life: dec(p.life as int) as u32,
        ..p
    }
}

/// All particles moved one frame, with the expired ones dropped.
pub open spec fn particles_step_seq(ps: Seq<Particle>) -> Seq<Particle>
    decreases ps.len(),
{
    if ps.len() == 0 {
        Seq::<Particle>::empty()
    } else {
        let rest = particles_step_seq(ps.drop_last());
        let q = particle_step(ps.last());
        if q.life > 0 {
            rest.push(q)
        } else {
            rest
        }
    }
}

/// One frame of motion for a snowflake at index `i`: fall, drift with the
/// scroll and a sinusoidal sway, wrapping at the screen edges.
pub open spec fn snowflake_step(f: Snowflake, i: int, frame: int, scroll: int) -> Snowflake {
    let y1 = sat32(f.y + f.speed);
    let x1 = sat32(f.x - mul_div_spec(scroll, 500, 1000));
    let x2 = sat32(x1 + mul_div_spec(sin_milli_spec(frame / 20 + i), 300, 1000));
    let wrap_x = ((frame % 256) + (i * 7919) % 256) % 256 * 1000;
    let xa = if y1 > 221_000 {
        wrap_x
    } else {
        x2
    };
    let ya = if y1 > 221_000 {
        -5_000
    } else {
        y1
    };
    let xb = if xa < -5_000 {
        389_000
    } else {
        xa
    };
    Snowflake { x: xb as i32, y: ya as i32, ..f }
}

/// All snowflakes moved one frame.
pub open spec fn snow_step_seq(fs: Seq<Snowflake>, frame: int, scroll: int) -> Seq<Snowflake> {
    Seq::new(fs.len(), |i: int| snowflake_step(fs[i], i, frame, scroll))
}

impl GameState {
    /// Spawn `count` burst particles at `(x, y)` cycling through `colors`.
    #[verifier::loop_isolation(false)]
    pub fn spawn_particles(&mut self, x: i32, y: i32, count: u32, colors: &Vec<u32>)
        requires
            colors@.len() >= 1,
            count <= 1000,
        ensures
            final(self)@ == spawn_particles_spec(old(self)@, x as int, y as int, count as int,
                colors@),
    {
        let mut i: u32 = 0;
        while i < count
            invariant
                i <= count,
                self@ == spawn_particles_spec(old(self)@, x as int, y as int, i as int, colors@),
            decreases count - i,
        {
            let ghost s_in: int = self.rng_seed as int;
            let d = self.random();
            let k: u32 = d % 64;
            let speed = self.random_range_milli(1_000, 4_000);
            let dl = self.random();
            let life: u32 = dl % 30 + 20;
            let ds = self.random();
            let size: u32 = ds % 3 + 2;
            let vel_x = mul_div(sin_milli(k + 16), speed, 1000);
            let vel_y = sat_sub(mul_div(sin_milli(k), speed, 1000), 2_000);
            let color = colors[(i as usize) % colors.len()];
            self.particles.push(Particle { x, y, vel_x, vel_y, life, color, size });
            proof {
                reveal(particle_from);
                assert(self@.particles =~= spawn_particles_spec(old(self)@, x as int, y as int,
                    i as int, colors@).particles.push(particle_from(s_in, x as int, y as int,
                    colors@[i as int % colors@.len() as int]).0));
            }
            i = i + 1;
        }
    }

    /// Confetti burst for a delivery.
    pub fn spawn_delivery_particles(&mut self, x: i32, y: i32)
        ensures
            final(self)@ == spawn_particles_spec(old(self)@, x as int, y as int, 15,
                delivery_colors()),
    {
        let colors: Vec<u32> = vec![COLOR_GOLD, 0xff4444ff, 0x44ff44ff, 0x4444ffff, 0xff44ffff];
        proof {
            assert(colors@ =~= delivery_colors());
        }
        self.spawn_particles(x, y, 15, &colors);
    }

    /// Golden burst for a star pickup.
    pub fn spawn_star_particles(&mut self, x: i32, y: i32)
        ensures
            final(self)@ == spawn_particles_spec(old(self)@, x as int, y as int, 10, star_colors()),
    {
        let colors: Vec<u32> = vec![COLOR_GOLD, COLOR_STAR, 0xffffaaff];
        proof {
            assert(colors@ =~= star_colors());
        }
        self.spawn_particles(x, y, 10, &colors);
    }

    /// Move every burst particle one frame and drop the expired ones.
    #[verifier::loop_isolation(false)]
    pub fn update_particles(&mut self)
        ensures
            final(self)@ == (StateV {
                particles: particles_step_seq(old(self)@.particles),
                ..old(self)@
            }),
    {
        let ghost ps: Seq<Particle> = self.particles@;
        let mut out: Vec<Particle> = Vec::new();
        let mut i: usize = 0;
        while i < self.particles.len()
            invariant
                i <= self.particles.len(),
                self == old(self),
                out@ == particles_step_seq(ps.take(i as int)),
            decreases self.particles.len() - i,
        {
            let p = self.particles[i];
            let q = Particle {
                x: sat_add(p.x, p.vel_x),
                y: sat_add(p.y, p.vel_y),
                vel_y: sat_add(p.vel_y, 150),
                life: if p.life > 0 {
                    p.life - 1
                } else {
                    0
                },
                ..p
            };
            if q.life > 0 {
                out.push(q);
            }
            proof {
                assert(ps.take(i + 1).drop_last() =~= ps.take(i as int));
                assert(ps.take(i + 1).last() == ps[i as int]);
                assert(out@ =~= particles_step_seq(ps.take(i + 1)));
            }
            i = i + 1;
        }
        proof {
            assert(ps.take(self.particles@.len() as int) =~= ps);
        }
        self.particles = out;
    }

    /// Move every snowflake one frame, wrapping at the screen edges.
    #[verifier::loop_isolation(false)]
    pub fn update_snowflakes(&mut self)
        requires
            0 <= old(self).scroll_speed <= 1_000_000,
        ensures
            final(self)@ == (StateV {
                snowflakes: snow_step_seq(old(self)@.snowflakes, old(self).frame as int,
                    old(self).scroll_speed as int),
                ..old(self)@
            }),
    {
        let ghost fs: Seq<Snowflake> = self.snowflakes@;
        let mut out: Vec<Snowflake> = Vec::new();
        let mut i: usize = 0;
        while i < self.snowflakes.len()
            invariant
                i <= self.snowflakes.len(),
                self == old(self),
                out@.len() == i,
                forall|j: int| 0 <= j < i ==> out@[j] == snowflake_step(fs[j], j,
                    old(self).frame as int, old(self).scroll_speed as int),
            decreases self.snowflakes.len() - i,
        {
            let f = self.snowflakes[i];
            let y1 = sat_add(f.y, f.speed);
            let x1 = sat_sub(f.x, scale_milli(self.scroll_speed, 500));
            let phase: u32 = (((self.frame / 20) % 64 + (i as u64) % 64) % 64) as u32;
            let x2 = sat_add(x1, scale_milli(sin_milli(phase), 300));
            proof {
                let fr = old(self).frame as int;
                vstd::arithmetic::div_mod::lemma_add_mod_noop(fr / 20, i as int, 64);
                assert(sin_milli_spec(phase as int) == sin_milli_spec(fr / 20 + i as int));
            }
            let wrap_x: i32 = (((self.frame % 256) + ((i as u64) % 256) * 7919 % 256) % 256)
                as i32 * 1000;
            proof {
                let fr = old(self).frame as int;
                vstd::arithmetic::div_mod::lemma_mul_mod_noop_left(i as int, 7919, 256);
                assert(wrap_x as int == ((fr % 256) + (i as int * 7919) % 256) % 256 * 1000);
            }
            let xa: i32 = if y1 > 221_000 {
                wrap_x
            } else {
                x2
            };
            let ya: i32 = if y1 > 221_000 {
                -5_000
            } else {
                y1
            };
            let xb: i32 = if xa < -5_000 {
                389_000
            } else {
                xa
            };
            out.push(Snowflake { x: xb, y: ya, ..f });
            i = i + 1;
        }
        proof {
            assert(out@ =~= snow_step_seq(fs, old(self).frame as int,
                old(self).scroll_speed as int));
        }
        self.snowflakes = out;
    }
}

} // verus!
