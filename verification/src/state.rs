//! The simulation state aggregate and its mathematical view.
//!
//! [`GameState`] is the single mutable aggregate the whole core operates
//! on; one caller steps it once per frame. [`StateV`] is its spec-level
//! view: the same fields with every `Vec` abstracted to a `Seq`. Every
//! subsystem's contract states the new view as a function of the old one,
//! which is what makes the whole step deterministic by construction.

use vstd::prelude::*;
use crate::types::{Mode, MusicTrack, AudioCue, FrameInput, Chimney, FallingGift, Projectile, PowerKind, PowerUp, Particle, Snowflake, HEALTH_CAP};
use crate::particles::snow_init;

verus! {

/// The whole simulation state. Fields are public: the renderer consumes a
/// read-only snapshot of this struct every frame, and the host shell seeds
/// `rng_seed` and `high_score` before play.
#[derive(Debug, PartialEq)]
pub struct GameState {
    /// Monotonic frame counter; advances every call to `update`, even while
    /// paused, and never resets within a run.
    pub frame: u64,
    pub mode: Mode,
    /// Mode interrupted by `Paused`, to resume into.
    pub previous_mode: Mode,
    /// Accumulated world scroll, consumed only by parallax rendering.
    pub scroll_x: i32,
    /// Current world scroll rate per frame (milli-pixels).
    pub scroll_speed: i32,
    /// Scroll rate at level 1, the base of the difficulty formula.
    pub base_scroll_speed: i32,
    pub player_y: i32,
    pub player_vel_y: i32,
    /// Cosmetic sleigh tilt tracking vertical motion.
    pub sleigh_tilt: i32,
    pub chimneys: Vec<Chimney>,
    /// Gap (milli-pixels) the rightmost chimney must scroll in from the
    /// edge before the next one spawns.
    pub next_chimney_spawn: i32,
    pub gifts: Vec<FallingGift>,
    pub krampus_x: i32,
    pub krampus_y: i32,
    pub krampus_active: bool,
    /// Dormant countdown until the next threat trigger.
    pub krampus_attack_timer: u32,
    /// Remaining frames of the current attack.
    pub krampus_duration: u32,
    pub projectiles: Vec<Projectile>,
    /// Remaining frames of the warning phase.
    pub krampus_warning: u32,
    pub health: u32,
    pub score: u32,
    pub high_score: u32,
    pub deliveries: u32,
    /// Missed-delivery penalty accumulator, clamped to `[0, 100]`.
    pub naughty_meter: u32,
    pub level: u32,
    pub combo_count: u32,
    /// Frames left to extend the streak; zero with a nonzero streak resets it.
    pub combo_timer: u32,
    pub max_combo: u32,
    /// Feedback timers and colors: set by gameplay events, read only by the
    /// renderer; no gameplay rule depends on them.
    pub screen_flash: u32,
    pub flash_color: u32,
    pub screen_shake: u32,
    pub invincible_timer: u32,
    pub fade_alpha: u32,
    pub fade_direction: i32,
    pub snowflakes: Vec<Snowflake>,
    pub particles: Vec<Particle>,
    pub powerups: Vec<PowerUp>,
    pub powerup_spawn_timer: u32,
    pub star_power_timer: u32,
    pub tutorial_timer: u32,
    pub first_play: bool,
    pub rng_seed: u32,
    /// Sound events emitted this run and not yet drained by the host.
    pub cues: Vec<AudioCue>,
}

/// Spec-level view of [`GameState`]: identical fields, `Vec` as `Seq`.
#[verifier::ext_equal]
pub ghost struct StateV {
    pub frame: u64,
    pub mode: Mode,
    pub previous_mode: Mode,
    pub scroll_x: i32,
    pub scroll_speed: i32,
    pub base_scroll_speed: i32,
    pub player_y: i32,
    pub player_vel_y: i32,
    pub sleigh_tilt: i32,
    pub chimneys: Seq<Chimney>,
    pub next_chimney_spawn: i32,
    pub gifts: Seq<FallingGift>,
    pub krampus_x: i32,
    pub krampus_y: i32,
    pub krampus_active: bool,
    pub krampus_attack_timer: u32,
    pub krampus_duration: u32,
    pub projectiles: Seq<Projectile>,
    pub krampus_warning: u32,
    pub health: u32,
    pub score: u32,
    pub high_score: u32,
    pub deliveries: u32,
    pub naughty_meter: u32,
    pub level: u32,
    pub combo_count: u32,
    pub combo_timer: u32,
    pub max_combo: u32,
    pub screen_flash: u32,
    pub flash_color: u32,
    pub screen_shake: u32,
    pub invincible_timer: u32,
    pub fade_alpha: u32,
    pub fade_direction: i32,
    pub snowflakes: Seq<Snowflake>,
    pub particles: Seq<Particle>,
    pub powerups: Seq<PowerUp>,
    pub powerup_spawn_timer: u32,
    pub star_power_timer: u32,
    pub tutorial_timer: u32,
    pub first_play: bool,
    pub rng_seed: u32,
    pub cues: Seq<AudioCue>,
}

impl View for GameState {
    type V = StateV;

    open spec fn view(&self) -> StateV {
        StateV {
            frame: self.frame,
            mode: self.mode,
            previous_mode: self.previous_mode,
            scroll_x: self.scroll_x,
            scroll_speed: self.scroll_speed,
            base_scroll_speed: self.base_scroll_speed,
            player_y: self.player_y,
            player_vel_y: self.player_vel_y,
            sleigh_tilt: self.sleigh_tilt,
            chimneys: self.chimneys@,
            next_chimney_spawn: self.next_chimney_spawn,
            gifts: self.gifts@,
            krampus_x: self.krampus_x,
            krampus_y: self.krampus_y,
            krampus_active: self.krampus_active,
            krampus_attack_timer: self.krampus_attack_timer,
            krampus_duration: self.krampus_duration,
            projectiles: self.projectiles@,
            krampus_warning: self.krampus_warning,
            health: self.health,
            score: self.score,
            high_score: self.high_score,
            deliveries: self.deliveries,
            naughty_meter: self.naughty_meter,
            level: self.level,
            combo_count: self.combo_count,
            combo_timer: self.combo_timer,
            max_combo: self.max_combo,
            screen_flash: self.screen_flash,
            flash_color: self.flash_color,
            screen_shake: self.screen_shake,
            invincible_timer: self.invincible_timer,
            fade_alpha: self.fade_alpha,
            fade_direction: self.fade_direction,
            snowflakes: self.snowflakes@,
            particles: self.particles@,
            powerups: self.powerups@,
            powerup_spawn_timer: self.powerup_spawn_timer,
            star_power_timer: self.star_power_timer,
            tutorial_timer: self.tutorial_timer,
            first_play: self.first_play,
            rng_seed: self.rng_seed,
            cues: self.cues@,
        }
    }
}

/// The view with only the RNG seed replaced: the footprint of one draw.
pub open spec fn with_seed(s: StateV, seed: int) -> StateV {
    StateV { rng_seed: seed as u32, ..s }
}

/// Chimneys are kept sorted by `x`: spawns append at the right edge and the
/// uniform leftward scroll preserves the order. Removal is therefore always
/// a prefix, which is what lets a chimney be tracked across a frame.
pub open spec fn chimneys_ordered(cs: Seq<Chimney>) -> bool {
    forall|i: int, j: int| 0 <= i < j < cs.len() ==> cs[i].x < cs[j].x
}

/// Positional sanity of a single chimney: on or near the screen, with one
/// of the three visual styles.
pub open spec fn chimney_ok(c: Chimney) -> bool {
    &&& -100_000 <= c.x <= 500_000
    &&& c.style <= 2
}

/// The mode machine and the threat controller agree: Krampus is active
/// exactly in the attack phase (and, terminally, in the game-over screen it
/// caused), never while the warning is counting down or during plain play.
pub open spec fn mode_coherent(s: StateV) -> bool {
    &&& (s.mode == Mode::Title ==> !s.krampus_active && s.krampus_warning == 0)
    &&& (s.mode == Mode::Delivering ==> !s.krampus_active && s.krampus_warning == 0)
    &&& (s.mode == Mode::KrampusWarning ==> !s.krampus_active && s.krampus_warning > 0)
    &&& (s.mode == Mode::KrampusAttack ==> s.krampus_active && s.krampus_warning == 0)
    &&& (s.mode == Mode::Paused ==> (s.previous_mode == Mode::Delivering && !s.krampus_active
        && s.krampus_warning == 0) || (s.previous_mode == Mode::KrampusAttack
        && s.krampus_active && s.krampus_warning == 0))
}

/// Well-formedness of the whole state: every reachable state satisfies
/// this. `new` establishes it and `update` preserves it (proved by
/// `wf_preserved` in the laws module and carried on `update`'s contract).
pub open spec fn wf(s: StateV) -> bool {
    &&& s.health <= HEALTH_CAP
    &&& (s.health == 0 <==> s.mode == Mode::GameOver)
    &&& s.naughty_meter <= 100
    &&& s.level >= 1
    &&& 0 <= s.scroll_speed <= 3_500
    &&& 1_500 <= s.base_scroll_speed <= 3_500
    &&& 0 <= s.next_chimney_spawn <= 200_000
    &&& chimneys_ordered(s.chimneys)
    &&& (forall|i: int| 0 <= i < s.chimneys.len() ==> chimney_ok(s.chimneys[i]))
    &&& mode_coherent(s)
}

/// The state `new` produces: title screen, default meters, 50 procedurally
/// placed snowflakes drawn from the default seed.
pub open spec fn new_spec() -> StateV {
    StateV {
        frame: 0,
        mode: Mode::Title,
        previous_mode: Mode::Title,
        scroll_x: 0,
        scroll_speed: 1_500,
        base_scroll_speed: 1_500,
        player_y: 108_000,
        player_vel_y: 0,
        sleigh_tilt: 0,
        chimneys: Seq::empty(),
        next_chimney_spawn: 100_000,
        gifts: Seq::empty(),
        krampus_x: 434_000,
        krampus_y: 108_000,
        krampus_active: false,
        krampus_attack_timer: 1200,
        krampus_duration: 0,
        projectiles: Seq::empty(),
        krampus_warning: 0,
        health: 3,
        score: 0,
        high_score: 0,
        deliveries: 0,
        naughty_meter: 0,
        level: 1,
        combo_count: 0,
        combo_timer: 0,
        max_combo: 0,
        screen_flash: 0,
        flash_color: 0xffffffff,
        screen_shake: 0,
        invincible_timer: 0,
        fade_alpha: 255,
        fade_direction: 1,
        snowflakes: snow_init(42, 50).0,
        particles: Seq::empty(),
        powerups: Seq::empty(),
        powerup_spawn_timer: 600,
        star_power_timer: 0,
        tutorial_timer: 0,
        first_play: true,
        rng_seed: snow_init(42, 50).1 as u32,
        cues: Seq::empty(),
    }
}

impl GameState {
    /// Create the initial title-screen state with the default seed. The
    /// host may overwrite `rng_seed` before starting a run, and sets
    /// `high_score` from whatever persistence it has.
    pub fn new() -> (s: GameState)
        ensures
            s@ == new_spec(),
            wf(s@),
    {
        let mut s = GameState {
            frame: 0,
            mode: Mode::Title,
            previous_mode: Mode::Title,
            scroll_x: 0,
            scroll_speed: 1_500,
            base_scroll_speed: 1_500,
            player_y: 108_000,
            player_vel_y: 0,
            sleigh_tilt: 0,
            chimneys: Vec::new(),
            next_chimney_spawn: 100_000,
            gifts: Vec::new(),
            krampus_x: 434_000,
            krampus_y: 108_000,
            krampus_active: false,
            krampus_attack_timer: 1200,
            krampus_duration: 0,
            projectiles: Vec::new(),
            krampus_warning: 0,
            health: 3,
            score: 0,
            high_score: 0,
            deliveries: 0,
            naughty_meter: 0,
            level: 1,
            combo_count: 0,
            combo_timer: 0,
            max_combo: 0,
            screen_flash: 0,
            flash_color: 0xffffffff,
            screen_shake: 0,
            invincible_timer: 0,
            fade_alpha: 255,
            fade_direction: 1,
            snowflakes: Vec::new(),
            particles: Vec::new(),
            powerups: Vec::new(),
            powerup_spawn_timer: 600,
            star_power_timer: 0,
            tutorial_timer: 0,
            first_play: true,
            rng_seed: 42,
            cues: Vec::new(),
        };
        s.init_snowflakes();
        s
    }

    /// Hand the accumulated sound events to the host and clear the queue.
    pub fn take_cues(&mut self) -> (r: Vec<AudioCue>)
        ensures
            r@ == old(self)@.cues,
            final(self)@ == (StateV { cues: Seq::empty(), ..old(self)@ }),
    {
        let mut out: Vec<AudioCue> = Vec::new();
        core::mem::swap(&mut out, &mut self.cues);
        out
    }
}

} // verus!
