//! The per-frame orchestrator: mode dispatch and the fixed subsystem order.
//!
//! One call to [`GameState::update`] advances the whole simulation exactly
//! one frame. The order is fixed and total: pause toggle first (a paused
//! frame advances nothing but the frame counter), then feedback decay,
//! cosmetics, fade, combo window, and the mode-specific pass — delivery
//! play (also during the threat warning), the Krampus attack, or the menu
//! screens. Keeping this order exactly is what makes collision outcomes
//! reproducible.

use vstd::prelude::*;
use crate::geom::{sat32, dec, mul_div_spec, sat_add, scale_milli};
use crate::types::{Mode, AudioCue, FrameInput, TrapPoint};
use crate::state::{GameState, StateV, wf};
use crate::effects::{effects_tick_spec, fade_tick_spec};
use crate::combo::combo_tick_spec;
use crate::particles::{particles_step_seq, snow_step_seq};
use crate::chimneys::update_chimneys_spec;
use crate::gifts::{drop_gift_spec, update_gifts_spec};
use crate::powerups::update_powerups_spec;
use crate::krampus::{krampus_trigger_spec, krampus_warning_spec, update_krampus_spec,
    update_projectiles_spec};

verus! {

/// Accumulate the world scroll (parallax only; speed is set by the
/// difficulty controller, not here).
pub open spec fn update_scroll_spec(s: StateV) -> StateV {
    StateV { scroll_x: sat32(s.scroll_x + s.scroll_speed) as i32, ..s }
}

/// Vertical sleigh control: a held direction sets the speed and tilt;
/// released, both decay toward rest. The position clamps to the playfield.
pub open spec fn move_player_spec(s: StateV, up: bool, down: bool) -> StateV {
    let vel = if up {
        -3_000int
    } else if down {
        3_000int
    } else {
        mul_div_spec(s.player_vel_y as int, 850, 1000)
    };
    let tilt = if up {
        -8_000int
    } else if down {
        8_000int
    } else {
        mul_div_spec(s.sleigh_tilt as int, 800, 1000)
    };
    let y0 = sat32(s.player_y + vel);
    let y = if y0 < 20_000 {
        20_000int
    } else if y0 > 186_000 {
        186_000int
    } else {
        y0
    };
    StateV { player_y: y as i32, player_vel_y: vel as i32, sleigh_tilt: tilt as i32, ..s }
}

/// Pause toggling: pausing remembers the interrupted mode, unpausing
/// restores it; only live play can pause.
pub open spec fn toggle_pause_spec(s: StateV) -> StateV {
    if s.mode == Mode::Paused {
        StateV { mode: s.previous_mode, ..s }
    } else if s.mode == Mode::Delivering || s.mode == Mode::KrampusAttack {
        StateV { previous_mode: s.mode, mode: Mode::Paused, ..s }
    } else {
        s
    }
}

/// A fresh run: every gameplay field reset in place, keeping the frame
/// counter, snowfall, RNG seed, high score and the first-play flag. The
/// one-time tutorial window opens on a first play.
pub open spec fn start_game_spec(s: StateV) -> StateV {
    StateV {
        mode: Mode::Delivering,
        scroll_x: 0,
        scroll_speed: 1_500,
        base_scroll_speed: 1_500,
        player_y: 108_000,
        player_vel_y: 0,
        sleigh_tilt: 0,
        chimneys: Seq::empty(),
        next_chimney_spawn: 150_000,
        gifts: Seq::empty(),
        projectiles: Seq::empty(),
        particles: Seq::empty(),
        powerups: Seq::empty(),
        krampus_active: false,
        krampus_attack_timer: 1200,
        krampus_warning: 0,
        krampus_duration: 0,
        health: 3,
        score: 0,
        deliveries: 0,
        naughty_meter: 0,
        level: 1,
        invincible_timer: 0,
        star_power_timer: 0,
        combo_count: 0,
        combo_timer: 0,
        max_combo: 0,
        powerup_spawn_timer: 600,
        fade_alpha: 255,
        fade_direction: 1,
        tutorial_timer: if s.first_play {
        600
        } else {
        0
        },
        screen_flash: 8,
        flash_color: 0xffffffff,
        cues: s.cues.push(AudioCue::Start),
        ..s
    }
}

/// Restart after a game over: fold the score into the high score, burn
/// the first-play flag, then start a fresh run.
pub open spec fn reset_game_spec(s: StateV) -> StateV {
    let hs = if s.score > s.high_score {
        s.score
    } else {
        s.high_score
    };
    start_game_spec(StateV { high_score: hs, first_play: false, ..s })
}

/// The delivery-play frame (also run during the threat warning): scroll,
/// steer, chimneys, the optional drop, the gift pass, the threat trigger
/// and warning countdown, power-ups, and the tutorial window.
pub open spec fn deliver_frame_spec(s: StateV, input: FrameInput) -> StateV {
    let a = update_scroll_spec(s);
    let b = move_player_spec(a, input.up, input.down);
    let c = update_chimneys_spec(b);
    let d = if input.drop {
        drop_gift_spec(c)
    } else {
        c
    };
    let e = update_gifts_spec(d);
    let f = krampus_trigger_spec(e);
    let g = krampus_warning_spec(f);
    let h = update_powerups_spec(g);
    StateV { tutorial_timer: dec(h.tutorial_timer as int) as u32, ..h }
}

/// The attack frame: scroll, steer, the threat controller, projectiles.
pub open spec fn attack_frame_spec(s: StateV, input: FrameInput) -> StateV {
    let a = update_scroll_spec(s);
    let b = move_player_spec(a, input.up, input.down);
    let c = update_krampus_spec(b);
    update_projectiles_spec(c)
}

/// One whole frame. Pausing freezes everything but the frame counter;
/// otherwise feedback decays, cosmetics advance, and the current mode's
/// pass runs in its fixed order.
pub open spec fn step_spec(s: StateV, input: FrameInput) -> StateV {
    let s0 = StateV {
        frame: if s.frame == u64::MAX {
        u64::MAX
        } else {
        (s.frame + 1) as u64
        },
        ..s
    };
    let s1 = if input.pause && (s0.mode == Mode::Delivering || s0.mode == Mode::KrampusAttack
        || s0.mode == Mode::Paused) {
        toggle_pause_spec(s0)
    } else {
        s0
    };
    if s1.mode == Mode::Paused {
        s1
    } else {
        let s2 = effects_tick_spec(s1);
        let s3 = StateV { particles: particles_step_seq(s2.particles), ..s2 };
        let s4 = fade_tick_spec(s3);
        let s5 = combo_tick_spec(s4);
        let s6 = StateV {
            snowflakes: snow_step_seq(s5.snowflakes, s5.frame as int, s5.scroll_speed as int),
            ..s5
        };
        match s6.mode {
            Mode::Title => if input.confirm {
                start_game_spec(s6)
            } else {
                s6
            },
            Mode::Delivering => deliver_frame_spec(s6, input),
            Mode::KrampusWarning => deliver_frame_spec(s6, input),
            Mode::KrampusAttack => attack_frame_spec(s6, input),
            Mode::GameOver => if input.confirm {
                reset_game_spec(s6)
            } else {
                s6
            },
            Mode::Paused => s6,
        }
    }
}

/// Fixed-radius trap contact, the hazard check of the ground-walking
/// phases: true when the player is within 10 pixels of some trap point.
pub open spec fn trap_hit(px: int, py: int, t: TrapPoint) -> bool {
    (px - t.x) * (px - t.x) + (py - t.y) * (py - t.y) < 100_000_000
}

/// Is the player standing on any trap point?
pub fn stepped_on_trap(player_x: i32, player_y: i32, traps: &Vec<TrapPoint>) -> (r: bool)
    ensures
        r == exists|i: int| 0 <= i < traps@.len() && trap_hit(player_x as int, player_y as int,
            traps@[i]),
{
    let mut i: usize = 0;
    let mut found: bool = false;
    while i < traps.len()
        invariant
            i <= traps@.len(),
            found == exists|j: int| 0 <= j < i && trap_hit(player_x as int, player_y as int,
                traps@[j]),
        decreases traps@.len() - i,
    {
        let t = traps[i];
        let dx: i128 = player_x as i128 - t.x as i128;
        let dy: i128 = player_y as i128 - t.y as i128;
        proof {
            assert(0 <= dx * dx <= 0x1_0000_0000_0000_0000i128) by (nonlinear_arith)
                requires
                    -0x1_0000_0000i128 <= dx <= 0x1_0000_0000i128,
            ;
            assert(0 <= dy * dy <= 0x1_0000_0000_0000_0000i128) by (nonlinear_arith)
                requires
                    -0x1_0000_0000i128 <= dy <= 0x1_0000_0000i128,
            ;
        }
        if dx * dx + dy * dy < 100_000_000 {
            found = true;
        }
        i = i + 1;
    }
    found
}

impl GameState {
    /// Accumulate the world scroll.
    pub fn update_scroll(&mut self)
        ensures
            final(self)@ == update_scroll_spec(old(self)@),
    {
        self.scroll_x = sat_add(self.scroll_x, self.scroll_speed);
    }

    /// Steer the sleigh for one frame.
    pub fn move_player(&mut self, up: bool, down: bool)
        ensures
            final(self)@ == move_player_spec(old(self)@, up, down),
    {
        if up {
            self.player_vel_y = -3_000;
            self.sleigh_tilt = -8_000;
        } else if down {
            self.player_vel_y = 3_000;
            self.sleigh_tilt = 8_000;
        } else {
            self.player_vel_y = scale_milli(self.player_vel_y, 850);
            self.sleigh_tilt = scale_milli(self.sleigh_tilt, 800);
        }
        let y0 = sat_add(self.player_y, self.player_vel_y);
        self.player_y = if y0 < 20_000 {
            20_000
        } else if y0 > 186_000 {
            186_000
        } else {
            y0
        };
    }

    /// Toggle the pause state, if live play allows it.
    pub fn toggle_pause(&mut self)
        ensures
            final(self)@ == toggle_pause_spec(old(self)@),
    {
        if self.mode == Mode::Paused {
            self.mode = self.previous_mode;
        } else if self.mode == Mode::Delivering || self.mode == Mode::KrampusAttack {
            self.previous_mode = self.mode;
            self.mode = Mode::Paused;
        }
    }

    /// Start a fresh run in place.
    pub fn start_game(&mut self)
        ensures
            final(self)@ == start_game_spec(old(self)@),
    {
        self.mode = Mode::Delivering;
        self.scroll_x = 0;
        self.scroll_speed = 1_500;
        self.base_scroll_speed = 1_500;
        self.player_y = 108_000;
        self.player_vel_y = 0;
        self.sleigh_tilt = 0;
        self.chimneys = Vec::new();
        self.next_chimney_spawn = 150_000;
        self.gifts = Vec::new();
        self.projectiles = Vec::new();
        self.particles = Vec::new();
        self.powerups = Vec::new();
        self.krampus_active = false;
        self.krampus_attack_timer = 1200;
        self.krampus_warning = 0;
        self.krampus_duration = 0;
        self.health = 3;
        self.score = 0;
        self.deliveries = 0;
        self.naughty_meter = 0;
        self.level = 1;
        self.invincible_timer = 0;
        self.star_power_timer = 0;
        self.combo_count = 0;
        self.combo_timer = 0;
        self.max_combo = 0;
        self.powerup_spawn_timer = 600;
        self.fade_alpha = 255;
        self.fade_direction = 1;
        self.tutorial_timer = if self.first_play {
            600
        } else {
            0
        };
        self.screen_flash = 8;
        self.flash_color = 0xffffffff;
        self.cues.push(AudioCue::Start);
        proof {
            assert(self@.chimneys =~= Seq::<crate::types::Chimney>::empty());
            assert(self@.gifts =~= Seq::<crate::types::FallingGift>::empty());
            assert(self@.projectiles =~= Seq::<crate::types::Projectile>::empty());
            assert(self@.particles =~= Seq::<crate::types::Particle>::empty());
            assert(self@.powerups =~= Seq::<crate::types::PowerUp>::empty());
        }
    }

    /// Restart after a game over, folding the score into the high score.
    pub fn reset_game(&mut self)
        ensures
            final(self)@ == reset_game_spec(old(self)@),
    {
        if self.score > self.high_score {
            self.high_score = self.score;
        }
        self.first_play = false;
        self.start_game();
    }

    /// Advance the whole simulation exactly one frame. Well-formedness is
    /// preserved, so frames chain for a whole run.
    #[verifier::rlimit(100)]
    pub fn update(&mut self, input: FrameInput)
        requires
            wf(old(self)@),
        ensures
            final(self)@ == step_spec(old(self)@, input),
            wf(final(self)@),
    {
        proof {
            crate::laws::wf_preserved(old(self)@, input);
        }
        if self.frame < u64::MAX {
            self.frame = self.frame + 1;
        }
        if input.pause && (self.mode == Mode::Delivering || self.mode == Mode::KrampusAttack
            || self.mode == Mode::Paused) {
            self.toggle_pause();
        }
        if self.mode == Mode::Paused {
            return ;
        }
        self.tick_effects();
        self.update_particles();
        self.update_fade();
        self.update_combo();
        self.update_snowflakes();
        match self.mode {
            Mode::Title => {
                if input.confirm {
                    self.start_game();
                }
            },
            Mode::Delivering => {
                self.deliver_frame(input);
            },
            Mode::KrampusWarning => {
                self.deliver_frame(input);
            },
            Mode::KrampusAttack => {
                self.update_scroll();
                self.move_player(input.up, input.down);
                self.update_krampus();
                self.update_projectiles();
            },
            Mode::GameOver => {
                if input.confirm {
                    self.reset_game();
                }
            },
            Mode::Paused => {},
        }
    }

    /// The delivery-play frame, shared by plain play and the warning
    /// phase.
    #[verifier::rlimit(100)]
    fn deliver_frame(&mut self, input: FrameInput)
        requires
            old(self).level >= 1,
            0 <= old(self).base_scroll_speed <= 3_500,
            0 <= old(self).scroll_speed <= 3_500,
        ensures
            final(self)@ == deliver_frame_spec(old(self)@, input),
    {
        self.update_scroll();
        self.move_player(input.up, input.down);
        self.update_chimneys();
        if input.drop {
            self.drop_gift();
        }
        self.update_gifts();
        self.check_krampus_trigger();
        self.update_krampus_warning();
        self.update_powerups();
        if self.tutorial_timer > 0 {
            self.tutorial_timer = self.tutorial_timer - 1;
        }
    }
}

} // verus!
