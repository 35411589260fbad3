//! The core guarantees of the simulation, stated and proved over the spec
//! step function that `GameState::update` is proved to implement.

use vstd::prelude::*;
use crate::types::{Mode, FrameInput, Chimney, FallingGift, Projectile, HEALTH_CAP};
use crate::state::{StateV, wf, chimneys_ordered, chimney_ok};
use crate::combo::combo_tick_spec;
use crate::chimneys::{chimneys_kept, chimneys_moved, chimney_move, chimney_from, spawn_due,
    update_chimneys_spec, lemma_kept_suffix, lemma_kept_on_screen, lemma_chimney_from_ok,
    lemma_missed_nonneg, CHIMNEY_GONE_X};
use crate::rng::lemma_range_bounds;
use crate::powerups::{update_powerups_spec, lemma_update_powerups_frame};
use crate::step::{deliver_frame_spec, attack_frame_spec, update_scroll_spec, move_player_spec,
    step_spec};
use crate::gifts::{gift_pass, update_gifts_spec, lemma_gift_pass_chimneys,
    lemma_update_gifts_frame, drop_gift_spec};
use crate::krampus::{proj_pass, update_projectiles_spec, krampus_trigger_spec,
    krampus_warning_spec, update_krampus_spec};

verus! {

/// The state after running a whole input trace, one frame per entry.
pub open spec fn run_spec(s: StateV, inputs: Seq<FrameInput>) -> StateV
    decreases inputs.len(),
{
    if inputs.len() == 0 {
        s
    } else {
        run_spec(step_spec(s, inputs[0]), inputs.drop_first())
    }
}

/// Determinism: the whole frame step is a pure function of the state and
/// the frame's input, so two runs from equal states over equal input
/// traces agree bit for bit, for any trace length. `GameState::update`
/// ensures its result equals `step_spec` exactly, so this carries over to
/// executions: every field — entity positions, score, mode, the RNG seed —
/// coincides.
pub proof fn determinism(s1: StateV, s2: StateV, t1: Seq<FrameInput>, t2: Seq<FrameInput>)
    requires
        s1 == s2,
        t1 == t2,
    ensures
        run_spec(s1, t1) == run_spec(s2, t2),
{
}

/// Combo decay: the streak window counts down one per frame, and the
/// streak resets to exactly zero on the very frame the window reaches
/// zero (and stays reset while the window sits at zero).
pub proof fn combo_decay(s: StateV)
    ensures
        combo_tick_spec(s).combo_count as int == (if s.combo_timer <= 1 && s.combo_count > 0 {
            0int
        } else {
            s.combo_count as int
        }),
        s.combo_timer > 0 ==> combo_tick_spec(s).combo_timer == s.combo_timer - 1,
{
}

/// A miss resets the streak immediately: if some gift left the playfield
/// undelivered this frame — by the bottom or the left edge — and no
/// delivery landed, the gift pass leaves the streak and its window at
/// exactly zero, whatever the window held.
pub proof fn miss_breaks_combo(s: StateV)
    ensures
        ({
            let p = gift_pass(s.gifts, s.chimneys, s.scroll_speed as int, s.level as int,
                s.gifts.len() as int);
            (p.missed && p.made == 0) ==> update_gifts_spec(s).combo_count == 0
                && update_gifts_spec(s).combo_timer == 0
        }),
{
}

/// While shielded, the projectile pass reports no strike at all.
proof fn lemma_proj_pass_no_hit(ps: Seq<Projectile>, player_y: int, n: int)
    ensures
        !proj_pass(ps, player_y, true, n).1,
    decreases n,
{
    if n > 0 {
        lemma_proj_pass_no_hit(ps, player_y, n - 1);
    }
}

/// Invincibility suppression: while either grace window is open
/// (`invincible_timer > 0` or `star_power_timer > 0`), the projectile pass
/// cannot reduce health — nor do anything else a hit would do: the mode,
/// the grace windows and the sound queue are untouched.
pub proof fn invincibility_suppression(s: StateV)
    requires
        s.invincible_timer > 0 || s.star_power_timer > 0,
    ensures
        update_projectiles_spec(s).health == s.health,
        update_projectiles_spec(s).mode == s.mode,
        update_projectiles_spec(s).cues == s.cues,
        update_projectiles_spec(s).invincible_timer == s.invincible_timer,
{
    lemma_proj_pass_no_hit(s.projectiles, s.player_y as int, s.projectiles.len() as int);
}

/// Health and mode agreement through one delivery-play frame: health is
/// untouched and the run cannot end here.
proof fn lemma_deliver_health(u: StateV, input: FrameInput)
    requires
        u.mode == Mode::Delivering || u.mode == Mode::KrampusWarning,
        0 < u.health <= HEALTH_CAP,
    ensures
        ({
            let t = deliver_frame_spec(u, input);
            &&& 0 < t.health <= HEALTH_CAP
            &&& t.mode != Mode::GameOver
        }),
{
    let a = update_scroll_spec(u);
    let b = move_player_spec(a, input.up, input.down);
    let c = update_chimneys_spec(b);
    let dd = if input.drop {
        drop_gift_spec(c)
    } else {
        c
    };
    lemma_update_gifts_frame(dd);
    let e = update_gifts_spec(dd);
    let f = krampus_trigger_spec(e);
    let g = krampus_warning_spec(f);
    lemma_update_powerups_frame(g);
    assert(g.health == u.health);
    assert(g.mode != Mode::GameOver);
}

/// Health and mode agreement through one attack frame: health can only
/// fall at the projectile pass, and the run ends exactly when it reaches
/// zero.
proof fn lemma_attack_health(u: StateV, input: FrameInput)
    requires
        u.mode == Mode::KrampusAttack,
        0 < u.health <= HEALTH_CAP,
    ensures
        ({
            let t = attack_frame_spec(u, input);
            &&& t.health <= HEALTH_CAP
            &&& (t.health == 0 <==> t.mode == Mode::GameOver)
        }),
{
    let a = update_scroll_spec(u);
    let b = move_player_spec(a, input.up, input.down);
    let c = update_krampus_spec(b);
    if b.krampus_active && b.frame as int % crate::krampus::fire_rate(b.level as int) == 0 {
        crate::krampus::lemma_fire_pattern_frame(StateV {
            krampus_x: c.krampus_x,
            krampus_y: c.krampus_y,
            ..b
        });
    }
    assert(c.health == u.health);
    assert(c.mode == Mode::KrampusAttack || c.mode == Mode::Delivering);
    crate::krampus::health_zero_is_game_over(c);
}

/// Clamped health, over one whole frame: from any state whose health and
/// mode agree (health in `[0, cap]`, zero exactly on the game-over
/// screen), the step keeps health in `[0, cap]`, keeps the agreement, and
/// enters the game-over screen only on the very frame health reaches
/// zero — never before.
#[verifier::rlimit(100)]
pub proof fn health_clamped(s: StateV, input: FrameInput)
    requires
        s.health <= HEALTH_CAP,
        s.health == 0 <==> s.mode == Mode::GameOver,
        s.mode == Mode::Paused ==> s.previous_mode == Mode::Delivering || s.previous_mode
            == Mode::KrampusAttack,
    ensures
        ({
            let t = step_spec(s, input);
            &&& t.health <= HEALTH_CAP
            &&& (t.health == 0 <==> t.mode == Mode::GameOver)
            &&& (t.mode == Mode::GameOver ==> s.mode == Mode::GameOver || t.health == 0)
        }),
{
    let s0 = StateV {
        frame: if s.frame == u64::MAX {
        u64::MAX
        } else {
        (s.frame + 1) as u64
        },
        ..s
    };
    let s1 = if input.pause && (s0.mode == Mode::Delivering || s0.mode == Mode::KrampusAttack
        || s0.mode == Mode::Paused) {
        crate::step::toggle_pause_spec(s0)
    } else {
        s0
    };
    if s1.mode != Mode::Paused {
        let s2 = crate::effects::effects_tick_spec(s1);
        let s3 = StateV { particles: crate::particles::particles_step_seq(s2.particles), ..s2 };
        let s4 = crate::effects::fade_tick_spec(s3);
        let s5 = combo_tick_spec(s4);
        let s6 = StateV {
            snowflakes: crate::particles::snow_step_seq(s5.snowflakes, s5.frame as int,
                s5.scroll_speed as int),
            ..s5
        };
        match s6.mode {
            Mode::Delivering | Mode::KrampusWarning => {
                lemma_deliver_health(s6, input);
            },
            Mode::KrampusAttack => {
                lemma_attack_health(s6, input);
            },
            _ => {},
        }
    }
}

/// One frame of delivery play (plain or during the warning) preserves
/// well-formedness.
#[verifier::rlimit(100)]
proof fn lemma_deliver_frame_wf(u: StateV, input: FrameInput)
    requires
        wf(u),
        u.mode == Mode::Delivering || u.mode == Mode::KrampusWarning,
    ensures
        wf(deliver_frame_spec(u, input)),
{
    delivered_monotone(u, input);
    lemma_deliver_health(u, input);
    let a = update_scroll_spec(u);
    let b = move_player_spec(a, input.up, input.down);
    let c = update_chimneys_spec(b);
    if spawn_due(b) {
        lemma_missed_nonneg(crate::chimneys::spawn_chimney_spec(b).chimneys);
        lemma_range_bounds(chimney_from(b.rng_seed as int).1, 120_000, 200_000);
    } else {
        lemma_missed_nonneg(b.chimneys);
    }
    assert(c.naughty_meter <= 100);
    assert(0 <= c.next_chimney_spawn <= 200_000);
    let dd = if input.drop {
        drop_gift_spec(c)
    } else {
        c
    };
    lemma_update_gifts_frame(dd);
    let e = update_gifts_spec(dd);
    assert(e.naughty_meter <= 100);
    assert(e.level >= 1);
    assert(0 <= e.scroll_speed <= 3_500);
    assert(1_500 <= e.base_scroll_speed <= 3_500);
    assert(e.mode == u.mode && e.krampus_active == u.krampus_active && e.krampus_warning
        == u.krampus_warning);
    let f = krampus_trigger_spec(e);
    let g = krampus_warning_spec(f);
    assert(g.mode == Mode::Delivering ==> !g.krampus_active && g.krampus_warning == 0);
    assert(g.mode == Mode::KrampusWarning ==> !g.krampus_active && g.krampus_warning > 0);
    assert(g.mode == Mode::KrampusAttack ==> g.krampus_active && g.krampus_warning == 0);
    lemma_update_powerups_frame(g);
}

/// One frame of the attack preserves well-formedness.
#[verifier::rlimit(100)]
proof fn lemma_attack_frame_wf(u: StateV, input: FrameInput)
    requires
        wf(u),
        u.mode == Mode::KrampusAttack,
    ensures
        wf(attack_frame_spec(u, input)),
{
    lemma_attack_health(u, input);
    let a = update_scroll_spec(u);
    let b = move_player_spec(a, input.up, input.down);
    let c = update_krampus_spec(b);
    if b.krampus_active && b.frame as int % crate::krampus::fire_rate(b.level as int) == 0 {
        crate::krampus::lemma_fire_pattern_frame(StateV {
            krampus_x: c.krampus_x,
            krampus_y: c.krampus_y,
            ..b
        });
    }
    let t = crate::krampus::update_projectiles_spec(c);
    assert(t.chimneys == u.chimneys);
    assert(c.krampus_warning == 0);
    assert(c.mode == Mode::KrampusAttack ==> c.krampus_active);
    assert(c.mode == Mode::Delivering ==> !c.krampus_active);
    assert(c.naughty_meter <= 100);
    assert(t.mode == c.mode || t.mode == Mode::GameOver);
    assert(t.krampus_active == c.krampus_active && t.krampus_warning == 0);
    assert(t.naughty_meter == c.naughty_meter && t.level == u.level && t.scroll_speed
        == u.scroll_speed && t.base_scroll_speed == u.base_scroll_speed
        && t.next_chimney_spawn == u.next_chimney_spawn);
}

/// Well-formedness is an invariant of the whole step: `new` establishes
/// `wf` and every call to `update` preserves it, so verified callers can
/// chain frames for a whole run.
#[verifier::rlimit(100)]
pub proof fn wf_preserved(s: StateV, input: FrameInput)
    requires
        wf(s),
    ensures
        wf(step_spec(s, input)),
{
    let s0 = StateV {
        frame: if s.frame == u64::MAX {
        u64::MAX
        } else {
        (s.frame + 1) as u64
        },
        ..s
    };
    let s1 = if input.pause && (s0.mode == Mode::Delivering || s0.mode == Mode::KrampusAttack
        || s0.mode == Mode::Paused) {
        crate::step::toggle_pause_spec(s0)
    } else {
        s0
    };
    assert(wf(s1));
    if s1.mode != Mode::Paused {
        let s2 = crate::effects::effects_tick_spec(s1);
        let s3 = StateV { particles: crate::particles::particles_step_seq(s2.particles), ..s2 };
        let s4 = crate::effects::fade_tick_spec(s3);
        let s5 = combo_tick_spec(s4);
        let s6 = StateV {
            snowflakes: crate::particles::snow_step_seq(s5.snowflakes, s5.frame as int,
                s5.scroll_speed as int),
            ..s5
        };
        assert(wf(s6));
        match s6.mode {
            Mode::Delivering | Mode::KrampusWarning => {
                lemma_deliver_frame_wf(s6, input);
            },
            Mode::KrampusAttack => {
                lemma_attack_frame_wf(s6, input);
            },
            Mode::Title => {
                if input.confirm {
                    assert(wf(crate::step::start_game_spec(s6)));
                }
            },
            Mode::GameOver => {
                if input.confirm {
                    assert(wf(crate::step::reset_game_spec(s6)));
                }
            },
            Mode::Paused => {},
        }
    }
}

/// The neglect scenario's trigger, in general: from any well-formed
/// delivering state with no gifts in flight, on the frame where the
/// naughty meter stands at the forcing threshold of 80 — or the dormant
/// countdown runs out — one step (with no drop and no pause) opens the
/// warning: the mode flips and the 120-frame countdown is already one
/// frame in.
#[verifier::rlimit(100)]
pub proof fn neglect_triggers_warning(s: StateV, input: FrameInput)
    requires
        wf(s),
        s.mode == Mode::Delivering,
        s.naughty_meter >= 80 || s.krampus_attack_timer <= 1,
        s.gifts.len() == 0,
        !input.drop,
        !input.pause,
    ensures
        step_spec(s, input).mode == Mode::KrampusWarning,
        step_spec(s, input).krampus_warning == 119,
{
    let s0 = StateV {
        frame: if s.frame == u64::MAX {
        u64::MAX
        } else {
        (s.frame + 1) as u64
        },
        ..s
    };
    let s2 = crate::effects::effects_tick_spec(s0);
    let s3 = StateV { particles: crate::particles::particles_step_seq(s2.particles), ..s2 };
    let s4 = crate::effects::fade_tick_spec(s3);
    let s5 = combo_tick_spec(s4);
    let s6 = StateV {
        snowflakes: crate::particles::snow_step_seq(s5.snowflakes, s5.frame as int,
            s5.scroll_speed as int),
        ..s5
    };
    let a = update_scroll_spec(s6);
    let b = move_player_spec(a, input.up, input.down);
    let c = update_chimneys_spec(b);
    // The chimney pass can only raise the meter, never lower it.
    if spawn_due(b) {
        lemma_missed_nonneg(crate::chimneys::spawn_chimney_spec(b).chimneys);
    } else {
        lemma_missed_nonneg(b.chimneys);
    }
    assert(c.naughty_meter >= s.naughty_meter);
    // With no gifts in flight and no drop, the gift pass changes nothing
    // the trigger reads.
    lemma_update_gifts_frame(c);
    let e = update_gifts_spec(c);
    assert(gift_pass(c.gifts, c.chimneys, c.scroll_speed as int, c.level as int, 0).made == 0);
    assert(e.naughty_meter == c.naughty_meter);
    assert(e.krampus_attack_timer == s.krampus_attack_timer);
    assert(!e.krampus_active && e.krampus_warning == 0);
    let f = krampus_trigger_spec(e);
    assert(f.mode == Mode::KrampusWarning && f.krampus_warning == 120);
    let g = krampus_warning_spec(f);
    assert(g.mode == Mode::KrampusWarning && g.krampus_warning == 119);
    lemma_update_powerups_frame(g);
}

/// Monotonic delivery: over one frame of delivery play (plain or during
/// the warning), every surviving chimney descends from the pool as it
/// stood after this frame's spawn, at one fixed offset `d` — shifted left
/// by the scroll with height and style intact — and its `delivered` flag
/// only ever goes from false to true, never back. Since spawns append
/// fresh chimneys undelivered and removal is final, a chimney's flag
/// changes at most once in its lifetime. The surviving pool stays sorted
/// and well-placed.
#[verifier::rlimit(100)]
pub proof fn delivered_monotone(s: StateV, input: FrameInput)
    requires
        wf(s),
    ensures
        ({
            let t = deliver_frame_spec(s, input);
            let base = if spawn_due(s) {
                s.chimneys.push(chimney_from(s.rng_seed as int).0)
            } else {
                s.chimneys
            };
            let d = base.len() - t.chimneys.len();
            &&& t.chimneys.len() <= base.len()
            &&& forall|j: int| 0 <= j < t.chimneys.len() ==> ((#[trigger] t.chimneys[j]).x as int
                == base[j + d].x - s.scroll_speed && t.chimneys[j].y == base[j + d].y
                && t.chimneys[j].style == base[j + d].style && (base[j + d].delivered
                ==> t.chimneys[j].delivered))
            &&& chimneys_ordered(t.chimneys)
            &&& forall|j: int| 0 <= j < t.chimneys.len() ==> chimney_ok(#[trigger] t.chimneys[j])
        }),
{
    let a = update_scroll_spec(s);
    let b = move_player_spec(a, input.up, input.down);
    assert(spawn_due(b) == spawn_due(s));
    let base = if spawn_due(s) {
        s.chimneys.push(chimney_from(s.rng_seed as int).0)
    } else {
        s.chimneys
    };
    let c = update_chimneys_spec(b);

    // The pool after this frame's spawn is still sorted and well-placed.
    if spawn_due(s) {
        lemma_chimney_from_ok(s.rng_seed as int);
        assert(forall|i: int| 0 <= i < s.chimneys.len() ==> (#[trigger] s.chimneys[i]).x
            < 424_000);
        assert(chimneys_ordered(base));
        assert(forall|i: int| 0 <= i < base.len() ==> chimney_ok(#[trigger] base[i]));
    }
    let kept = chimneys_kept(base);
    lemma_kept_suffix(base);
    lemma_kept_on_screen(base);
    let d = base.len() - kept.len();
    assert(c.chimneys =~= chimneys_moved(kept, s.scroll_speed as int));
    assert forall|j: int| 0 <= j < c.chimneys.len() implies ((#[trigger] c.chimneys[j]).x as int
        == base[j + d].x - s.scroll_speed && c.chimneys[j].y == base[j + d].y
        && c.chimneys[j].style == base[j + d].style && c.chimneys[j].delivered == base[j
        + d].delivered && c.chimneys[j].x >= CHIMNEY_GONE_X - 3_500) by {
        assert(kept[j] == base[j + d]);
        assert(chimney_ok(base[j + d]));
        assert(c.chimneys[j] == chimney_move(kept[j], s.scroll_speed as int));
    }

    let dd = if input.drop {
        drop_gift_spec(c)
    } else {
        c
    };
    assert(dd.chimneys == c.chimneys);
    let e = update_gifts_spec(dd);
    lemma_update_gifts_frame(dd);
    lemma_gift_pass_chimneys(dd.gifts, dd.chimneys, dd.scroll_speed as int, dd.level as int,
        dd.gifts.len() as int);
    let f = krampus_trigger_spec(e);
    let g = krampus_warning_spec(f);
    assert(g.chimneys == e.chimneys);
    lemma_update_powerups_frame(g);
    let h = update_powerups_spec(g);
    let t = deliver_frame_spec(s, input);
    assert(t.chimneys == e.chimneys);
}

} // verus!
