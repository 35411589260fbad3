//! End-to-end and scenario tests for the simulation core.

use santa_delivery::state::GameState;
use santa_delivery::types::{Mode, MusicTrack, AudioCue, FrameInput, Chimney, FallingGift,
    Projectile, PowerUp, PowerKind, TrapPoint, HEALTH_CAP};
use santa_delivery::types::mode_track;
use santa_delivery::geom::{isqrt, sin_milli, sat_add, sat_sub, mul_div};
use santa_delivery::step::stepped_on_trap;
use santa_delivery::persist::{encode_high_score, decode_high_score};

fn no_input() -> FrameInput {
    FrameInput::default()
}

fn fresh(seed: u32) -> GameState {
    let mut g = GameState::new();
    g.rng_seed = seed;
    g.start_game();
    g.take_cues();
    g
}

#[test]
fn new_defaults() {
    let g = GameState::new();
    assert_eq!(g.mode, Mode::Title);
    assert_eq!(g.health, 3);
    assert_eq!(g.level, 1);
    assert_eq!(g.score, 0);
    assert_eq!(g.high_score, 0);
    assert_eq!(g.scroll_speed, 1_500);
    assert_eq!(g.snowflakes.len(), 50);
    assert!(g.first_play);
}

#[test]
fn rng_matches_the_linear_congruential_sequence() {
    let mut g = GameState::new();
    g.rng_seed = 1;
    assert_eq!(g.random(), 16838);
    assert_eq!(g.rng_seed, 1103527590);
    assert_eq!(g.random(), 5758);
    assert_eq!(g.rng_seed, 2524885223);
    assert_eq!(g.random(), 10113);
}

#[test]
fn ranged_draws_stay_in_range() {
    let mut g = GameState::new();
    g.rng_seed = 99;
    for _ in 0..200 {
        let v = g.random_range_milli(120_000, 200_000);
        assert!(120_000 <= v && v < 200_000);
    }
}

#[test]
fn determinism_over_a_long_scripted_run() {
    let mut a = fresh(777);
    let mut b = fresh(777);
    for frame in 0u32..1000 {
        let input = FrameInput {
            up: frame % 7 < 3,
            down: frame % 11 == 0,
            drop: frame % 40 == 0,
            confirm: false,
            pause: frame % 321 == 0,
        };
        a.update(input);
        b.update(input);
    }
    assert!(a == b);
}

#[test]
fn title_confirm_starts_a_run() {
    let mut g = GameState::new();
    g.update(FrameInput { confirm: true, ..FrameInput::default() });
    assert_eq!(g.mode, Mode::Delivering);
    assert!(g.take_cues().contains(&AudioCue::Start));
}

#[test]
fn pause_freezes_everything_but_the_frame_counter() {
    let mut g = fresh(5);
    for _ in 0..10 {
        g.update(no_input());
    }
    g.update(FrameInput { pause: true, ..FrameInput::default() });
    assert_eq!(g.mode, Mode::Paused);
    let scroll_x = g.scroll_x;
    let seed = g.rng_seed;
    let player_y = g.player_y;
    let chimneys = g.chimneys.clone();
    let frame = g.frame;
    for _ in 0..30 {
        g.update(no_input());
    }
    assert_eq!(g.frame, frame + 30);
    assert_eq!(g.scroll_x, scroll_x);
    assert_eq!(g.rng_seed, seed);
    assert_eq!(g.player_y, player_y);
    assert_eq!(g.chimneys, chimneys);
    g.update(FrameInput { pause: true, ..FrameInput::default() });
    assert_eq!(g.mode, Mode::Delivering);
}

#[test]
fn first_frame_spawns_a_chimney_in_the_roof_band() {
    let mut g = fresh(42);
    g.update(no_input());
    assert_eq!(g.chimneys.len(), 1);
    let c = &g.chimneys[0];
    assert_eq!(c.x, 424_000 - 1_500);
    assert!(138_480 <= c.y && c.y < 158_480);
    assert!(c.style <= 2);
    assert!(!c.delivered);
    assert!(120_000 <= g.next_chimney_spawn && g.next_chimney_spawn < 200_000);
}

#[test]
fn gift_on_the_chimney_mouth_delivers_at_once() {
    let mut g = fresh(1);
    g.chimneys.push(Chimney { x: 100_450, y: 149_000, delivered: false, style: 0 });
    // After one frame of motion the gift sits exactly on the chimney.
    g.gifts.push(FallingGift {
        x: 100_450 + 450,
        y: 148_000,
        vel_y: 1_000,
        target_chimney: Some(0),
        active: true,
    });
    let score0 = g.score;
    g.update_gifts();
    assert!(g.chimneys[0].delivered);
    assert_eq!(g.deliveries, 1);
    // Exactly the flat per-delivery score; a streak of one earns no bonus.
    assert_eq!(g.score, score0 + 100 + g.level * 10);
    assert_eq!(g.combo_count, 1);
    assert_eq!(g.combo_timer, 180);
    assert!(g.gifts.is_empty());
    assert!(g.take_cues().contains(&AudioCue::Delivery));
}

#[test]
fn delivered_flag_is_monotonic_across_frames() {
    let mut g = fresh(9);
    g.chimneys.push(Chimney { x: 100_450, y: 149_000, delivered: false, style: 1 });
    g.gifts.push(FallingGift {
        x: 100_900,
        y: 148_000,
        vel_y: 1_000,
        target_chimney: None,
        active: true,
    });
    g.update_gifts();
    assert!(g.chimneys[0].delivered);
    let y = g.chimneys[0].y;
    for _ in 0..50 {
        g.update(no_input());
        for c in &g.chimneys {
            if c.y == y {
                assert!(c.delivered);
            }
        }
    }
}

#[test]
fn combo_steps_award_the_bonus_table() {
    let mut g = fresh(2);
    g.add_combo();
    assert_eq!(g.score, 0);
    g.add_combo();
    assert_eq!(g.score, 50);
    g.add_combo();
    assert_eq!(g.score, 150);
    assert_eq!(g.max_combo, 3);
    g.add_combo();
    assert_eq!(g.score, 350);
    g.add_combo();
    assert_eq!(g.score, 650);
    for _ in 0..5 {
        g.add_combo();
    }
    assert_eq!(g.combo_count, 10);
    assert_eq!(g.score, 650 + 4 * 300 + 500);
}

#[test]
fn combo_decays_to_zero_when_the_window_closes() {
    let mut g = fresh(3);
    g.add_combo();
    assert_eq!(g.combo_count, 1);
    assert_eq!(g.combo_timer, 180);
    for _ in 0..179 {
        g.update_combo();
    }
    assert_eq!(g.combo_timer, 1);
    assert_eq!(g.combo_count, 1);
    // The reset lands on the very frame the window reaches zero.
    g.update_combo();
    assert_eq!(g.combo_timer, 0);
    assert_eq!(g.combo_count, 0);
}

#[test]
fn a_gift_out_the_left_edge_breaks_the_streak_too() {
    let mut g = fresh(21);
    g.add_combo();
    g.add_combo();
    assert_eq!(g.combo_count, 2);
    // Drifts past the left removal line this frame, well above the bottom.
    g.gifts.push(FallingGift {
        x: -19_600,
        y: 100_000,
        vel_y: 1_000,
        target_chimney: None,
        active: true,
    });
    g.update_gifts();
    assert!(g.gifts.is_empty());
    assert_eq!(g.combo_count, 0);
    assert_eq!(g.combo_timer, 0);
}

#[test]
fn a_delivery_past_the_left_line_is_not_a_miss() {
    let mut g = fresh(22);
    g.add_combo();
    g.add_combo();
    assert_eq!(g.combo_count, 2);
    // The chimney is almost off screen; the gift crosses the left line on
    // the same frame it lands in the hit box. A hit, not a miss.
    g.chimneys.push(Chimney { x: -22_000, y: 150_000, delivered: false, style: 0 });
    g.gifts.push(FallingGift {
        x: -20_550,
        y: 149_000,
        vel_y: 1_000,
        target_chimney: None,
        active: true,
    });
    g.update_gifts();
    assert!(g.chimneys[0].delivered);
    assert_eq!(g.combo_count, 3);
    assert_eq!(g.deliveries, 1);
}

#[test]
fn a_missed_gift_breaks_the_streak_immediately() {
    let mut g = fresh(4);
    g.add_combo();
    g.add_combo();
    assert_eq!(g.combo_count, 2);
    g.gifts.push(FallingGift {
        x: 60_000,
        y: 236_000,
        vel_y: 1_000,
        target_chimney: None,
        active: true,
    });
    g.update_gifts();
    assert_eq!(g.combo_count, 0);
    assert_eq!(g.combo_timer, 0);
}

#[test]
fn health_pickup_cannot_exceed_the_cap() {
    let mut g = fresh(6);
    g.health = HEALTH_CAP;
    g.powerup_spawn_timer = 10_000;
    g.powerups.push(PowerUp {
        x: 60_000,
        y: g.player_y,
        kind: PowerKind::Health,
        active: true,
        bob_phase: 0,
    });
    g.update_powerups();
    assert_eq!(g.health, HEALTH_CAP);
    assert!(g.powerups.is_empty());
}

#[test]
fn star_pickup_opens_the_star_power_window() {
    let mut g = fresh(7);
    g.powerup_spawn_timer = 10_000;
    g.powerups.push(PowerUp {
        x: 60_000,
        y: g.player_y,
        kind: PowerKind::Invincible,
        active: true,
        bob_phase: 0,
    });
    g.update_powerups();
    assert_eq!(g.star_power_timer, 300);
    assert!(g.take_cues().contains(&AudioCue::Survive));
}

#[test]
fn grace_windows_suppress_projectile_hits() {
    let mut g = fresh(8);
    g.star_power_timer = 10;
    g.projectiles.push(Projectile { x: 60_000, y: g.player_y, vel_x: 0, vel_y: 0, active: true });
    g.update_projectiles();
    assert_eq!(g.health, 3);
    assert!(g.take_cues().is_empty());

    g.star_power_timer = 0;
    g.invincible_timer = 5;
    g.update_projectiles();
    assert_eq!(g.health, 3);
}

#[test]
fn an_unshielded_hit_costs_one_health_and_opens_a_grace_window() {
    let mut g = fresh(10);
    g.projectiles.push(Projectile { x: 60_000, y: g.player_y, vel_x: 0, vel_y: 0, active: true });
    g.update_projectiles();
    assert_eq!(g.health, 2);
    assert_eq!(g.invincible_timer, 90);
    assert!(g.projectiles.is_empty());
    assert!(g.take_cues().contains(&AudioCue::Hit));
}

#[test]
fn health_zero_ends_the_run_on_the_same_frame() {
    let mut g = fresh(11);
    g.health = 1;
    g.projectiles.push(Projectile { x: 60_000, y: g.player_y, vel_x: 0, vel_y: 0, active: true });
    g.update_projectiles();
    assert_eq!(g.health, 0);
    assert_eq!(g.mode, Mode::GameOver);
    assert_eq!(g.invincible_timer, 0);
    assert!(g.take_cues().contains(&AudioCue::GameOver));
}

#[test]
fn restart_keeps_the_high_score_and_burns_first_play() {
    let mut g = fresh(12);
    g.score = 4321;
    g.health = 1;
    g.projectiles.push(Projectile { x: 60_000, y: g.player_y, vel_x: 0, vel_y: 0, active: true });
    g.update_projectiles();
    assert_eq!(g.mode, Mode::GameOver);
    g.update(FrameInput { confirm: true, ..FrameInput::default() });
    assert_eq!(g.mode, Mode::Delivering);
    assert_eq!(g.high_score, 4321);
    assert_eq!(g.score, 0);
    assert_eq!(g.health, 3);
    assert!(!g.first_play);
}

#[test]
fn neglect_fills_the_naughty_meter_and_summons_the_warning() {
    let mut g = fresh(12345);
    let mut saw_threshold = false;
    let mut saw_warning = false;
    for _ in 0..1500 {
        let was_delivering = g.mode == Mode::Delivering;
        let naughty_before = g.naughty_meter;
        g.update(no_input());
        if g.naughty_meter >= 80 {
            saw_threshold = true;
        }
        if g.mode == Mode::KrampusWarning {
            saw_warning = true;
        }
        // The trigger never lags: the frame that carries the meter to the
        // threshold opens the warning within that same frame, so play
        // never continues with the meter at or past 80.
        assert!(!(g.mode == Mode::Delivering && g.naughty_meter >= 80));
        if was_delivering && naughty_before < 80 && g.naughty_meter >= 80 {
            assert_eq!(g.mode, Mode::KrampusWarning);
        }
    }
    assert!(saw_threshold);
    assert!(saw_warning);
}

#[test]
fn warning_counts_down_into_the_attack_and_survival_pays_out() {
    let mut g = fresh(13);
    g.naughty_meter = 80;
    g.update(no_input());
    assert_eq!(g.mode, Mode::KrampusWarning);
    assert_eq!(g.krampus_warning, 119);
    assert!(g.take_cues().contains(&AudioCue::Warning));
    for _ in 0..119 {
        g.update(no_input());
    }
    assert_eq!(g.mode, Mode::KrampusAttack);
    assert!(g.krampus_active);
    assert_eq!(g.krampus_duration, 360);
    assert!(g.take_cues().contains(&AudioCue::Krampus));

    // Shielded, the attack is survived deterministically.
    g.star_power_timer = 100_000;
    let score0 = g.score;
    for _ in 0..360 {
        g.update(no_input());
    }
    assert_eq!(g.mode, Mode::Delivering);
    assert!(!g.krampus_active);
    assert_eq!(g.naughty_meter, 0);
    assert_eq!(g.score, score0 + 200 + g.level * 50);
    assert_eq!(g.krampus_attack_timer, 560);
    assert!(g.take_cues().contains(&AudioCue::Survive));
}

#[test]
fn volley_patterns_match_the_clock() {
    // Pattern 1 at frame 0 for level 1: the three-way aimed spread.
    let mut g = fresh(14);
    g.mode = Mode::KrampusAttack;
    g.krampus_active = true;
    g.krampus_duration = 10_000;
    g.krampus_x = 300_000;
    g.krampus_y = 108_000;
    g.frame = 0;
    g.update_krampus();
    assert_eq!(g.projectiles.len(), 3);

    // Pattern 2 at frame 540 for level 1: the screen-relative wave.
    let mut h = fresh(15);
    h.mode = Mode::KrampusAttack;
    h.krampus_active = true;
    h.krampus_duration = 10_000;
    h.krampus_x = 300_000;
    h.krampus_y = 108_000;
    h.frame = 540;
    h.update_krampus();
    assert_eq!(h.projectiles.len(), 3);
    let speeds: Vec<(i32, i32)> = h.projectiles.iter().map(|p| (p.vel_x, p.vel_y)).collect();
    assert_eq!(speeds, vec![(-2_800, -1_500), (-2_800, 0), (-2_800, 1_500)]);
}

#[test]
fn drop_assist_prefers_the_first_nearest_chimney() {
    let mut g = fresh(16);
    g.chimneys.push(Chimney { x: 50_000, y: 150_000, delivered: false, style: 0 });
    g.chimneys.push(Chimney { x: 70_000, y: 150_000, delivered: false, style: 0 });
    g.chimneys.push(Chimney { x: 200_000, y: 150_000, delivered: false, style: 0 });
    g.drop_gift();
    assert_eq!(g.gifts.len(), 1);
    // 50 and 70 both sit 10 pixels away; the scan keeps the first.
    assert_eq!(g.gifts[0].target_chimney, Some(0));
    assert_eq!(g.gifts[0].x, 68_000);
    assert!(g.take_cues().contains(&AudioCue::Drop));
}

#[test]
fn drop_assist_ignores_delivered_and_distant_chimneys() {
    let mut g = fresh(17);
    g.chimneys.push(Chimney { x: 65_000, y: 150_000, delivered: true, style: 0 });
    g.chimneys.push(Chimney { x: 300_000, y: 150_000, delivered: false, style: 0 });
    g.drop_gift();
    assert_eq!(g.gifts[0].target_chimney, None);
}

#[test]
fn trap_contact_is_a_plain_radius_check() {
    let traps = vec![TrapPoint { x: 100_000, y: 100_000 }, TrapPoint { x: 200_000, y: 50_000 }];
    assert!(stepped_on_trap(105_000, 96_000, &traps));
    assert!(!stepped_on_trap(120_000, 100_000, &traps));
    assert!(!stepped_on_trap(0, 0, &Vec::new()));
}

#[test]
fn high_score_bytes_round_trip() {
    for v in [0u32, 1, 255, 256, 123_456_789, u32::MAX] {
        let bytes = encode_high_score(v);
        assert_eq!(bytes.len(), 4);
        assert_eq!(decode_high_score(&bytes), Some(v));
    }
    assert_eq!(encode_high_score(0x01020304), vec![4, 3, 2, 1]);
    assert_eq!(decode_high_score(&vec![1, 2, 3]), None);
    assert_eq!(decode_high_score(&Vec::new()), None);
}

#[test]
fn music_follows_the_mode() {
    assert_eq!(mode_track(Mode::Title), Some(MusicTrack::Title));
    assert_eq!(mode_track(Mode::Delivering), Some(MusicTrack::Delivering));
    assert_eq!(mode_track(Mode::KrampusWarning), Some(MusicTrack::Delivering));
    assert_eq!(mode_track(Mode::KrampusAttack), Some(MusicTrack::Krampus));
    assert_eq!(mode_track(Mode::GameOver), Some(MusicTrack::GameOver));
    assert_eq!(mode_track(Mode::Paused), None);
}

#[test]
fn fixed_point_helpers_behave_at_the_edges() {
    assert_eq!(isqrt(0), 0);
    assert_eq!(isqrt(15), 3);
    assert_eq!(isqrt(16), 4);
    assert_eq!(isqrt(u128::MAX), u64::MAX);
    assert_eq!(sin_milli(0), 0);
    assert_eq!(sin_milli(16), 1000);
    assert_eq!(sin_milli(32), 0);
    assert_eq!(sin_milli(48), -1000);
    assert_eq!(sin_milli(64), 0);
    assert_eq!(sat_add(i32::MAX, 1), i32::MAX);
    assert_eq!(sat_sub(i32::MIN, 1), i32::MIN);
    assert_eq!(mul_div(-1000, 850, 1000), -850);
    assert_eq!(mul_div(999, 850, 1000), 849);
}

#[test]
fn player_movement_clamps_to_the_playfield() {
    let mut g = fresh(18);
    for _ in 0..200 {
        g.update(FrameInput { up: true, ..FrameInput::default() });
    }
    assert_eq!(g.player_y, 20_000);
    for _ in 0..200 {
        g.update(FrameInput { down: true, ..FrameInput::default() });
    }
    assert_eq!(g.player_y, 186_000);
}

#[test]
fn level_rises_every_fifth_delivery_and_speeds_the_world() {
    let mut g = fresh(19);
    for k in 0..5 {
        g.chimneys.clear();
        g.gifts.clear();
        g.chimneys.push(Chimney { x: 100_450, y: 149_000, delivered: false, style: 0 });
        g.gifts.push(FallingGift {
            x: 100_450 + mul_div(g.scroll_speed, 300, 1000),
            y: 148_000,
            vel_y: 1_000,
            target_chimney: None,
            active: true,
        });
        g.update_gifts();
        assert_eq!(g.deliveries, k + 1);
    }
    assert_eq!(g.level, 2);
    assert_eq!(g.scroll_speed, 1_500 + 200);
}
