//! Progressive difficulty.
//!
//! The level rises every fifth cumulative delivery; the scroll speed is
//! re-derived from the level and capped, and a level-up fires celebratory
//! feedback.

use vstd::prelude::*;
use crate::geom::{sat_u32, sat_add_u32};
use crate::types::{AudioCue, COLOR_GOLD, COLOR_STAR};
use crate::state::{GameState, StateV};
use crate::particles::{spawn_particles_spec, level_colors};

verus! {

/// Scroll speed for a level: the base plus 0.2 pixels per level past the
/// first, capped at 3.5 pixels per frame.
pub open spec fn scroll_for(base: int, level: int) -> int {
    let raw = base + (level - 1) * 200;
    if raw > 3_500 {
        3_500
    } else {
        raw
    }
}

/// Re-derive the scroll speed from the current level.
pub open spec fn update_difficulty_spec(s: StateV) -> StateV {
    StateV { scroll_speed: scroll_for(s.base_scroll_speed as int, s.level as int) as i32, ..s }
}

/// A level-up: bump the level, re-derive the scroll speed, flash gold,
/// jingle, and burst 25 particles at the screen center.
pub open spec fn level_up_spec(s: StateV) -> StateV {
    let s1 = update_difficulty_spec(StateV { level: sat_u32(s.level + 1) as u32, ..s });
    let s2 = StateV {
        screen_flash: 15,
        flash_color: COLOR_GOLD,
        cues: s1.cues.push(AudioCue::Survive),
        ..s1
    };
    spawn_particles_spec(s2, 192_000, 108_000, 25, level_colors())
}

impl GameState {
    /// Re-derive the scroll speed from the current level, capped.
    pub fn update_difficulty(&mut self)
        requires
            old(self).level >= 1,
            0 <= old(self).base_scroll_speed <= 3_500,
        ensures
            final(self)@ == update_difficulty_spec(old(self)@),
    {
        let inc: u64 = (self.level as u64 - 1) * 200;
        let raw: u64 = self.base_scroll_speed as u64 + inc;
        self.scroll_speed = if raw > 3_500 {
            3_500
        } else {
            raw as i32
        };
    }

    /// Advance to the next level with its feedback burst.
    pub fn level_up(&mut self)
        requires
            old(self).level >= 1,
            0 <= old(self).base_scroll_speed <= 3_500,
        ensures
            final(self)@ == level_up_spec(old(self)@),
    {
        self.level = sat_add_u32(self.level, 1);
        self.update_difficulty();
        self.screen_flash = 15;
        self.flash_color = COLOR_GOLD;
        self.cues.push(AudioCue::Survive);
        let colors: Vec<u32> = vec![COLOR_GOLD, 0xffffffff, 0xff4444ff];
        proof {
            assert(colors@ =~= level_colors());
        }
        self.spawn_particles(192_000, 108_000, 25, &colors);
    }
}

} // verus!
