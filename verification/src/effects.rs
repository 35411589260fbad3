//! Feedback-timer decay and screen-fade transitions.
//!
//! These timers are set by gameplay events and consumed only by the
//! renderer; decaying them is the first thing a non-paused frame does.

use vstd::prelude::*;
use crate::geom::dec;
use crate::state::{GameState, StateV};

verus! {

/// One frame of decay for the flash, shake, invincibility and star-power
/// countdowns.
pub open spec fn effects_tick_spec(s: StateV) -> StateV {
    StateV {
        screen_flash: dec(s.screen_flash as int) as u32,
        screen_shake: dec(s.screen_shake as int) as u32,
        invincible_timer: dec(s.invincible_timer as int) as u32,
        star_power_timer: dec(s.star_power_timer as int) as u32,
        ..s
    }
}

/// One frame of the fade transition: direction `1` fades in (alpha falls
/// by 8 to 0), `-1` fades out (alpha rises by 8 to 255), `0` rests.
pub open spec fn fade_tick_spec(s: StateV) -> StateV {
    if s.fade_direction == 1 {
        if s.fade_alpha > 8 {
            StateV { fade_alpha: (s.fade_alpha - 8) as u32, ..s }
        } else {
            StateV { fade_alpha: 0, fade_direction: 0, ..s }
        }
    } else if s.fade_direction == -1 {
        if s.fade_alpha < 247 {
            StateV { fade_alpha: (s.fade_alpha + 8) as u32, ..s }
        } else {
            StateV { fade_alpha: 255, fade_direction: 0, ..s }
        }
    } else {
        s
    }
}

impl GameState {
    /// Decay the per-frame feedback timers and grace windows.
    pub fn tick_effects(&mut self)
        ensures
            final(self)@ == effects_tick_spec(old(self)@),
    {
        if self.screen_flash > 0 {
            self.screen_flash = self.screen_flash - 1;
        }
        if self.screen_shake > 0 {
            self.screen_shake = self.screen_shake - 1;
        }
        if self.invincible_timer > 0 {
            self.invincible_timer = self.invincible_timer - 1;
        }
        if self.star_power_timer > 0 {
            self.star_power_timer = self.star_power_timer - 1;
        }
    }

    /// Advance the fade transition one frame.
    pub fn update_fade(&mut self)
        ensures
            final(self)@ == fade_tick_spec(old(self)@),
    {
        if self.fade_direction == 1 {
            if self.fade_alpha > 8 {
                self.fade_alpha = self.fade_alpha - 8;
            } else {
                self.fade_alpha = 0;
                self.fade_direction = 0;
            }
        } else if self.fade_direction == -1 {
            if self.fade_alpha < 247 {
                self.fade_alpha = self.fade_alpha + 8;
            } else {
                self.fade_alpha = 255;
                self.fade_direction = 0;
            }
        }
    }

    /// Begin fading the screen out (alpha toward 255).
    pub fn start_fade_out(&mut self)
        ensures
            final(self)@ == (StateV { fade_direction: -1i32, ..old(self)@ }),
    {
        self.fade_direction = -1;
    }

    /// Begin fading the screen in from black.
    pub fn start_fade_in(&mut self)
        ensures
            final(self)@ == (StateV { fade_alpha: 255, fade_direction: 1, ..old(self)@ }),
    {
        self.fade_alpha = 255;
        self.fade_direction = 1;
    }
}

} // verus!
