//! The combo and score ledger.
//!
//! Consecutive deliveries build a streak; each one resets a 180-frame
//! window. Letting the window run out, or missing a delivery outright,
//! resets the streak to zero. Streak steps past the first award bonus
//! points from a fixed table.

use vstd::prelude::*;
use crate::geom::{sat_u32, sat_add_u32};
use crate::state::{GameState, StateV};

verus! {

/// Bonus points awarded for reaching a streak of `count` consecutive
/// deliveries: the first delivery of a streak earns no bonus.
pub open spec fn combo_bonus(count: int) -> int {
    if count <= 1 {
        0
    } else if count == 2 {
        50
    } else if count == 3 {
        100
    } else if count == 4 {
        200
    } else if count <= 9 {
        300
    } else {
        500
    }
}

/// Record one successful delivery in the ledger: extend the streak, reopen
/// the 180-frame window, track the best streak and award the table bonus.
pub open spec fn add_combo_spec(s: StateV) -> StateV {
    let c = sat_u32(s.combo_count + 1);
    StateV {
        combo_count: c as u32,
        combo_timer: 180,
        max_combo: if c > s.max_combo { c as u32 } else { s.max_combo },
        score: sat_u32(s.score + combo_bonus(c)) as u32,
        ..s
    }
}

/// One frame of streak decay: the window counts down, and a nonzero
/// streak silently resets on the very frame the window reaches zero.
pub open spec fn combo_tick_spec(s: StateV) -> StateV {
    if s.combo_timer > 1 {
        StateV { combo_timer: (s.combo_timer - 1) as u32, ..s }
    } else if s.combo_timer == 1 {
        StateV { combo_timer: 0, combo_count: 0, ..s }
    } else if s.combo_count > 0 {
        StateV { combo_count: 0, ..s }
    } else {
        s
    }
}

/// A miss kills the streak at once, window or no window.
pub open spec fn break_combo_spec(s: StateV) -> StateV {
    StateV { combo_count: 0, combo_timer: 0, ..s }
}

impl GameState {
    /// Record one delivery in the combo ledger.
    pub fn add_combo(&mut self)
        ensures
            final(self)@ == add_combo_spec(old(self)@),
    {
        self.combo_count = sat_add_u32(self.combo_count, 1);
        self.combo_timer = 180;
        if self.combo_count > self.max_combo {
            self.max_combo = self.combo_count;
        }
        let bonus: u32 = if self.combo_count <= 1 {
            0
        } else if self.combo_count == 2 {
            50
        } else if self.combo_count == 3 {
            100
        } else if self.combo_count == 4 {
            200
        } else if self.combo_count <= 9 {
            300
        } else {
            500
        };
        self.score = sat_add_u32(self.score, bonus);
    }

    /// Advance the streak window one frame; the streak dies with it.
    pub fn update_combo(&mut self)
        ensures
            final(self)@ == combo_tick_spec(old(self)@),
    {
        if self.combo_timer > 1 {
            self.combo_timer = self.combo_timer - 1;
        } else if self.combo_timer == 1 {
            self.combo_timer = 0;
            self.combo_count = 0;
        } else if self.combo_count > 0 {
            self.combo_count = 0;
        }
    }

    /// Reset the streak immediately (a gift was missed).
    pub fn break_combo(&mut self)
        ensures
            final(self)@ == break_combo_spec(old(self)@),
    {
        self.combo_count = 0;
        self.combo_timer = 0;
    }
}

} // verus!
