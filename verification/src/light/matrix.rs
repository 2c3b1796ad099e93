//! Model of the single-row light matrix: the level driven onto each
//! column pin, and which column the animation currently plays on.

use vstd::prelude::*;

verus! {

use vstd::pervasive::VecAdditionalExecFns;
use crate::button::ButtonDirection;
use crate::light::operator::LedOperator;

/// Number of column pins.
pub const NUM_COLS: usize = 5;

/// Where the active column moves on a shift: one step in the direction,
/// wrapping around at either end.
pub open spec fn spec_shift_col(active: int, direction: ButtonDirection) -> int {
    match direction {
        ButtonDirection::Left => if active == 0 {
            4
        } else {
            active - 1
        },
        ButtonDirection::Right => if active == 4 {
            0
        } else {
            active + 1
        },
    }
}

/// The matrix: one driven level per column, and the active column.
pub struct LedMatrix {
    pub col: Vec<bool>,
    pub active_col: usize,
}

impl LedMatrix {
    pub open spec fn wf(&self) -> bool {
        self.col.len() == NUM_COLS && self.active_col < NUM_COLS
    }

    /// All columns start driven high (lights off) with the leftmost
    /// column active.
    pub fn new() -> (m: LedMatrix)
        ensures
            m.wf(),
            m.active_col == 0,
            m.col@ == seq![true, true, true, true, true],
    {
        let mut col: Vec<bool> = Vec::new();
        col.push(true);
        col.push(true);
        col.push(true);
        col.push(true);
        col.push(true);
        proof {
            assert(col@ =~= seq![true, true, true, true, true]);
        }
        LedMatrix { col, active_col: 0 }
    }
}

impl LedOperator for LedMatrix {
    open spec fn op_inv(&self) -> bool {
        self.wf()
    }

    /// A toggle flips the active column's level.
    open spec fn toggle_ens(&self, post: Self) -> bool {
        &&& post.active_col == self.active_col
        &&& post.col@ == self.col@.update(self.active_col as int, !self.col@[self.active_col as int])
    }

    /// A shift drives the old active column high (its light off), moves
    /// the active column one step with wraparound, and drives the new
    /// active column high as well.
    open spec fn shift_ens(&self, direction: ButtonDirection, post: Self) -> bool {
        &&& post.active_col == spec_shift_col(self.active_col as int, direction)
        &&& post.col@ == self.col@.update(self.active_col as int, true).update(
            spec_shift_col(self.active_col as int, direction),
            true,
        )
    }

    fn toggle(&mut self) {
        let level = self.col[self.active_col];
        self.col.set(self.active_col, !level);
    }

    fn shift(&mut self, direction: ButtonDirection) {
        self.col.set(self.active_col, true);
        self.active_col = match direction {
            ButtonDirection::Left => if self.active_col == 0 {
                NUM_COLS - 1
            } else {
                self.active_col - 1
            },
            ButtonDirection::Right => if self.active_col == NUM_COLS - 1 {
                0
            } else {
                self.active_col + 1
            },
        };
        self.col.set(self.active_col, true);
    }
}

} // verus!
