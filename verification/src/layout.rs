//! Where the bird is drawn: the window is split into weighted portions above
//! and below the bird, and to its left and right.
use crate::units::{HALF, UNIT};
use crate::world::{State, World};
use vstd::prelude::*;

verus! {

/// The number of portions that a whole side of the window is split into.
pub const SCALE: u16 = 100;

/// The weights of the empty space around the bird.
#[derive(Debug, Clone, Copy, PartialEq, Eq)]
pub struct Portions {
    /// Space above the bird.
    pub top: u16,
    /// Space below the bird.
    pub bottom: u16,
    /// Space to the left of the bird.
    pub left: u16,
    /// Space to the right of the bird.
    pub right: u16,
}

/// The weights of the empty space around the bird, as mathematical integers.
pub ghost struct Spaces {
    /// Space above the bird.
    pub top: int,
    /// Space below the bird.
    pub bottom: int,
    /// Space to the left of the bird.
    pub left: int,
    /// Space to the right of the bird.
    pub right: int,
}

impl View for Portions {
    type V = Spaces;

    open spec fn view(&self) -> Spaces {
        Spaces {
            top: self.top as int,
            bottom: self.bottom as int,
            left: self.left as int,
            right: self.right as int,
        }
    }
}

/// A position held inside the window: no less than 0 and no more than
/// `UNIT`.
pub open spec fn inside(position: int) -> int {
    if position < 0 {
        0
    } else if position > UNIT {
        UNIT as int
    } else {
        position
    }
}

/// The number of portions nearest to the fraction `part / UNIT` of a side,
/// a half rounding up.
pub open spec fn nearest(part: int) -> int {
    (part * SCALE + HALF) / (UNIT as int)
}

/// The number of whole portions in the fraction `part / UNIT` of a side.
pub open spec fn whole(part: int) -> int {
    (part * SCALE) / (UNIT as int)
}

/// `weight`, or 1 where it is 0: a space that never vanishes.
pub open spec fn at_least_one(weight: int) -> int {
    if weight < 1 {
        1
    } else {
        weight
    }
}

/// The space around the bird of world `w`. Above and below, the bird's
/// height and the rest of the window's, each rounded to the nearest portion
/// and never nothing; left and right, the bird's distance from the edge and
/// the rest of the window's width, in whole portions.
pub open spec fn spaces(w: World) -> Spaces {
    Spaces {
        top: at_least_one(nearest(inside(w.bird_y))),
        bottom: at_least_one(nearest(UNIT - inside(w.bird_y))),
        left: whole(inside(w.bird_x)),
        right: whole(UNIT - inside(w.bird_x)),
    }
}

/// Holds `position` inside the window.
fn hold_inside(position: i64) -> (held: u64)
    ensures
        held == inside(position as int),
{
    if position < 0 {
        0
    } else if position > UNIT {
        UNIT as u64
    } else {
        position as u64
    }
}

/// The whole portions in the fraction `part / UNIT` of a side, after `bias`
/// has been added to round.
fn count(part: u64, bias: u64) -> (n: u16)
    requires
        part <= UNIT,
        bias <= HALF,
    ensures
        n == (part * SCALE + bias) / (UNIT as int),
        n <= SCALE,
{
    assert(part * SCALE <= UNIT * SCALE) by (nonlinear_arith)
        requires
            part <= UNIT,
    ;
    let n: u64 = (part * (SCALE as u64) + bias) / (UNIT as u64);
    n as u16
}

/// The space around the bird of `state`, for a window split into [`SCALE`]
/// portions each way.
pub fn portions(state: &State) -> (p: Portions)
    ensures
        p@ == spaces(state@),
{
    let side: u64 = UNIT as u64;
    let y: u64 = hold_inside(state.bird_y);
    let x: u64 = hold_inside(state.bird_x);
    let top: u16 = count(y, HALF as u64);
    let bottom: u16 = count(side - y, HALF as u64);
    Portions {
        top: if top < 1 { 1 } else { top },
        bottom: if bottom < 1 { 1 } else { bottom },
        left: count(x, 0),
        right: count(side - x, 0),
    }
}

/// Neither space above or below the bird vanishes or exceeds the window;
/// together they make up the whole window, give or take the one portion that
/// rounding or the least weight adds; and the spaces left and right make up
/// the whole width, less the one portion that truncation may lose.
pub proof fn spaces_fill_window(w: World)
    ensures
        1 <= spaces(w).top <= SCALE,
        1 <= spaces(w).bottom <= SCALE,
        SCALE <= spaces(w).top + spaces(w).bottom <= SCALE + 1,
        0 <= spaces(w).left <= SCALE,
        0 <= spaces(w).right <= SCALE,
        SCALE - 1 <= spaces(w).left + spaces(w).right <= SCALE,
{
}

} // verus!
