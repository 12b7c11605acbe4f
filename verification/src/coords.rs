use vstd::prelude::*;

use crate::directions::Direction;

verus! {

/// A two-axis character-cell position: `x` is the column, `y` is the row.
/// The origin `(0, 0)` is the top-left corner; `y` grows downward.
///
/// An immutable value type with bounds-checked step operations: a step that
/// would leave `[0, u16::MAX]`, or a caller-supplied half-open range, is
/// rejected with `None`.
#[derive(Clone, Copy, PartialEq, Eq, Structural, Debug)]
pub struct Coordinates {
    pub x: u16,
    pub y: u16,
}

impl Coordinates {
    pub fn new(x: u16, y: u16) -> (r: Self)
        ensures
            r == (Coordinates { x, y }),
    {
        Self { x, y }
    }

    pub fn origin() -> (r: Self)
        ensures
            r == (Coordinates { x: 0u16, y: 0u16 }),
    {
        Self::new(0, 0)
    }

    pub fn x(&self) -> (r: u16)
        ensures
            r == self.x,
    {
        self.x
    }

    pub fn y(&self) -> (r: u16)
        ensures
            r == self.y,
    {
        self.y
    }

    /// One row toward the top, if the row is not already 0.
    pub fn try_up(&self) -> (r: Option<Self>)
        ensures
            r == self.try_up_by_spec(1),
    {
        self.try_up_by(1)
    }

    /// `steps` rows toward the top, if that does not pass row 0.
    pub open spec fn try_up_by_spec(&self, steps: u16) -> Option<Self> {
        if steps <= self.y {
            Some(Coordinates { x: self.x, y: (self.y - steps) as u16 })
        } else {
            None
        }
    }

    pub fn try_up_by(&self, steps: u16) -> (r: Option<Self>)
        ensures
            r == self.try_up_by_spec(steps),
    {
        match self.y.checked_sub(steps) {
            Some(y) => Some(Self { x: self.x, y }),
            None => None,
        }
    }

    /// One row toward the bottom, if the row is not already `u16::MAX`.
    pub fn try_down(&self) -> (r: Option<Self>)
        ensures
            r == self.try_down_by_spec(1),
    {
        self.try_down_by(1)
    }

    /// `steps` rows toward the bottom, if the result still fits in `u16`.
    pub open spec fn try_down_by_spec(&self, steps: u16) -> Option<Self> {
        if self.y + steps <= u16::MAX {
            Some(Coordinates { x: self.x, y: (self.y + steps) as u16 })
        } else {
            None
        }
    }

    pub fn try_down_by(&self, steps: u16) -> (r: Option<Self>)
        ensures
            r == self.try_down_by_spec(steps),
    {
        match self.y.checked_add(steps) {
            Some(y) => Some(Self { x: self.x, y }),
            None => None,
        }
    }

    /// One column toward the left, if the column is not already 0.
    pub fn try_left(&self) -> (r: Option<Self>)
        ensures
            r == self.try_left_by_spec(1),
    {
        self.try_left_by(1)
    }

    /// `steps` columns toward the left, if that does not pass column 0.
    pub open spec fn try_left_by_spec(&self, steps: u16) -> Option<Self> {
        if steps <= self.x {
            Some(Coordinates { x: (self.x - steps) as u16, y: self.y })
        } else {
            None
        }
    }

    pub fn try_left_by(&self, steps: u16) -> (r: Option<Self>)
        ensures
            r == self.try_left_by_spec(steps),
    {
        match self.x.checked_sub(steps) {
            Some(x) => Some(Self { x, y: self.y }),
            None => None,
        }
    }

    /// One column toward the right, if the column is not already `u16::MAX`.
    pub fn try_right(&self) -> (r: Option<Self>)
        ensures
            r == self.try_right_by_spec(1),
    {
        self.try_right_by(1)
    }

    /// `steps` columns toward the right, if the result still fits in `u16`.
    pub open spec fn try_right_by_spec(&self, steps: u16) -> Option<Self> {
        if self.x + steps <= u16::MAX {
            Some(Coordinates { x: (self.x + steps) as u16, y: self.y })
        } else {
            None
        }
    }

    pub fn try_right_by(&self, steps: u16) -> (r: Option<Self>)
        ensures
            r == self.try_right_by_spec(steps),
    {
        match self.x.checked_add(steps) {
            Some(x) => Some(Self { x, y: self.y }),
            None => None,
        }
    }

    /// `steps` rows toward the top, rejected unless the new row stays inside
    /// `[0, limit)`.
    pub open spec fn try_bounded_up_by_spec(&self, steps: u16, limit: u16) -> Option<Self> {
        match self.try_up_by_spec(steps) {
            Some(c) => if c.y < limit { Some(c) } else { None },
            None => None,
        }
    }

    pub fn try_bounded_up_by(&self, steps: u16, limit: u16) -> (r: Option<Self>)
        ensures
            r == self.try_bounded_up_by_spec(steps, limit),
    {
        match self.try_up_by(steps) {
            Some(c) => if c.y < limit { Some(c) } else { None },
            None => None,
        }
    }

    /// `steps` rows toward the bottom, rejected unless the new row stays
    /// inside `[0, limit)`.
    pub open spec fn try_bounded_down_by_spec(&self, steps: u16, limit: u16) -> Option<Self> {
        match self.try_down_by_spec(steps) {
            Some(c) => if c.y < limit { Some(c) } else { None },
            None => None,
        }
    }

    pub fn try_bounded_down_by(&self, steps: u16, limit: u16) -> (r: Option<Self>)
        ensures
            r == self.try_bounded_down_by_spec(steps, limit),
    {
        match self.try_down_by(steps) {
            Some(c) => if c.y < limit { Some(c) } else { None },
            None => None,
        }
    }

    /// `steps` columns toward the left, rejected unless the new column stays
    /// inside `[0, limit)`.
    pub open spec fn try_bounded_left_by_spec(&self, steps: u16, limit: u16) -> Option<Self> {
        match self.try_left_by_spec(steps) {
            Some(c) => if c.x < limit { Some(c) } else { None },
            None => None,
        }
    }

    pub fn try_bounded_left_by(&self, steps: u16, limit: u16) -> (r: Option<Self>)
        ensures
            r == self.try_bounded_left_by_spec(steps, limit),
    {
        match self.try_left_by(steps) {
            Some(c) => if c.x < limit { Some(c) } else { None },
            None => None,
        }
    }

    /// `steps` columns toward the right, rejected unless the new column stays
    /// inside `[0, limit)`.
    pub open spec fn try_bounded_right_by_spec(&self, steps: u16, limit: u16) -> Option<Self> {
        match self.try_right_by_spec(steps) {
            Some(c) => if c.x < limit { Some(c) } else { None },
            None => None,
        }
    }

    pub fn try_bounded_right_by(&self, steps: u16, limit: u16) -> (r: Option<Self>)
        ensures
            r == self.try_bounded_right_by_spec(steps, limit),
    {
        match self.try_right_by(steps) {
            Some(c) => if c.x < limit { Some(c) } else { None },
            None => None,
        }
    }

    /// One bounds-checked step in the given direction.
    pub open spec fn try_step_spec(&self, direction: Direction) -> Option<Self> {
        match direction {
            Direction::Up => self.try_up_by_spec(1),
            Direction::Down => self.try_down_by_spec(1),
            Direction::Left => self.try_left_by_spec(1),
            Direction::Right => self.try_right_by_spec(1),
        }
    }

    pub fn try_step(&self, direction: Direction) -> (r: Option<Self>)
        ensures
            r == self.try_step_spec(direction),
    {
        match direction {
            Direction::Up => self.try_up(),
            Direction::Down => self.try_down(),
            Direction::Left => self.try_left(),
            Direction::Right => self.try_right(),
        }
    }
}

impl Default for Coordinates {
    /// The origin `(0, 0)`.
    fn default() -> (r: Self)
        ensures
            r == (Coordinates { x: 0u16, y: 0u16 }),
    {
        Self { x: 0, y: 0 }
    }
}

} // verus!
