use vstd::prelude::*;

verus! {

/// One of the four navigation intents a key press can carry.
#[derive(Debug, Copy, Clone, Hash, PartialEq, Eq, Structural)]
pub enum Direction {
    Up,
    Down,
    Left,
    Right,
}

impl Direction {
    /// All four directions, in a fixed order.
    pub fn get_directions() -> (r: Vec<Direction>)
        ensures
            r@ == seq![Direction::Up, Direction::Down, Direction::Left, Direction::Right],
    {
        let r = vec![Direction::Up, Direction::Down, Direction::Left, Direction::Right];
        proof {
            assert(r@ =~= seq![
                Direction::Up,
                Direction::Down,
                Direction::Left,
                Direction::Right,
            ]);
        }
        r
    }

    /// The direction pointing the opposite way.
    pub open spec fn reverse_spec(&self) -> Direction {
        match self {
            Direction::Down => Direction::Up,
            Direction::Up => Direction::Down,
            Direction::Left => Direction::Right,
            Direction::Right => Direction::Left,
        }
    }

    pub fn reverse_direction(&self) -> (r: Direction)
        ensures
            r == self.reverse_spec(),
    {
        match self {
            Direction::Down => Direction::Up,
            Direction::Up => Direction::Down,
            Direction::Left => Direction::Right,
            Direction::Right => Direction::Left,
        }
    }
}

} // verus!
