//! The four directions in which the snake can travel.

use vstd::prelude::*;
use vstd::string::StringExecFns;

verus! {

/// A direction of travel on the grid. The y axis grows downwards, so `Up`
/// lowers y and `Down` raises it.
#[derive(Debug, PartialEq, Eq, Structural, Clone, Copy)]
pub enum Direction {
    Up,
    Down,
    Left,
    Right,
}

impl Direction {
    /// The direction that points the other way.
    pub open spec fn opposite(self) -> Direction {
        match self {
            Direction::Up => Direction::Down,
            Direction::Down => Direction::Up,
            Direction::Left => Direction::Right,
            Direction::Right => Direction::Left,
        }
    }

    /// Whether the two directions point exactly opposite ways.
    pub open spec fn opposes(self, other: Direction) -> bool {
        match (self, other) {
            (Direction::Up, Direction::Down) => true,
            (Direction::Down, Direction::Up) => true,
            (Direction::Right, Direction::Left) => true,
            (Direction::Left, Direction::Right) => true,
            _ => false,
        }
    }

    /// The change in x of one step in this direction.
    pub open spec fn dx(self) -> int {
        match self {
            Direction::Left => -1,
            Direction::Right => 1,
            _ => 0,
        }
    }

    /// The change in y of one step in this direction.
    pub open spec fn dy(self) -> int {
        match self {
            Direction::Up => -1,
            Direction::Down => 1,
            _ => 0,
        }
    }

    /// The lower-case English name of the direction.
    pub open spec fn name(self) -> Seq<char> {
        match self {
            Direction::Up => "up"@,
            Direction::Down => "down"@,
            Direction::Right => "right"@,
            Direction::Left => "left"@,
        }
    }

    /// Returns the lower-case English name of the direction.
    pub fn to_string(&self) -> (s: String)
        ensures
            s@ == self.name(),
    {
        match self {
            Direction::Up => String::from_str("up"),
            Direction::Down => String::from_str("down"),
            Direction::Right => String::from_str("right"),
            Direction::Left => String::from_str("left"),
        }
    }

    /// Tells whether `dir` points exactly the other way.
    pub fn is_opposite(&self, dir: Direction) -> (b: bool)
        ensures
            b == self.opposes(dir),
    {
        match (*self, dir) {
            (Direction::Up, Direction::Down) => true,
            (Direction::Down, Direction::Up) => true,
            (Direction::Right, Direction::Left) => true,
            (Direction::Left, Direction::Right) => true,
            _ => false,
        }
    }
}

/// No direction opposes itself, every direction opposes its opposite and
/// nothing else, and opposing is symmetric.
pub proof fn lemma_opposes_laws(a: Direction, b: Direction)
    ensures
        !a.opposes(a),
        a.opposes(a.opposite()),
        a.opposes(b) == (b == a.opposite()),
        a.opposes(b) == b.opposes(a),
{
}

} // verus!
