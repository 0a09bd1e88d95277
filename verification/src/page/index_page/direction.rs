use vstd::prelude::*;
use vstd::std_specs::convert::FromSpecImpl;

verus! {

/// The direction of the last inserts into an index page.
#[derive(Debug, Eq, PartialEq, Copy, Clone, Structural)]
pub enum Direction {
    Left,
    Right,
    NoDirection,
    /// A code outside the known set.
    Unknown,
}

/// The direction that a code stands for: 1 left, 2 right, 5 none.
pub open spec fn direction_of(value: u16) -> Direction {
    if value == 1 {
        Direction::Left
    } else if value == 2 {
        Direction::Right
    } else if value == 5 {
        Direction::NoDirection
    } else {
        Direction::Unknown
    }
}

impl From<u16> for Direction {
    fn from(value: u16) -> (r: Direction) {
        match value {
            1 => Direction::Left,
            2 => Direction::Right,
            5 => Direction::NoDirection,
            _ => Direction::Unknown,
        }
    }
}

impl FromSpecImpl<u16> for Direction {
    open spec fn obeys_from_spec() -> bool {
        true
    }

    open spec fn from_spec(value: u16) -> Direction {
        direction_of(value)
    }
}

} // verus!
