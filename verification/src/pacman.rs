//! The player character of the pacman game: its marker and the directions it moves in.

use vstd::prelude::*;

verus! {

/// Marks the entity that the player steers.
#[derive(Debug, Clone, Copy, Default, PartialEq, Eq)]
pub struct PlayerCharacterMarker;

/// The directions in which the player character moves.
#[derive(Debug, Clone, Copy, PartialEq, Eq, Hash, Structural)]
pub enum MoveDirection {
    Up,
    Down,
    Left,
    Right,
}

impl MoveDirection {
    /// The unit step of the direction along the x, y and z axes: up and down move along y,
    /// left and right along x.
    pub open spec fn step(self) -> (int, int, int) {
        match self {
            MoveDirection::Up => (0, 1, 0),
            MoveDirection::Down => (0, -1, 0),
            MoveDirection::Left => (-1, 0, 0),
            MoveDirection::Right => (1, 0, 0),
        }
    }

    /// The unit step of the direction along the x, y and z axes; the character moves by this
    /// step scaled by the time that passed.
    pub fn delta(self) -> (r: (i8, i8, i8))
        ensures
            (r.0 as int, r.1 as int, r.2 as int) == self.step(),
    {
        match self {
            MoveDirection::Up => (0, 1, 0),
            MoveDirection::Down => (0, -1, 0),
            MoveDirection::Left => (-1, 0, 0),
            MoveDirection::Right => (1, 0, 0),
        }
    }
}

} // verus!
