//! The component records attached to the game entities.
//!
//! The store holds exactly one ball and one paddle per side for the whole
//! process lifetime, so the components live in fixed fields of the game
//! state rather than behind entity lookups; the "exactly one ball" rule is
//! enforced by construction instead of a runtime count.

use vstd::prelude::*;

verus! {

/// Which paddle, goal and score counter an item belongs to.
#[derive(Clone, Copy, Debug, PartialEq, Eq, Structural)]
pub enum Side {
    Left,
    Right,
}

/// World-space coordinates, origin at the arena centre.
#[derive(Clone, Copy, Debug, PartialEq, Eq, Structural)]
pub struct Position {
    pub x: i64,
    pub y: i64,
}

/// Linear displacement rate per unit time.
#[derive(Clone, Copy, Debug, PartialEq, Eq, Structural)]
pub struct Velocity {
    pub x: i64,
    pub y: i64,
}

/// Which way a directional force currently pushes.
#[derive(Clone, Copy, Debug, PartialEq, Eq, Structural)]
pub enum VerticalDir {
    Down,
    Up,
}

/// A constant vertical push on the ball. The strength and the current
/// direction are separate fields, so reversing the push on a bounce never
/// changes how strong it is.
#[derive(Clone, Copy, Debug, PartialEq, Eq, Structural)]
pub struct DirectionalForce {
    /// How strong the push is; never negative.
    pub magnitude: i64,
    /// Which way it currently pushes.
    pub direction: VerticalDir,
}

impl DirectionalForce {
    /// The strength is a magnitude, not a signed value.
    pub open spec fn wf(self) -> bool {
        self.magnitude >= 0
    }

    /// The signed strength: positive when pushing down (toward `-y`),
    /// negative when pushing up.
    pub open spec fn signed(self) -> int {
        match self.direction {
            VerticalDir::Down => self.magnitude as int,
            VerticalDir::Up => -(self.magnitude as int),
        }
    }

    /// The same force pushing the opposite way.
    pub open spec fn spec_flipped(self) -> DirectionalForce {
        DirectionalForce {
            magnitude: self.magnitude,
            direction: match self.direction {
                VerticalDir::Down => VerticalDir::Up,
                VerticalDir::Up => VerticalDir::Down,
            },
        }
    }

    /// Reverses the push direction in place, keeping the strength.
    pub fn flip(&mut self)
        ensures
            *final(self) == old(self).spec_flipped(),
    {
        self.direction = match self.direction {
            VerticalDir::Down => VerticalDir::Up,
            VerticalDir::Up => VerticalDir::Down,
        };
    }
}

/// A cumulative point count for one side.
#[derive(Clone, Copy, Debug, PartialEq, Eq, Structural)]
pub struct Score {
    pub value: u64,
}

/// A one-tick notification that the named side scored a point. Events are
/// queued by the boundary system and drained fully by the scoring system
/// within the same tick; none survives a tick.
#[derive(Clone, Copy, Debug, PartialEq, Eq, Structural)]
pub struct ScoreEvent {
    pub side: Side,
}

} // verus!
