//! Falling squares.
use vstd::prelude::*;
use crate::geometry::Position;
use crate::motion::{elapsed_part, travel};

verus! {

/// A falling square. It only ever moves down.
#[derive(Clone, Copy, Debug, PartialEq, Eq, Structural)]
pub struct Faller {
    pub position: Position,
    pub velocity: i64,
    pub size: i64,
    pub is_dead: bool,
}

impl Faller {
    /// A faller has a non-negative side and never moves upwards.
    pub open spec fn wf(self) -> bool {
        0 <= self.velocity && 0 <= self.size
    }

    /// A live faller of the given side whose bottom edge touches the top
    /// edge of the playfield from above.
    pub open spec fn entering_spec(x: i64, size: i64, velocity: i64) -> Faller {
        Faller { position: Position { x, y: (-size) as i64 }, velocity, size, is_dead: false }
    }

    /// The vertical coordinate after falling for `dt`. A coordinate past the
    /// largest one that can be held stays at the largest one.
    pub open spec fn advanced_y(self, dt: int) -> int {
        let y = self.position.y + self.velocity * elapsed_part(dt);
        if y > i64::MAX {
            i64::MAX as int
        } else {
            y
        }
    }

    /// The faller after falling for `dt` in a playfield of the given height:
    /// it is dead once its top edge is below the bottom edge of the field.
    pub open spec fn advanced(self, dt: int, height: int) -> Faller {
        Faller {
            position: Position { x: self.position.x, y: self.advanced_y(dt) as i64 },
            is_dead: self.is_dead || self.advanced_y(dt) > height,
            ..self
        }
    }

    /// The faller after it was hit.
    pub open spec fn struck(self) -> Faller {
        Faller { is_dead: true, ..self }
    }

    /// Creates a faller just above the playfield.
    pub fn entering(x: i64, size: i64, velocity: i64) -> (faller: Faller)
        requires
            0 <= size,
            0 <= velocity,
        ensures
            faller == Faller::entering_spec(x, size, velocity),
            faller.wf(),
    {
        Faller { position: Position { x, y: -size }, velocity, size, is_dead: false }
    }

    /// Lets the faller fall for `dt` time units in a playfield of the given
    /// height.
    pub fn advance(&mut self, dt: i64, height: i64)
        requires
            old(self).wf(),
        ensures
            *final(self) == old(self).advanced(dt as int, height as int),
            final(self).wf(),
            final(self).position.y == old(self).advanced_y(dt as int),
            old(self).position.y + old(self).velocity * elapsed_part(dt as int) <= i64::MAX
                ==> final(self).position.y == old(self).position.y + old(self).velocity
                * elapsed_part(dt as int),
            final(self).is_dead == (old(self).is_dead || final(self).position.y > height),
            final(self).position.y >= old(self).position.y,
    {
        let target: i128 = self.position.y as i128 + travel(self.velocity, dt);
        if target > i64::MAX as i128 {
            self.position.y = i64::MAX;
        } else {
            self.position.y = target as i64;
        }
        if self.position.y > height {
            self.is_dead = true;
        }
    }
}

} // verus!
