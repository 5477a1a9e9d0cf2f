//! The player square: where it stands, which way it moves and how key
//! events change that.
use vstd::prelude::*;
use crate::config::{Playfield, PlayerSetup};
use crate::geometry::Position;
use crate::motion::{elapsed_part, travel};

verus! {

/// Horizontal movement of the player.
#[derive(Clone, Copy, Debug, PartialEq, Eq, Structural)]
pub enum Direction {
    Left,
    Right,
    Still,
}

/// The keys the game knows. Any key without a meaning is `Other`.
#[derive(Clone, Copy, Debug, PartialEq, Eq, Structural)]
pub enum Key {
    Left,
    Right,
    Reset,
    Other,
}

/// Whether a key went down or came up.
#[derive(Clone, Copy, Debug, PartialEq, Eq, Structural)]
pub enum Transition {
    Press,
    Release,
}

/// The player-controlled square.
#[derive(Clone, Copy, Debug, PartialEq, Eq, Structural)]
pub struct Player {
    pub position: Position,
    pub direction: Direction,
    pub size: i64,
    pub speed: i64,
    pub is_left_pressed: bool,
    pub is_right_pressed: bool,
    pub is_dead: bool,
}

/// The direction that the held keys ask for: left wins over right, and with
/// no key held the player stands still.
pub open spec fn held_direction(left: bool, right: bool) -> Direction {
    if left {
        Direction::Left
    } else if right {
        Direction::Right
    } else {
        Direction::Still
    }
}

impl Player {
    /// The player at the start of a game: centred between the walls, `margin`
    /// above the bottom edge, standing still with no key held.
    pub open spec fn initial(field: Playfield, setup: PlayerSetup) -> Player {
        Player {
            position: Position {
                x: (field.width / 2 - setup.size / 2) as i64,
                y: (field.height - setup.size - setup.margin) as i64,
            },
            direction: Direction::Still,
            size: setup.size,
            speed: setup.speed,
            is_left_pressed: false,
            is_right_pressed: false,
            is_dead: false,
        }
    }

    /// The direction never points to a side whose key is up, and the player
    /// only stands still when both keys are up.
    pub open spec fn direction_consistent(self) -> bool {
        match self.direction {
            Direction::Left => self.is_left_pressed,
            Direction::Right => self.is_right_pressed,
            Direction::Still => !self.is_left_pressed && !self.is_right_pressed,
        }
    }

    /// The player lies between the walls of a playfield of the given width,
    /// does not move backwards, and its direction agrees with the held keys.
    pub open spec fn wf(self, width: int) -> bool {
        &&& 0 <= self.size
        &&& 0 <= self.speed
        &&& 0 <= self.position.x <= width - self.size
        &&& self.direction_consistent()
    }

    /// The player after a key event.
    pub open spec fn after_button(self, key: Key, transition: Transition) -> Player {
        match (key, transition) {
            (Key::Left, Transition::Press) => Player {
                is_left_pressed: true,
                direction: Direction::Left,
                ..self
            },
            (Key::Left, Transition::Release) => Player {
                is_left_pressed: false,
                direction: held_direction(false, self.is_right_pressed),
                ..self
            },
            (Key::Right, Transition::Press) => Player {
                is_right_pressed: true,
                direction: Direction::Right,
                ..self
            },
            (Key::Right, Transition::Release) => Player {
                is_right_pressed: false,
                direction: held_direction(self.is_left_pressed, false),
                ..self
            },
            _ => self,
        }
    }

    /// The horizontal coordinate after a step of `dt` to the right between
    /// walls `width` apart: a step that would carry the right edge past the
    /// right wall puts the player at the left wall instead.
    pub open spec fn right_x(self, dt: int, width: int) -> int {
        let step = self.speed * elapsed_part(dt);
        if self.position.x + step > width - self.size {
            0
        } else {
            self.position.x + step
        }
    }

    /// The horizontal coordinate after a step of `dt` to the left between
    /// walls `width` apart: a step that would carry the left edge past the
    /// left wall puts the player at the right wall instead.
    pub open spec fn left_x(self, dt: int, width: int) -> int {
        let step = self.speed * elapsed_part(dt);
        if self.position.x - step < 0 {
            width - self.size
        } else {
            self.position.x - step
        }
    }

    /// The horizontal coordinate after moving for `dt` in the player's
    /// direction.
    pub open spec fn advanced_x(self, dt: int, width: int) -> int {
        match self.direction {
            Direction::Right => self.right_x(dt, width),
            Direction::Left => self.left_x(dt, width),
            Direction::Still => self.position.x as int,
        }
    }

    /// The player with another horizontal coordinate and nothing else
    /// changed.
    pub open spec fn moved_to(self, x: int) -> Player {
        Player { position: Position { x: x as i64, y: self.position.y }, ..self }
    }

    /// The player after moving for `dt`.
    pub open spec fn advanced(self, dt: int, width: int) -> Player {
        self.moved_to(self.advanced_x(dt, width))
    }

    /// The player after a collision.
    pub open spec fn collided(self) -> Player {
        Player { is_dead: true, ..self }
    }

    /// Creates the player of a new game.
    pub fn new(field: Playfield, setup: PlayerSetup) -> (player: Player)
        requires
            field.valid(),
            setup.fits(field),
            0 <= setup.speed,
        ensures
            player == Player::initial(field, setup),
            player.wf(field.width as int),
    {
        Player {
            position: Position {
                x: field.width / 2 - setup.size / 2,
                y: field.height - setup.size - setup.margin,
            },
            direction: Direction::Still,
            size: setup.size,
            speed: setup.speed,
            is_left_pressed: false,
            is_right_pressed: false,
            is_dead: false,
        }
    }

    /// Applies a key event. Only the two movement keys change anything.
    pub fn handle_button(&mut self, key: Key, transition: Transition)
        ensures
            *final(self) == old(self).after_button(key, transition),
    {
        match key {
            Key::Left => match transition {
                Transition::Press => self.left_pressed(),
                Transition::Release => self.left_released(),
            },
            Key::Right => match transition {
                Transition::Press => self.right_pressed(),
                Transition::Release => self.right_released(),
            },
            _ => {},
        }
    }

    /// The left key went down: the player moves left.
    pub fn left_pressed(&mut self)
        ensures
            *final(self) == old(self).after_button(Key::Left, Transition::Press),
    {
        self.is_left_pressed = true;
        self.direction = Direction::Left;
    }

    /// The left key came up: the player moves as the keys that are still
    /// held ask.
    pub fn left_released(&mut self)
        ensures
            *final(self) == old(self).after_button(Key::Left, Transition::Release),
    {
        self.is_left_pressed = false;
        self.reset_direction();
    }

    /// The right key went down: the player moves right.
    pub fn right_pressed(&mut self)
        ensures
            *final(self) == old(self).after_button(Key::Right, Transition::Press),
    {
        self.is_right_pressed = true;
        self.direction = Direction::Right;
    }

    /// The right key came up: the player moves as the keys that are still
    /// held ask.
    pub fn right_released(&mut self)
        ensures
            *final(self) == old(self).after_button(Key::Right, Transition::Release),
    {
        self.is_right_pressed = false;
        self.reset_direction();
    }

    /// Sets the direction from the held keys alone: left if the left key is
    /// held, else right if the right key is held, else still.
    pub fn reset_direction(&mut self)
        ensures
            *final(self) == (Player {
                direction: held_direction(old(self).is_left_pressed, old(self).is_right_pressed),
                ..*old(self)
            }),
    {
        if self.is_left_pressed {
            self.direction = Direction::Left;
        } else if self.is_right_pressed {
            self.direction = Direction::Right;
        } else {
            self.direction = Direction::Still;
        }
    }

    /// Moves the player for `dt` time units in its direction, between walls
    /// `width` apart.
    pub fn advance(&mut self, dt: i64, width: i64)
        requires
            old(self).wf(width as int),
        ensures
            *final(self) == old(self).advanced(dt as int, width as int),
            final(self).position.x == old(self).advanced_x(dt as int, width as int),
            final(self).wf(width as int),
    {
        match self.direction {
            Direction::Right => self.move_right(dt, width),
            Direction::Left => self.move_left(dt, width),
            Direction::Still => {},
        }
    }

    /// Moves the player to the right for `dt` time units, whatever its
    /// direction, and wraps it to the left wall when the step passes the
    /// right wall.
    pub fn move_right(&mut self, dt: i64, width: i64)
        requires
            old(self).wf(width as int),
        ensures
            *final(self) == old(self).moved_to(old(self).right_x(dt as int, width as int)),
            final(self).position.x == old(self).right_x(dt as int, width as int),
            final(self).wf(width as int),
    {
        let step: i128 = travel(self.speed, dt);
        if self.position.x as i128 + step > width as i128 - self.size as i128 {
            self.position.x = 0;
        } else {
            self.position.x = (self.position.x as i128 + step) as i64;
        }
    }

    /// Moves the player to the left for `dt` time units, whatever its
    /// direction, and wraps it to the right wall when the step passes the
    /// left wall.
    pub fn move_left(&mut self, dt: i64, width: i64)
        requires
            old(self).wf(width as int),
        ensures
            *final(self) == old(self).moved_to(old(self).left_x(dt as int, width as int)),
            final(self).position.x == old(self).left_x(dt as int, width as int),
            final(self).wf(width as int),
    {
        let step: i128 = travel(self.speed, dt);
        if (self.position.x as i128) - step < 0 {
            self.position.x = width - self.size;
        } else {
            self.position.x = (self.position.x as i128 - step) as i64;
        }
    }

    /// Marks the player as hit. A player that is already dead stays dead.
    pub fn mark_collided(&mut self)
        ensures
            *final(self) == old(self).collided(),
    {
        self.is_dead = true;
    }
}

/// A key event keeps a well-formed player well-formed.
pub proof fn button_keeps_wf(player: Player, key: Key, transition: Transition, width: int)
    requires
        player.wf(width),
    ensures
        player.after_button(key, transition).wf(width),
{
}

/// Moving keeps the player between the walls: it is never out of bounds,
/// and a step past a wall ends at the opposite wall.
pub proof fn advance_keeps_bounds(player: Player, dt: int, width: int)
    requires
        player.wf(width),
    ensures
        0 <= player.advanced_x(dt, width) <= width - player.size,
        player.direction is Right && player.position.x + player.speed * elapsed_part(dt) > width
            - player.size ==> player.advanced_x(dt, width) == 0,
        player.direction is Left && player.position.x - player.speed * elapsed_part(dt) < 0
            ==> player.advanced_x(dt, width) == width - player.size,
{
    assert(0 <= player.speed * elapsed_part(dt)) by (nonlinear_arith)
        requires
            0 <= player.speed,
            0 <= elapsed_part(dt),
    ;
}

/// With both movement keys held, releasing the right one leaves the player
/// moving left, releasing the left one leaves it moving right, and after
/// both releases, in either order, it stands still.
pub proof fn release_precedence(player: Player)
    requires
        player.is_left_pressed,
        player.is_right_pressed,
    ensures
        player.after_button(Key::Right, Transition::Release).direction == Direction::Left,
        player.after_button(Key::Left, Transition::Release).direction == Direction::Right,
        player.after_button(Key::Right, Transition::Release).after_button(
            Key::Left,
            Transition::Release,
        ).direction == Direction::Still,
        player.after_button(Key::Left, Transition::Release).after_button(
            Key::Right,
            Transition::Release,
        ).direction == Direction::Still,
{
}

} // verus!
