//! Entities of the simulation: position, sprite and movement.

use vstd::prelude::*;

verus! {

/// The direction an entity is moving in.
#[derive(Clone, Copy, PartialEq, Eq, Structural, Debug)]
pub enum Direction {
    /// Moving up (negative y).
    Up,
    /// Moving down (positive y).
    Down,
    /// Moving left (negative x).
    Left,
    /// Moving right (positive x).
    Right,
    /// Not moving.
    Still,
}

/// A point in world coordinates.
#[derive(Clone, Copy, PartialEq, Eq, Structural, Debug)]
pub struct Point {
    /// Horizontal coordinate.
    pub x: i32,
    /// Vertical coordinate.
    pub y: i32,
}

/// The source rectangle of an entity's sprite in its texture.
#[derive(Clone, Copy, PartialEq, Eq, Structural, Debug)]
pub struct SpriteRect {
    /// Left edge.
    pub x: i32,
    /// Top edge.
    pub y: i32,
    /// Width in pixels.
    pub width: u32,
    /// Height in pixels.
    pub height: u32,
}

/// The player entity.
#[derive(Clone, Copy, PartialEq, Eq, Structural, Debug)]
pub struct Player {
    /// Position in world coordinates.
    pub position: Point,
    /// Source rectangle of the player's sprite.
    pub sprite: SpriteRect,
    /// Movement speed in world units per update.
    pub speed: i32,
    /// Current movement direction.
    pub direction: Direction,
}

/// Where one update moves a position: `speed` units along the direction.
pub open spec fn spec_moved(position: Point, direction: Direction, speed: int) -> (int, int) {
    match direction {
        Direction::Left => (position.x - speed, position.y as int),
        Direction::Right => (position.x + speed, position.y as int),
        Direction::Up => (position.x as int, position.y - speed),
        Direction::Down => (position.x as int, position.y + speed),
        Direction::Still => (position.x as int, position.y as int),
    }
}

impl Player {
    /// The player's position.
    pub fn get_position(&self) -> (position: Point)
        ensures
            position == self.position,
    {
        self.position
    }

    /// The player's sprite rectangle.
    pub fn get_sprite(&self) -> (sprite: SpriteRect)
        ensures
            sprite == self.sprite,
    {
        self.sprite
    }

    /// Moves the player one update along its direction at its speed.
    /// The caller keeps positions far enough from the coordinate limits
    /// that one step cannot leave them.
    pub fn update(&mut self)
        requires
            i32::MIN <= spec_moved(old(self).position, old(self).direction, old(self).speed as int).0
                <= i32::MAX,
            i32::MIN <= spec_moved(old(self).position, old(self).direction, old(self).speed as int).1
                <= i32::MAX,
        ensures
            final(self).position.x
                == spec_moved(old(self).position, old(self).direction, old(self).speed as int).0,
            final(self).position.y
                == spec_moved(old(self).position, old(self).direction, old(self).speed as int).1,
            final(self).sprite == old(self).sprite,
            final(self).speed == old(self).speed,
            final(self).direction == old(self).direction,
    {
        match self.direction {
            Direction::Left => {
                self.position = Point { x: self.position.x - self.speed, y: self.position.y };
            }
            Direction::Right => {
                self.position = Point { x: self.position.x + self.speed, y: self.position.y };
            }
            Direction::Up => {
                self.position = Point { x: self.position.x, y: self.position.y - self.speed };
            }
            Direction::Down => {
                self.position = Point { x: self.position.x, y: self.position.y + self.speed };
            }
            Direction::Still => {}
        }
    }
}

} // verus!
