//! The player: how the keys move it, and how walls push it back.

use vstd::prelude::*;
use vstd::std_specs::ops::{AddSpec, DivSpec, MulSpec, SubSpec};
use crate::graphics::Orientation;
use crate::number::{count, exact, from_count, total, Number};

verus! {

/// What a player is given.
#[derive(Debug)]
pub struct Player<Q> {
    /// Distance covered per unit of time.
    pub move_speed: Q,
    /// Moles of oxygen breathed per unit of time.
    pub breath_rate: Q,
    /// Width and height of the box with which the player runs into walls.
    pub hitbox: (Q, Q),
}

impl<Q: Copy> Clone for Player<Q> {
    fn clone(&self) -> (copy: Player<Q>)
        ensures
            copy == *self,
    {
        *self
    }
}

impl<Q: Copy> Copy for Player<Q> {

}

/// The keys that move the player.
#[derive(Clone, Copy, Debug, PartialEq, Eq, Structural)]
pub struct MoveKeys {
    pub up: bool,
    pub down: bool,
    pub left: bool,
    pub right: bool,
}

/// What the keys make of the player in one tick.
#[derive(Debug)]
pub struct Movement<Q> {
    pub x_delta: Q,
    pub y_delta: Q,
    /// The way that the player now faces; nothing when no key is down.
    pub facing: Option<Orientation>,
}

/// On which side of a wall the player ran into it.
#[derive(Clone, Copy, Debug, PartialEq, Eq, Structural)]
pub enum Collision {
    Left,
    Right,
    Top,
    Bottom,
}

impl MoveKeys {
    /// The way that the player faces: the keys are read in the order up,
    /// down, left, right, and the last one that is down decides.
    pub open spec fn facing(self) -> Option<Orientation> {
        if self.right {
            Some(Orientation::Right)
        } else if self.left {
            Some(Orientation::Left)
        } else if self.down {
            Some(Orientation::Down)
        } else if self.up {
            Some(Orientation::Up)
        } else {
            None
        }
    }
}

/// `start` plus `amount` if `forward` is down, then minus `amount` if `back` is.
pub open spec fn pushed<Q: Number>(start: Q, amount: Q, forward: bool, back: bool) -> Q {
    let first = if forward {
        start.add_spec(amount)
    } else {
        start
    };
    if back {
        first.sub_spec(amount)
    } else {
        first
    }
}

/// `start` minus `amount` if `back` is down, then plus `amount` if `forward` is.
pub open spec fn pulled<Q: Number>(start: Q, amount: Q, back: bool, forward: bool) -> Q {
    let first = if back {
        start.sub_spec(amount)
    } else {
        start
    };
    if forward {
        first.add_spec(amount)
    } else {
        first
    }
}

impl<Q: Number> Player<Q> {
    /// How far the player moves along a pressed direction in the time `dt`.
    pub open spec fn stride(self, dt: Q) -> Q {
        self.move_speed.mul_spec(dt)
    }

    /// The oxygen that the player breathes in the time `dt`.
    pub open spec fn breath(self, dt: Q) -> Q {
        self.breath_rate.mul_spec(dt)
    }

    /// What the keys make of the player in the time `dt`: a stride up for the
    /// up key less a stride for the down key, and a stride right for the
    /// right key after a stride left for the left key.
    pub open spec fn moved(self, keys: MoveKeys, dt: Q) -> Movement<Q> {
        Movement {
            x_delta: pulled(count::<Q>(0), self.stride(dt), keys.left, keys.right),
            y_delta: pushed(count::<Q>(0), self.stride(dt), keys.up, keys.down),
            facing: keys.facing(),
        }
    }

    /// Where the player stands after a wall has pushed it back. A wall of
    /// `tile_size` at `wall` that the player at `position` ran into from the
    /// side `collision` puts the player's box flush against that side; no
    /// collision leaves the player where it is.
    pub open spec fn pushed_back(
        self,
        position: (Q, Q),
        wall: (Q, Q),
        tile_size: Q,
        collision: Option<Collision>,
    ) -> (Q, Q) {
        let two = count::<Q>(2);
        match collision {
            Some(Collision::Left) => (
                wall.0.sub_spec(tile_size.div_spec(two)).sub_spec(self.hitbox.0.div_spec(two)),
                position.1,
            ),
            Some(Collision::Right) => (
                wall.0.add_spec(tile_size.div_spec(two)).add_spec(self.hitbox.0.div_spec(two)),
                position.1,
            ),
            Some(Collision::Top) => (
                position.0,
                wall.1.add_spec(tile_size.div_spec(two)).add_spec(self.hitbox.1.div_spec(two)),
            ),
            Some(Collision::Bottom) => (
                position.0,
                wall.1.sub_spec(tile_size.div_spec(two)).sub_spec(self.hitbox.1.div_spec(two)),
            ),
            None => position,
        }
    }

    /// The oxygen that the player breathes in the time `dt`.
    pub fn to_breath(&self, dt: Q) -> (amount: Q)
        requires
            total::<Q>(),
        ensures
            exact::<Q>() ==> amount == self.breath(dt),
    {
        self.breath_rate * dt
    }

    /// What the keys make of the player in the time `dt`.
    pub fn player_movement(&self, keys: MoveKeys, dt: Q) -> (movement: Movement<Q>)
        requires
            total::<Q>(),
        ensures
            movement.facing == keys.facing(),
            exact::<Q>() ==> movement == self.moved(keys, dt),
    {
        let mut facing: Option<Orientation> = None;
        let mut y_delta: Q = from_count(0);
        if keys.up {
            facing = Some(Orientation::Up);
            y_delta = y_delta + self.move_speed * dt;
        }
        if keys.down {
            facing = Some(Orientation::Down);
            y_delta = y_delta - self.move_speed * dt;
        }
        let mut x_delta: Q = from_count(0);
        if keys.left {
            facing = Some(Orientation::Left);
            x_delta = x_delta - self.move_speed * dt;
        }
        if keys.right {
            facing = Some(Orientation::Right);
            x_delta = x_delta + self.move_speed * dt;
        }
        Movement { x_delta, y_delta, facing }
    }

    /// Where the player stands after a wall has pushed it back.
    pub fn player_collision(
        &self,
        position: (Q, Q),
        wall: (Q, Q),
        tile_size: Q,
        collision: Option<Collision>,
    ) -> (place: (Q, Q))
        requires
            total::<Q>(),
        ensures
            collision is None ==> place == position,
            exact::<Q>() ==> place == self.pushed_back(position, wall, tile_size, collision),
    {
        let two: Q = from_count(2);
        match collision {
            Some(Collision::Left) => (
                wall.0 - tile_size / two - self.hitbox.0 / two,
                position.1,
            ),
            Some(Collision::Right) => (
                wall.0 + tile_size / two + self.hitbox.0 / two,
                position.1,
            ),
            Some(Collision::Top) => (
                position.0,
                wall.1 + tile_size / two + self.hitbox.1 / two,
            ),
            Some(Collision::Bottom) => (
                position.0,
                wall.1 - tile_size / two - self.hitbox.1 / two,
            ),
            None => position,
        }
    }
}

} // verus!
