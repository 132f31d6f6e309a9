//! What the things of the station look like: the names of their sprites.

use vstd::prelude::*;
use crate::wall::WallConnection;

verus! {

/// The direction that something faces.
#[derive(Clone, Copy, Debug, PartialEq, Eq, Hash, Structural)]
pub enum Orientation {
    Up,
    Down,
    Left,
    Right,
}

impl Default for Orientation {
    fn default() -> (facing: Orientation)
        ensures
            facing == Orientation::Down,
    {
        Orientation::Down
    }
}

/// An object of the station, with the state that picks its sprite.
#[derive(Clone, Copy, Debug, PartialEq, Eq, Hash, Structural)]
pub enum WorldObject {
    Canister,
    CanisterMachine,
    /// The gauge on a canister, showing a level from 0 upward.
    SmallLabel(usize),
    Terminal(Orientation),
    /// A furnace, lit or not.
    Furance(bool),
    Wall(WallConnection),
}

impl Default for WorldObject {
    fn default() -> (object: WorldObject)
        ensures
            object == WorldObject::Canister,
    {
        WorldObject::Canister
    }
}

/// The name of a sprite.
#[derive(Clone, Copy, Debug, PartialEq, Eq, Hash, Structural)]
pub enum Graphic {
    Player(Orientation),
    WorldObject(WorldObject),
}

/// The sprite sheets that the sprites are cut from.
#[derive(Clone, Copy, Debug, PartialEq, Eq, Hash, Structural)]
pub enum SpriteSheet {
    Character,
    StarterGraphics,
}

/// A colour: red, green, blue and alpha, each from 0 to 1.
#[derive(Debug)]
pub struct Color<Q> {
    pub red: Q,
    pub green: Q,
    pub blue: Q,
    pub alpha: Q,
}

impl<Q: Copy> Clone for Color<Q> {
    fn clone(&self) -> (copy: Color<Q>)
        ensures
            copy == *self,
    {
        Color { red: self.red, green: self.green, blue: self.blue, alpha: self.alpha }
    }
}

impl<Q: Copy> Copy for Color<Q> {

}

} // verus!
