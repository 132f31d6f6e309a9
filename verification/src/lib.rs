//! The logic of a tile-based space station: the gas that fills it, the walls
//! that hold the gas in, and the layout of what is drawn.
//!
//! The heart of the library is the gas simulation. [`grid::GasGrid`] holds a
//! [`gas::GasMixture`] for every tile and the [`mask::WallMask`] of the tiles
//! that walls block; [`grid::GasGrid::step`] spreads heat and gas with the
//! solver of [`diffusion`], breaches and breathers act on single cells, and a
//! clamp pass keeps every amount in its range. [`tick`] names the order of
//! this work. The walls themselves are kept in a [`wall::WallGrid`].
//!
//! The library computes with any type of [`number::Number`]; see that module
//! for what is stated about the results.

pub mod ascii;
pub mod canister;
pub mod diffusion;
pub mod gas;
pub mod graphics;
pub mod grid;
pub mod hitbox;
pub mod lattice;
pub mod mask;
pub mod number;
pub mod particles;
pub mod player;
pub mod tick;
pub mod ui;
pub mod visual;
pub mod wall;
