//! Verified simulation core of a Space Invaders style arcade game.
//!
//! Geometry is modelled in fixed-point milli-units: 1000 fixed-point units
//! stand for one screen unit, so a scale factor of 0.55 is stored as 550.

pub mod bullet;
pub mod enemy;
pub mod geom;
pub mod init;
pub mod player;
pub mod score;
pub mod sprite;
pub mod state;

pub use geom::Point;
pub use geom::Rect;
