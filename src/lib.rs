//! Game logic of an endless-runner bicycle game, in exact fixed-point units.
//!
//! Lengths are sub-pixels (see [`units::SUBPIXELS_PER_PIXEL`]), times are
//! [`units::TIME_UNITS_PER_SECOND`]-ths of a second and probabilities are
//! [`units::CHANCE_SCALE`]-ths. The simulation advances in fixed steps of
//! [`units::TIMESTEP`].
pub mod units;
pub mod geometry;
mod random;
pub mod obstacles;
pub mod player;
pub mod game;
pub mod background;
