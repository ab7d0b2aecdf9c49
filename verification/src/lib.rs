//! A small toolkit for games: a seeded noise generator, linear
//! interpolation, the tracking of keys and mouse buttons, the bookkeeping of
//! instanced models, and the search for the struct that a `main` function is
//! written for.

pub mod entry;
pub mod input;
pub mod math;
pub mod rand;
pub mod renderers;
