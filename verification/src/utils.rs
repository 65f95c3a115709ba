//! Small features around the learning screens.

pub mod easter_egg;
