//! The runtime core of a 2D game: actors that own ordered components and
//! cache their world transform, the game that registers them, runs the
//! update pass and keeps the draw list, and the math they are built on.
//!
//! The library holds no floating-point numbers. A real number is the bit
//! pattern of a single-precision number ([`math::Scalar`]), and whoever
//! calls a function that computes hands in the arithmetic
//! ([`math::Arithmetic`]).

pub mod actor;
pub mod asteroid;
pub mod circle_component;
pub mod color;
pub mod component;
pub mod game;
pub mod input_component;
pub mod math;
pub mod matrix;
pub mod move_component;
pub mod ordered;
pub mod quaternion;
pub mod random;
pub mod shader;
pub mod sprite_component;
pub mod texture;
pub mod vector;
