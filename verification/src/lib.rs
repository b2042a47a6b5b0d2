pub mod cell;
pub mod codec;
pub mod rng;
pub mod rules;
pub mod grid;
pub mod engine;
