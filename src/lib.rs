//! Dice rolls for the Triangle Agency tabletop game: six four-sided dice,
//! classified by how many of them show the hit face, rendered as text.

pub mod dice;
pub mod rng;
