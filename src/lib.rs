pub mod actions;
pub mod game;
pub mod player;
pub mod security;
pub mod utils;
mod random;
