pub mod blocks;
pub mod player;
pub mod reset_game;
pub mod spawning;
