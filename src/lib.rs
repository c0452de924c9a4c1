pub mod common;
pub mod map;
pub mod components;
pub mod ai;
pub mod player;
pub mod visuals;
