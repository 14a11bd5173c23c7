pub mod entities;
pub mod game;
pub mod grid;
pub mod render;
pub mod session;
