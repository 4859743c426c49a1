pub mod animation;
pub mod player;
pub mod service;
