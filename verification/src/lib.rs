pub mod ambulance;
pub mod citizen;
pub mod game;
pub mod gamesettings;
pub mod infectable;
pub mod moveable;
pub mod player;
pub mod rng;
