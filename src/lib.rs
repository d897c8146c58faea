pub mod actions;
pub mod arg;
pub mod effect;
pub mod runner;
pub mod semantics;
pub mod strategy;
pub mod yaml;
